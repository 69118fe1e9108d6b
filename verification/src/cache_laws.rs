//! What holds of everything that the text system hands out, whether it was asked of the platform
//! or remembered.

use crate::font::{are_scaled_bounds, is_scaled, Font};
use crate::geometry::{Bounds, Pixels};
use crate::key_laws::{
    law_fonts_are_told_apart_by_every_property, law_glyph_keys_hold_every_parameter,
    law_identities_of_fonts, same_descriptions,
};
use crate::raster::RasterizedGlyph;
use crate::scalar::{computes, Arithmetic, Computation, Scalar};
use crate::text_system::{
    font_entry, is_baseline_offset, is_font_lookup, is_rasterized, raster_entry, same_lookup,
    FontId, PlatformTextSystem, RenderGlyphParams, TextSystem,
};
use std::sync::Arc;
use vstd::prelude::*;

verus! {

/// Whether every raster that is remembered is one that the platform makes for its parameters.
pub open spec fn rasters_are_the_platforms<P: PlatformTextSystem>(
    platform: &P,
    entries: Seq<(RenderGlyphParams, Arc<RasterizedGlyph>)>,
) -> bool {
    forall|at: int|
        0 <= at < entries.len() ==> call_ensures(
            P::rasterize_glyph,
            (platform, &(#[trigger] entries[at]).0),
            Ok::<RasterizedGlyph, String>(*entries[at].1),
        )
}

/// A raster is always one that the platform makes for the very parameters that are asked for:
/// their font, glyph, size, place between pixels, scale and kind. What is remembered stays so.
pub proof fn law_rasters_are_made_for_their_parameters<P: PlatformTextSystem>(
    platform: &P,
    before: Seq<(RenderGlyphParams, Arc<RasterizedGlyph>)>,
    params: &RenderGlyphParams,
    after: Seq<(RenderGlyphParams, Arc<RasterizedGlyph>)>,
    result: Result<Arc<RasterizedGlyph>, String>,
)
    requires
        rasters_are_the_platforms(platform, before),
        is_rasterized(platform, before, params, after, result),
    ensures
        rasters_are_the_platforms(platform, after),
        result matches Ok(glyph) ==> call_ensures(
            P::rasterize_glyph,
            (platform, params),
            Ok::<RasterizedGlyph, String>(*glyph),
        ),
        result matches Err(message) ==> after == before && call_ensures(
            P::rasterize_glyph,
            (platform, params),
            Err::<RasterizedGlyph, String>(message),
        ),
{
    if exists|position: int| #[trigger] raster_entry(before, *params, position) {
        let position = choose|position: int| #[trigger] raster_entry(before, *params, position);
        let held = before[position].0;
        law_glyph_keys_hold_every_parameter(held, *params);
        assert(held.font_id == params.font_id);
        assert(held.glyph_id == params.glyph_id);
        assert(held.font_size.0 == params.font_size.0);
        assert(held.font_size == params.font_size);
        assert(held.subpixel_variant == params.subpixel_variant);
        assert(held.scale_factor == params.scale_factor);
        assert(held == *params);
        assert(call_ensures(
            P::rasterize_glyph,
            (platform, &before[position].0),
            Ok::<RasterizedGlyph, String>(*before[position].1),
        ));
    } else {
        assert forall|at: int| 0 <= at < after.len() implies call_ensures(
            P::rasterize_glyph,
            (platform, &(#[trigger] after[at]).0),
            Ok::<RasterizedGlyph, String>(*after[at].1),
        ) by {
            if at < before.len() {
                assert(after[at] == before[at]);
            }
        }
    }
}

/// A raster that the platform makes is remembered under its parameters; nothing else changes.
pub proof fn law_rasters_are_remembered_as_made<P: PlatformTextSystem>(
    platform: &P,
    before: Seq<(RenderGlyphParams, Arc<RasterizedGlyph>)>,
    params: &RenderGlyphParams,
    after: Seq<(RenderGlyphParams, Arc<RasterizedGlyph>)>,
    result: Result<Arc<RasterizedGlyph>, String>,
)
    requires
        is_rasterized(platform, before, params, after, result),
    ensures
        before.len() <= after.len() <= before.len() + 1,
        forall|at: int| 0 <= at < before.len() ==> #[trigger] after[at] == before[at],
        after.len() > before.len() ==> result is Ok && after.last().0 == *params && after.last().1
            == result->Ok_0,
        result is Ok && after.len() == before.len() ==> exists|at: int|
            0 <= at < before.len() && #[trigger] before[at].0.font_id == params.font_id
                && before[at].0.glyph_id == params.glyph_id && before[at].0.font_size.0.bits
                == params.font_size.0.bits && before[at].0.subpixel_variant
                == params.subpixel_variant && before[at].0.scale_factor.bits
                == params.scale_factor.bits && before[at].0.is_emoji == params.is_emoji
                && before[at].0.subpixel_rendering == params.subpixel_rendering && before[at].1
                == result->Ok_0,
{
    if exists|position: int| #[trigger] raster_entry(before, *params, position) {
        let position = choose|position: int| #[trigger] raster_entry(before, *params, position);
        law_glyph_keys_hold_every_parameter(before[position].0, *params);
        assert(before[position].0.font_id == params.font_id);
        assert(before[position].0.subpixel_variant == params.subpixel_variant);
    }
}

/// Whether the platform gave an answer for a font of this description and weight.
pub open spec fn is_the_platforms_answer<P: PlatformTextSystem>(
    platform: &P,
    font: Font,
    answer: Result<FontId, String>,
) -> bool {
    exists|asked: &Font, given: Result<FontId, String>|
        {
            &&& #[trigger] call_ensures(P::font_id, (platform, asked), given)
            &&& same_descriptions(*asked, font)
            &&& asked.weight.0.bits == font.weight.0.bits
            &&& match (answer, given) {
                (Ok(answer), Ok(given)) => answer.0 == given.0,
                (Err(answer), Err(given)) => answer@ == given@,
                _ => false,
            }
        }
}

/// Whether every answer that is remembered is one that the platform gave for its font.
pub open spec fn answers_are_the_platforms<P: PlatformTextSystem>(
    platform: &P,
    entries: Seq<(Font, Result<FontId, String>)>,
) -> bool {
    forall|at: int|
        0 <= at < entries.len() ==> is_the_platforms_answer(
            platform,
            (#[trigger] entries[at]).0,
            entries[at].1,
        )
}

/// A font is always resolved to what the platform answered for its family, features, fallbacks,
/// weight and style. What is remembered stays so.
pub proof fn law_fonts_are_resolved_for_their_description<P: PlatformTextSystem>(
    platform: &P,
    before: Seq<(Font, Result<FontId, String>)>,
    font: &Font,
    after: Seq<(Font, Result<FontId, String>)>,
    answer: Result<FontId, String>,
)
    requires
        answers_are_the_platforms(platform, before),
        is_font_lookup(platform, before, font, after, answer),
    ensures
        answers_are_the_platforms(platform, after),
        is_the_platforms_answer(platform, *font, answer),
{
    if exists|position: int| #[trigger] font_entry(before, *font, position) {
        let position = choose|position: int| #[trigger] font_entry(before, *font, position);
        let held = before[position].0;
        law_fonts_are_told_apart_by_every_property(held, *font);
        let (asked, given) = choose|asked: &Font, given: Result<FontId, String>|
            {
                &&& #[trigger] call_ensures(P::font_id, (platform, asked), given)
                &&& same_descriptions(*asked, held)
                &&& asked.weight.0.bits == held.weight.0.bits
                &&& match (before[position].1, given) {
                    (Ok(answer), Ok(given)) => answer.0 == given.0,
                    (Err(answer), Err(given)) => answer@ == given@,
                    _ => false,
                }
            };
        assert(is_the_platforms_answer(platform, held, before[position].1));
        lemma_same_descriptions(*asked, held, *font);
        assert(call_ensures(P::font_id, (platform, asked), given));
        assert(is_the_platforms_answer(platform, *font, answer));
    } else {
        lemma_one_description(*font);
        assert(call_ensures(P::font_id, (platform, font), answer));
        assert(is_the_platforms_answer(platform, *font, answer));
        law_identities_of_fonts(after.last().0, *font);
        law_identities_of_fonts(*font, after.last().0);
        assert(is_the_platforms_answer(platform, after.last().0, after.last().1));
        assert forall|at: int| 0 <= at < after.len() implies is_the_platforms_answer(
            platform,
            (#[trigger] after[at]).0,
            after[at].1,
        ) by {
            if at < before.len() {
                assert(after.drop_last()[at] == after[at]);
            }
        }
    }
}

/// Descriptions that agree with a third agree.
proof fn lemma_same_descriptions(first: Font, second: Font, third: Font)
    requires
        same_descriptions(first, second),
        same_descriptions(second, third),
    ensures
        same_descriptions(first, third),
{
    law_identities_of_fonts(first, second);
    law_identities_of_fonts(second, third);
    law_identities_of_fonts(first, third);
}

/// A description agrees with itself.
proof fn lemma_one_description(font: Font)
    ensures
        same_descriptions(font, font),
{
}

/// Lookups are the same exactly if both found one font, or both failed with one message.
pub proof fn law_lookups_are_compared_in_full(
    left: Result<FontId, String>,
    right: Result<FontId, String>,
)
    ensures
        same_lookup(left, right) <==> {
            &&& left is Ok <==> right is Ok
            &&& left is Ok && right is Ok ==> left->Ok_0.0 == right->Ok_0.0
            &&& left is Err && right is Err ==> left->Err_0@ == right->Err_0@
        },
{
}

/// The measurements of a font are those that the platform tells for it, however often they are
/// read, and reading them changes nothing else.
pub proof fn law_measurements_are_the_platforms<P: PlatformTextSystem>(
    before: TextSystem<P>,
    font_id: FontId,
    after: TextSystem<P>,
)
    requires
        after.measured_from(before, font_id),
        forall|other: usize| #[trigger]
            before.measured().contains_key(other) ==> call_ensures(
                P::font_metrics,
                (&before.platform(), FontId(other)),
                before.measured()[other],
            ),
    ensures
        after.platform() == before.platform(),
        after.resolved() == before.resolved(),
        after.rasters() == before.rasters(),
        after.measured().contains_key(font_id.0),
        forall|other: usize| #[trigger]
            after.measured().contains_key(other) ==> call_ensures(
                P::font_metrics,
                (&before.platform(), FontId(other)),
                after.measured()[other],
            ),
        forall|other: usize| #[trigger]
            before.measured().contains_key(other) ==> after.measured().contains_key(other)
                && after.measured()[other] == before.measured()[other],
        forall|other: usize|
            other != font_id.0 && #[trigger] after.measured().contains_key(other)
                ==> before.measured().contains_key(other),
{
    assert(FontId(font_id.0) == font_id);
}

/// A length in font units is scaled by the font size over the number of units per em.
pub proof fn law_lengths_are_scaled_to_the_font_size<A: Arithmetic>(
    arithmetic: &A,
    by: Computation,
    value: Scalar,
    units_per_em: u32,
    font_size: Pixels,
    scaled: Pixels,
)
    requires
        computes(arithmetic, by),
        is_scaled(arithmetic, value, units_per_em, font_size, scaled),
    ensures
        scaled.0 == (by.product)(
            (by.quotient)(value, (by.from_integer)(units_per_em)),
            font_size.0,
        ),
{
}

/// All four numbers of a rectangle are scaled alike, each to its own.
pub proof fn law_rectangles_are_scaled_to_the_font_size<A: Arithmetic>(
    arithmetic: &A,
    by: Computation,
    bounds: Bounds<Scalar>,
    units_per_em: u32,
    font_size: Pixels,
    scaled: Bounds<Pixels>,
)
    requires
        computes(arithmetic, by),
        are_scaled_bounds(arithmetic, bounds, units_per_em, font_size, scaled),
    ensures
        ({
            let units = (by.from_integer)(units_per_em);
            &&& scaled.origin.x.0 == (by.product)(
                (by.quotient)(bounds.origin.x, units),
                font_size.0,
            )
            &&& scaled.origin.y.0 == (by.product)(
                (by.quotient)(bounds.origin.y, units),
                font_size.0,
            )
            &&& scaled.size.width.0 == (by.product)(
                (by.quotient)(bounds.size.width, units),
                font_size.0,
            )
            &&& scaled.size.height.0 == (by.product)(
                (by.quotient)(bounds.size.height, units),
                font_size.0,
            )
        }),
{
}

/// The baseline lies below the top of a line by the ascent and half of what the line is higher
/// than ascent and descent together.
pub proof fn law_baselines_center_the_font<A: Arithmetic>(
    arithmetic: &A,
    by: Computation,
    line_height: Pixels,
    ascent: Pixels,
    descent: Pixels,
    offset: Pixels,
)
    requires
        computes(arithmetic, by),
        is_baseline_offset(arithmetic, line_height, ascent, descent, offset),
    ensures
        offset.0 == (by.sum)(
            (by.difference)(
                (by.difference)(line_height.0, ascent.0),
                descent.0,
            ).halved(),
            ascent.0,
        ),
{
}

} // verus!
