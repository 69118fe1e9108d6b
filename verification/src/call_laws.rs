//! What holds of every call of the functions that read fonts, list and resolve them, and style
//! and rasterize with them.

use crate::bitmap_location::{cut_off, is_cut_off};
use crate::blob::{blob_bytes, setting_parts};
use crate::catalog::{
    all_supported, are_family_names, family_keys, family_names, first_covering, fonts_bytes,
    has_supported_face, is_first_covering, new_font_context, offered_by, offered_faces,
    register_bytes, registered_families, resolve_face, CatalogError, FaceRequest, FontContext,
    SystemFonts,
};
use crate::color_glyphs::{
    color_kinds, first_supported_color_kind, is_first_supported, ColorGlyphClassifier,
    ColorGlyphKind,
};
use crate::design::FontVariation;
use crate::face::{face_axes, face_extent, face_metrics, face_parses};
use crate::font::{Font, FontMetrics};
use crate::geometry::{Bounds, Pixels};
use crate::input::{ElementInputHandler, EntityInputHandler};
use crate::mac_geometry::BitmapPlan;
use crate::mac_rasterizer::{
    finish_bitmap, is_drawn_raster, is_looked_up, is_mac_style, MacGlyphRasterizer, NativeCanvas,
};
use crate::native_face::{NativeFace, NativeFaceError};
use crate::raster::{PreparedRasterStyle, RasterStyleRequest, RasterizedGlyph};
use crate::rasterizer::GlyphRasterizer;
use crate::scalar::{Arithmetic, Scalar};
use crate::sfnt::{checksum_of, compact_sfnt_for_face, compacted, sfnt_checksum, SfntError};
use crate::store::{
    all_axis_defaults, are_font_metrics, are_glyph_bounds, FaceError, LoadedFont, RasterFace,
};
use crate::style_transitions::{is_evaluated, is_jumped, Animated, StyleTransitionPropertyState};
use crate::swash_laws::spelled;
use crate::swash_rasterizer::{
    is_prepared, is_render_plan, keys_with_font, refusal, GlyphImageRenderer, RenderPlan,
    SwashError, SwashGlyphRasterizer,
};
use crate::text_order::texts_of;
use crate::text_run::TextRun;
use crate::text_system::{
    is_font_lookup, FontId, FontResolveError, GlyphId, PlatformTextSystem, RenderGlyphParams,
    TextSystem,
};
use crate::window_text_system::{LineLayoutCache, ShapedLine, WindowTextSystem, WrappedLine};
use fontique::QueryFont;
use std::ops::Range;
use vstd::prelude::*;

verus! {

/// A face that is extracted is what the collection's bytes come to, and the checksum of bytes is
/// that of their words.
pub proof fn law_extraction_is_of_the_bytes(
    data: &[u8],
    face_index: u32,
    font: Result<Vec<u8>, SfntError>,
    checksum: u32,
)
    requires
        call_ensures(compact_sfnt_for_face, (data, face_index), font),
        call_ensures(sfnt_checksum, (data,), checksum),
    ensures
        font is Ok <==> compacted(data@, face_index) is Ok,
        font is Ok ==> font->Ok_0@ == compacted(data@, face_index)->Ok_0 && checksum_of(
            font->Ok_0@,
        ) == 0xb1b0_afba,
        font is Err ==> font->Err_0 == compacted(data@, face_index)->Err_0,
        checksum == checksum_of(data@),
{
    if font is Ok {
        crate::font_file_laws::law_extracted_faces_have_the_fonts_checksum(data@, face_index);
    }
}

/// A variation has the tag that its four bytes spell.
pub proof fn law_variations_have_their_tag(
    tag: [u8; 4],
    value: Scalar,
    variation: FontVariation,
    location: &[u8],
    strike: usize,
    glyph: u32,
    cut: bool,
)
    requires
        call_ensures(FontVariation::new, (tag, value), variation),
        call_ensures(is_cut_off, (location, strike, glyph), cut),
    ensures
        variation.tag == spelled(tag@, 0),
        variation.value == value,
        cut <==> cut_off(location@, strike as int, glyph),
{
}

/// A face tells whether it is at its defaults from its own axes and variations, and the first
/// format of its own artwork that is supported.
pub proof fn law_faces_answer_from_their_own_bytes<F: Fn(ColorGlyphKind) -> bool>(
    face: &RasterFace<'_>,
    data: &[u8],
    defaults: Result<bool, FaceError>,
    glyph_id: GlyphId,
    supports: F,
    kind: Result<Option<ColorGlyphKind>, FaceError>,
)
    requires
        call_ensures(RasterFace::<'_>::data, (face,), data),
        call_ensures(RasterFace::<'_>::has_default_variations, (face,), defaults),
        call_ensures(
            RasterFace::<'_>::supported_color_glyph_kind::<F>,
            (face, glyph_id, supports),
            kind,
        ),
    ensures
        data@ == blob_bytes(*face.source),
        ({
            let parses = face_parses(blob_bytes(*face.source), face.face_index);
            &&& parses <==> defaults is Ok
            &&& parses <==> kind is Ok
            &&& defaults is Ok ==> defaults->Ok_0 == all_axis_defaults(
                face_axes(blob_bytes(*face.source), face.face_index),
                face.variations@,
            )
            &&& defaults is Err ==> defaults->Err_0 == FaceError::VariationAxes
            &&& kind is Ok ==> is_first_supported(
                color_kinds(blob_bytes(*face.source), face.face_index, glyph_id.0),
                supports,
                kind->Ok_0,
            )
            &&& kind is Err ==> kind->Err_0 == FaceError::ColorGlyphs
        }),
{
}

/// A stored font is measured at its own coordinates.
pub proof fn law_stored_fonts_are_measured_at_their_coordinates<A: Arithmetic>(
    font: &LoadedFont,
    arithmetic: &A,
    metrics: Result<FontMetrics, FaceError>,
    glyph_id: GlyphId,
    bounds: Result<Bounds<Scalar>, FaceError>,
)
    requires
        call_ensures(LoadedFont::metrics::<A>, (font, arithmetic), metrics),
        call_ensures(LoadedFont::glyph_bounds::<A>, (font, glyph_id, arithmetic), bounds),
    ensures
        ({
            let parses = face_parses(blob_bytes(font.data), font.index);
            &&& parses <==> metrics is Ok
            &&& parses <==> bounds is Ok
            &&& metrics is Ok ==> are_font_metrics(
                arithmetic,
                face_metrics(blob_bytes(font.data), font.index, font.normalized_coords@),
                metrics->Ok_0,
            )
            &&& bounds is Ok ==> are_glyph_bounds(
                arithmetic,
                face_extent(
                    blob_bytes(font.data),
                    font.index,
                    font.normalized_coords@,
                    glyph_id.0,
                ),
                bounds->Ok_0,
            )
            &&& !parses ==> metrics->Err_0 == FaceError::StoredFace && bounds->Err_0
                == FaceError::StoredFace
        }),
{
}

/// A glyph's formats are those of the classified face, and of formats the first that is supported
/// is selected.
pub proof fn law_classifiers_tell_the_faces_artwork<F: Fn(ColorGlyphKind) -> bool>(
    classifier: &ColorGlyphClassifier<'_>,
    glyph_id: GlyphId,
    kinds: Vec<ColorGlyphKind>,
    offered: &[ColorGlyphKind],
    supports: F,
    selected: Option<ColorGlyphKind>,
)
    requires
        call_ensures(ColorGlyphClassifier::<'_>::available_kinds, (classifier, glyph_id), kinds),
        call_ensures(first_supported_color_kind::<F>, (offered, supports), selected),
    ensures
        kinds@ == color_kinds(classifier.source().0, classifier.source().1, glyph_id.0),
        is_first_supported(offered@, supports, selected),
{
}

/// Fonts are registered together or not at all: all if each holds a supported face, and none
/// otherwise. The catalog keeps what it had.
pub proof fn law_fonts_are_registered_together(at: int)
    ensures
        forall|context: &mut FontContext, fonts: &[&[u8]], result: Result<(), CatalogError>|
            #[trigger] call_ensures(register_bytes, (context, fonts), result) ==> {
                let before = (*context).registered();
                let after = (*final(context)).registered();
                &&& (*final(context)).has_system_fonts() == (*context).has_system_fonts()
                &&& result is Ok ==> after == before + fonts_bytes(fonts@)
                &&& result is Ok && 0 <= at < fonts@.len() ==> has_supported_face(fonts@[at]@)
                &&& result is Err ==> *final(context) == *context
                &&& result is Err <==> !all_supported(fonts_bytes(fonts@))
            },
{
    assert forall|context: &mut FontContext, fonts: &[&[u8]], result: Result<(), CatalogError>|
        #[trigger] call_ensures(register_bytes, (context, fonts), result) && result is Ok && 0 <= at
            < fonts@.len() implies has_supported_face(fonts@[at]@) by {
        assert(has_supported_face(fonts_bytes(fonts@)[at]));
    }
}

/// Family names are listed in order and each once, those of the registered fonts among them, and
/// without the fonts of the system no others.
pub proof fn law_listed_families_are_those_of_the_catalog()
    ensures
        forall|context: &mut FontContext, names: Vec<String>|
            #[trigger] call_ensures(family_names, (context,), names) ==> {
                &&& are_family_names(*context, names@)
                &&& registered_families((*context).registered()).subset_of(
                    texts_of(names@).to_set(),
                )
                &&& !(*context).has_system_fonts() ==> texts_of(names@).to_set()
                    == registered_families((*context).registered())
                &&& (*final(context)).registered() == (*context).registered()
            },
{
}

/// The face that a request is resolved to is the first that is offered for just its families,
/// style and weight and covers its character. Resolving changes nothing.
pub proof fn law_requests_are_resolved_as_asked(
    fonts: Vec<QueryFont>,
    character: Option<char>,
    selected: Option<QueryFont>,
    system_fonts: SystemFonts,
    fresh: FontContext,
)
    requires
        call_ensures(first_covering, (fonts, character), selected),
        call_ensures(new_font_context, (system_fonts,), fresh),
    ensures
        is_first_covering(fonts@, character, selected),
        fresh.registered().len() == 0,
        fresh.has_system_fonts() <==> system_fonts == SystemFonts::Load,
        forall|context: &mut FontContext, request: &FaceRequest<'_>, found: Option<QueryFont>|
            #[trigger] call_ensures(resolve_face, (context, request), found) ==> {
                &&& (*final(context)).registered() == (*context).registered()
                &&& exists|offered: Seq<QueryFont>|
                    {
                        &&& #[trigger] is_first_covering(offered, request.character, found)
                        &&& !(*context).has_system_fonts() ==> offered_by(offered)
                            == offered_faces(
                            (*context).registered(),
                            family_keys(request.families@),
                            request.style,
                            setting_parts(request.weight).1,
                        )
                    }
            },
{
}

/// A font that cannot be resolved is reported with its family and the platform's message; one that
/// can is resolved to what the platform answered.
pub proof fn law_failed_lookups_name_the_family<P: PlatformTextSystem>()
    ensures
        forall|
            system: &mut TextSystem<P>,
            font: &Font,
            result: Result<FontId, FontResolveError>,
        |
            #[trigger] call_ensures(TextSystem::<P>::try_resolve_font, (system, font), result)
                ==> exists|answer: Result<FontId, String>|
                {
                    &&& #[trigger] is_font_lookup(
                        &(*system).platform(),
                        (*system).resolved(),
                        font,
                        (*final(system)).resolved(),
                        answer,
                    )
                    &&& result is Ok <==> answer is Ok
                    &&& result is Ok ==> result->Ok_0.0 == answer->Ok_0.0
                    &&& result is Err ==> result->Err_0.family@ == font.family@
                        && result->Err_0.message@ == answer->Err_0@
                },
{
}

/// The number of units per em is the font's own.
pub proof fn law_units_are_the_fonts_own<P: PlatformTextSystem>()
    ensures
        forall|system: &mut TextSystem<P>, font_id: FontId, units: u32|
            #[trigger] call_ensures(TextSystem::<P>::units_per_em, (system, font_id), units) ==> {
                &&& (*final(system)).measured_from(*system, font_id)
                &&& units == (*final(system)).measured()[font_id.0].units_per_em
            },
{
}

/// A line is laid out from the very text, size and runs that are asked for, and keeps the text.
pub proof fn law_lines_are_laid_out_as_asked<C: LineLayoutCache, S>(
    system: &WindowTextSystem<C, S>,
    text: String,
    font_size: Pixels,
    runs: &[TextRun],
    line: ShapedLine<C::Layout>,
    wrap_width: Option<Pixels>,
    line_clamp: Option<usize>,
    wrapped: Result<WrappedLine<C::WrappedLayout>, String>,
)
    requires
        call_ensures(WindowTextSystem::<C, S>::shape_line, (system, text, font_size, runs), line),
        call_ensures(
            WindowTextSystem::<C, S>::shape_text,
            (system, text, font_size, runs, wrap_width, line_clamp),
            wrapped,
        ),
    ensures
        line.text@ == text@,
        exists|shaped: &str| #[trigger]
            call_ensures(
                C::layout_line,
                (&system.cache(), shaped, font_size, runs),
                line.layout,
            ) && shaped@ == text@,
        wrapped is Ok,
        wrapped->Ok_0.text@ == text@,
        exists|shaped: &str| #[trigger]
            call_ensures(
                C::layout_wrapped_line,
                (&system.cache(), shaped, font_size, runs, wrap_width, line_clamp),
                wrapped->Ok_0.layout,
            ) && shaped@ == text@,
{
}

/// A view is asked where a range lies within the very bounds of its element, and those bounds are
/// what the handler tells.
pub proof fn law_views_are_asked_within_their_element<V: EntityInputHandler>()
    ensures
        forall|
            handler: &mut ElementInputHandler<V>,
            range: Range<usize>,
            window: &mut V::Window,
            cx: &mut V::Context,
            result: Option<Bounds<Pixels>>,
        |
            #[trigger] call_ensures(
                ElementInputHandler::<V>::bounds_for_range,
                (handler, range, window, cx),
                result,
            ) ==> exists|view: &mut V, w: &mut V::Window, c: &mut V::Context|
                {
                    &&& #[trigger] call_ensures(
                        V::bounds_for_range,
                        (view, range, (*handler).bounds_spec(), w, c),
                        result,
                    )
                    &&& *view == (*handler).view_spec()
                    &&& *final(view) == (*final(handler)).view_spec()
                },
        forall|
            handler: &mut ElementInputHandler<V>,
            window: &mut V::Window,
            cx: &mut V::Context,
            result: Option<Bounds<Pixels>>,
        |
            #[trigger] call_ensures(
                ElementInputHandler::<V>::element_bounds,
                (handler, window, cx),
                result,
            ) ==> result == Some((*handler).bounds_spec()) && *final(handler) == *handler,
{
}

/// A property becomes what its evaluation makes of it, and starts and jumps as its goal says.
pub proof fn law_properties_are_evaluated<A: Animated>(
    initial: Option<A::Value>,
    fresh: StyleTransitionPropertyState<A>,
)
    requires
        call_ensures(StyleTransitionPropertyState::<A>::new, (initial,), fresh),
    ensures
        is_jumped(None, initial, fresh.animation()),
        forall|
            state: &mut StyleTransitionPropertyState<A>,
            goal: Option<A::Value>,
            motion: &A::Motion,
            now: A::Instant,
            reduce_motion: bool,
            result: (bool, Option<A::Value>),
        |
            #[trigger] call_ensures(
                StyleTransitionPropertyState::<A>::evaluate,
                (state, goal, motion, now, reduce_motion),
                result,
            ) ==> is_evaluated(
                (*state).animation(),
                goal,
                motion,
                now,
                reduce_motion,
                (*final(state)).animation(),
                result,
            ),
{
}

/// Styles are prepared from the request by the rasterizer's own means, and what was drawn becomes
/// the raster of its bitmap.
pub proof fn law_styles_are_prepared_from_the_request<R: GlyphImageRenderer, C: NativeCanvas>(
    portable: &SwashGlyphRasterizer<R>,
    native: &MacGlyphRasterizer<C>,
    request: RasterStyleRequest,
    portable_style: PreparedRasterStyle,
    native_style: PreparedRasterStyle,
    canvas: &C,
    bitmap: &BitmapPlan,
    drawn: Vec<u8>,
    glyph: RasterizedGlyph,
)
    requires
        call_ensures(
            <SwashGlyphRasterizer<R> as GlyphRasterizer>::prepare_style,
            (portable, request),
            portable_style,
        ),
        call_ensures(
            <MacGlyphRasterizer<C> as GlyphRasterizer>::prepare_style,
            (native, request),
            native_style,
        ),
        call_ensures(finish_bitmap::<C>, (canvas, bitmap, drawn), glyph),
    ensures
        is_prepared(&portable.renderer(), request, portable_style),
        is_mac_style(&native.canvas(), request, native_style),
        is_drawn_raster(canvas, *bitmap, drawn@, glyph),
{
}

/// A glyph is planned for the exact face and parameters unless it is refused, with a key that its
/// font keeps.
pub proof fn law_glyphs_are_planned_as_asked<R: GlyphImageRenderer>()
    ensures
        forall|
            rasterizer: &mut SwashGlyphRasterizer<R>,
            face: &RasterFace<'_>,
            params: &RenderGlyphParams,
            style: PreparedRasterStyle,
            result: Result<RenderPlan<'_>, SwashError>,
        |
            #[trigger] call_ensures(
                SwashGlyphRasterizer::<R>::plan,
                (rasterizer, face, params, style),
                result,
            ) ==> {
                &&& result is Ok <==> refusal(*face, *params) is None
                &&& result is Err ==> Some(result->Err_0) == refusal(*face, *params)
                &&& result is Ok ==> keys_with_font(
                    (*rasterizer).keys(),
                    (*final(rasterizer)).keys(),
                    face.font_id.0,
                ) && is_render_plan(
                    &(*rasterizer).renderer(),
                    *face,
                    *params,
                    style,
                    (*final(rasterizer)).keys()[face.font_id.0],
                    result->Ok_0,
                )
            },
{
}

/// A native face is looked up among those that are held, and the one that is given is held.
pub proof fn law_native_faces_are_looked_up<C: NativeCanvas>()
    ensures
        forall|
            rasterizer: &mut MacGlyphRasterizer<C>,
            face: &RasterFace<'_>,
            result: Result<&NativeFace<C>, NativeFaceError>,
        |
            #[trigger] call_ensures(
                MacGlyphRasterizer::<C>::native_face,
                (rasterizer, face),
                result,
            ) ==> is_looked_up(
                &(*rasterizer).canvas(),
                (*rasterizer).held(),
                *face,
                (*final(rasterizer)).held(),
                match result {
                    Ok(native) => Ok(*native),
                    Err(error) => Err(error),
                },
            ),
{
}

} // verus!
