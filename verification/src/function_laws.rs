//! What holds of whatever functions return, told of the functions themselves.

use crate::blob::{blob_bytes, FontSynthesis};
use crate::catalog::SystemFonts;
use crate::color_glyphs::ColorGlyphKind;
use crate::design::FontVariation;
use crate::face::{face_advance, face_glyph, face_parses};
use crate::font::{plain_font, Font, FontMetrics, FontStyle, FontWeight};
use crate::geometry::{Bounds, DevicePixels, Pixels, Size};
use crate::glyph_compositor::{CompositorState, GlyphCompositor, GlyphDevice};
use crate::hashing::{HashItem, HashWrite};
use crate::input::{
    utf16_start, utf16_to_utf8_offset, utf8_start, utf8_to_utf16_offset, ElementInputHandler,
    EntityInputHandler,
};
use crate::key_laws::{law_identities_of_fonts, one_number, same_descriptions};
use crate::mac_rasterizer::{MacGlyphRasterizer, NativeCanvas};
use crate::motion_info::{Linear, MotionInfo};
use crate::parley_text_system::{BackingTextSystem, ParleyTextSystem};
use crate::raster::{
    GlyphRenderMode, PreparedRasterStyle, RasterColorEffect, RasterizedGlyph,
    RasterizedGlyphFormat, TextRenderingMode,
};
use crate::rasterizer::GlyphRasterizer;
use crate::scalar::{computes, Arithmetic, Computation, Scalar};
use crate::sfnt::padded;
use crate::store::{FaceError, FontStore, LoadedFont, RasterFace};
use crate::store_laws::first_identifier;
use crate::style_transitions::StyleTransitionContext;
use crate::swash_rasterizer::{GlyphImageRenderer, SwashGlyphRasterizer};
use crate::text_run::{Hsla, PaintStyle, TextRun};
use crate::text_system::{
    FontId, GlyphId, PlatformTextSystem, RenderGlyphParams, TextSystem,
};
use std::sync::Arc;
use std::time::Duration;
use vstd::prelude::*;
use vstd::std_specs::cmp::PartialEqSpec;
use vstd::std_specs::convert::FromSpec;

verus! {

/// The named weights are the hundreds from 100 to 900, by their encodings.
pub proof fn law_named_weights(
    thin: FontWeight,
    extra_light: FontWeight,
    light: FontWeight,
    normal: FontWeight,
    medium: FontWeight,
    semibold: FontWeight,
    bold: FontWeight,
    extra_bold: FontWeight,
    black: FontWeight,
)
    requires
        call_ensures(FontWeight::thin, (), thin),
        call_ensures(FontWeight::extra_light, (), extra_light),
        call_ensures(FontWeight::light, (), light),
        call_ensures(FontWeight::normal, (), normal),
        call_ensures(FontWeight::medium, (), medium),
        call_ensures(FontWeight::semibold, (), semibold),
        call_ensures(FontWeight::bold, (), bold),
        call_ensures(FontWeight::extra_bold, (), extra_bold),
        call_ensures(FontWeight::black, (), black),
    ensures
        thin.0.bits == 0x42c8_0000,
        extra_light.0.bits == 0x4348_0000,
        light.0.bits == 0x4396_0000,
        normal.0.bits == 0x43c8_0000,
        medium.0.bits == 0x43fa_0000,
        semibold.0.bits == 0x4416_0000,
        bold.0.bits == 0x442f_0000,
        extra_bold.0.bits == 0x4448_0000,
        black.0.bits == 0x4461_0000,
{
}

/// A bold font is the same but for its weight, which is 700, and an italic one but for its style.
pub proof fn law_bold_and_italic_fonts(font: Font, bold: Font, italic: Font)
    requires
        call_ensures(Font::bold, (font,), bold),
        call_ensures(Font::italic, (font,), italic),
    ensures
        same_descriptions(bold, font),
        bold.weight.0.bits == 0x442f_0000,
        italic.style == FontStyle::Italic,
        italic.weight == font.weight,
        italic.family@ == font.family@,
        same_descriptions(italic, Font { style: FontStyle::Italic, ..font }),
{
    law_identities_of_fonts(bold, font);
    law_identities_of_fonts(italic, Font { style: FontStyle::Italic, ..font });
}

/// No corner is rounder than half of the shorter side.
pub proof fn law_corners_are_bounded_by_the_shorter_side(
    bounds: Bounds<Pixels>,
    rem_size: Pixels,
    context: StyleTransitionContext,
)
    requires
        call_ensures(StyleTransitionContext::new, (bounds, rem_size), context),
        bounds.size.width.0.bits <= 0x7f80_0000,
        bounds.size.height.0.bits <= 0x7f80_0000,
    ensures
        context.rem_size == rem_size,
        bounds.size.width.0.bits <= bounds.size.height.0.bits ==> context.max_corner_radius.0
            == bounds.size.width.0.halved(),
        bounds.size.height.0.bits <= bounds.size.width.0.bits ==> context.max_corner_radius.0
            == bounds.size.height.0.halved(),
{
}

/// The portable rasterizer draws layers and bitmaps, and no paint graphs or SVG documents.
pub proof fn law_portable_artwork<R: GlyphImageRenderer>(
    rasterizer: &SwashGlyphRasterizer<R>,
    kind: ColorGlyphKind,
    supported: bool,
)
    requires
        call_ensures(
            <SwashGlyphRasterizer<R> as GlyphRasterizer>::supports_color_glyph,
            (rasterizer, kind),
            supported,
        ),
    ensures
        kind == ColorGlyphKind::ColrV0 ==> supported,
        kind == ColorGlyphKind::Bitmap ==> supported,
        kind == ColorGlyphKind::ColrV1 ==> !supported,
        kind == ColorGlyphKind::Svg ==> !supported,
{
}

/// Text that CoreGraphics draws is grayscale unless told otherwise.
pub proof fn law_native_text_is_grayscale<C: NativeCanvas>(
    rasterizer: &MacGlyphRasterizer<C>,
    mode: TextRenderingMode,
)
    requires
        call_ensures(
            <MacGlyphRasterizer<C> as GlyphRasterizer>::recommended_mode,
            (rasterizer,),
            mode,
        ),
    ensures
        mode == TextRenderingMode::Grayscale,
{
}

/// The fallback family is listed exactly if the system's fonts are used, and no other is.
pub proof fn law_the_fallback_family_is_listed<N: BackingTextSystem>(
    system: &ParleyTextSystem<N>,
    names: Vec<String>,
)
    requires
        call_ensures(ParleyTextSystem::<N>::all_font_names, (system,), names),
    ensures
        system.uses_system_fonts() ==> names@.len() == 1 && names@[0]@ == system.family(),
        !system.uses_system_fonts() ==> names@.len() == 0,
{
}

/// A run is painted in its own color, background, underline and strikethrough.
pub proof fn law_runs_are_painted_in_their_own_style(run: &TextRun)
    ensures
        PaintStyle::from_spec(run).color == run.color,
        PaintStyle::from_spec(run).background_color == run.background_color,
        PaintStyle::from_spec(run).underline == run.underline,
        PaintStyle::from_spec(run).strikethrough == run.strikethrough,
{
}

/// A duration is the motion of that duration that is not eased.
pub proof fn law_durations_are_linear_motions(duration: Duration)
    ensures
        MotionInfo::<Linear>::from_spec(duration).duration == duration,
        MotionInfo::<Linear>::from_spec(duration).easing == Linear,
{
}

/// What `==` says of numbers, weights, coordinates, stylings, fonts and glyph parameters is that
/// every one of their parts is the same, numbers as numbers.
pub proof fn law_equality_is_that_of_every_part(
    numbers: (Scalar, Scalar),
    weights: (FontWeight, FontWeight),
    variations: (FontVariation, FontVariation),
    stylings: (FontSynthesis, FontSynthesis),
    fonts: (Font, Font),
    params: (RenderGlyphParams, RenderGlyphParams),
)
    ensures
        numbers.0.eq_spec(&numbers.1) <==> one_number(numbers.0, numbers.1),
        weights.0.eq_spec(&weights.1) <==> one_number(weights.0.0, weights.1.0),
        variations.0.eq_spec(&variations.1) <==> variations.0.tag == variations.1.tag
            && one_number(variations.0.value, variations.1.value),
        stylings.0.eq_spec(&stylings.1) <==> stylings.0.embolden == stylings.1.embolden && match (
            stylings.0.skew_degrees,
            stylings.1.skew_degrees,
        ) {
            (None, None) => true,
            (Some(left), Some(right)) => one_number(left, right),
            _ => false,
        },
        fonts.0.eq_spec(&fonts.1) <==> same_descriptions(fonts.0, fonts.1) && one_number(
            fonts.0.weight.0,
            fonts.1.weight.0,
        ),
        params.0.eq_spec(&params.1) <==> {
            &&& params.0.font_id.0 == params.1.font_id.0
            &&& params.0.glyph_id.0 == params.1.glyph_id.0
            &&& one_number(params.0.font_size.0, params.1.font_size.0)
            &&& params.0.subpixel_variant.x == params.1.subpixel_variant.x
            &&& params.0.subpixel_variant.y == params.1.subpixel_variant.y
            &&& one_number(params.0.scale_factor, params.1.scale_factor)
            &&& params.0.is_emoji == params.1.is_emoji
            &&& params.0.subpixel_rendering == params.1.subpixel_rendering
        },
{
    crate::key_laws::law_fonts_are_told_apart_by_every_property(fonts.0, fonts.1);
    crate::key_laws::law_equality_of_glyph_parameters(params.0, params.1);
}

/// What is written into a hasher stands for itself.
pub proof fn law_writes_stand_for_themselves(write: HashWrite)
    ensures
        write matches HashWrite::Length(length) ==> write@ == HashItem::Length(length),
        write matches HashWrite::Text(text) ==> write@ == HashItem::Text(text@),
        write matches HashWrite::Word(word) ==> write@ == HashItem::Word(word),
        write matches HashWrite::Byte(byte) ==> write@ == HashItem::Byte(byte),
        write matches HashWrite::Flag(flag) ==> write@ == HashItem::Flag(flag),
        write matches HashWrite::Variant(variant) ==> write@ == HashItem::Variant(variant),
{
}

/// The face that a rasterizer is handed is the stored font's own, part by part.
pub proof fn law_raster_faces_are_the_fonts_own(
    font: &LoadedFont,
    font_id: FontId,
    face: RasterFace<'_>,
)
    requires
        call_ensures(LoadedFont::raster_face, (font, font_id), face),
    ensures
        face.font_id.0 == font_id.0,
        face.source_id == font.source_identity,
        *face.source == font.data,
        face.face_index == font.index,
        face.normalized_coords@ == font.normalized_coords@,
        face.variations@ == font.variations@,
        face.synthesis.embolden == font.synthesis.embolden,
        face.synthesis.skew_degrees == font.synthesis.skew_degrees,
        face.has_color_glyphs == font.has_color_glyphs,
{
}

/// A stored font maps a character to the glyph of its own face, and tells the advance of a glyph
/// of that face at its own coordinates: zero where the face tells none, and none down.
pub proof fn law_stored_fonts_measure_their_own_face(
    font: &LoadedFont,
    character: char,
    glyph: Result<Option<GlyphId>, FaceError>,
    glyph_id: GlyphId,
    advance: Result<Size<Scalar>, FaceError>,
)
    requires
        face_parses(blob_bytes(font.data), font.index),
        call_ensures(LoadedFont::glyph_for_char, (font, character), glyph),
        call_ensures(LoadedFont::advance, (font, glyph_id), advance),
    ensures
        ({
            let mapped = face_glyph(blob_bytes(font.data), font.index, character);
            let told = face_advance(
                blob_bytes(font.data),
                font.index,
                font.normalized_coords@,
                glyph_id.0,
            );
            &&& glyph is Ok
            &&& glyph->Ok_0 is Some <==> mapped is Some
            &&& mapped is Some ==> glyph->Ok_0 == Some(GlyphId(mapped->0))
            &&& advance is Ok
            &&& advance->Ok_0.height.bits == 0
            &&& told is None ==> advance->Ok_0.width.bits == 0
            &&& told is Some ==> advance->Ok_0.width.bits == told->0
        }),
{
}

/// An empty raster has no pixels and no extent, and a style that does not depend on the color has
/// the mode that it is made for.
pub proof fn law_empty_rasters_and_independent_styles(
    format: RasterizedGlyphFormat,
    glyph: RasterizedGlyph,
    mode: GlyphRenderMode,
    style: PreparedRasterStyle,
)
    requires
        call_ensures(RasterizedGlyph::empty, (format,), glyph),
        call_ensures(PreparedRasterStyle::independent, (mode,), style),
    ensures
        glyph.format == format,
        glyph.pixels@.len() == 0,
        glyph.size.width.0 == 0,
        glyph.size.height.0 == 0,
        style.mode == mode,
        style.color_effect == RasterColorEffect::Independent,
{
}

/// A length in font units, scaled to a font size.
pub open spec fn scaled_by(
    by: Computation,
    value: Scalar,
    units_per_em: u32,
    font_size: Pixels,
) -> Scalar {
    (by.product)((by.quotient)(value, (by.from_integer)(units_per_em)), font_size.0)
}

/// Each measurement of a font is scaled from its own length.
pub proof fn law_measurements_are_scaled_each_from_its_own<A: Arithmetic>(
    metrics: &FontMetrics,
    font_size: Pixels,
    arithmetic: &A,
    by: Computation,
    ascent: Pixels,
    descent: Pixels,
    line_gap: Pixels,
    underline_position: Pixels,
    underline_thickness: Pixels,
    cap_height: Pixels,
    x_height: Pixels,
    bounding_box: Bounds<Pixels>,
)
    requires
        computes(arithmetic, by),
        call_ensures(FontMetrics::ascent::<A>, (metrics, font_size, arithmetic), ascent),
        call_ensures(FontMetrics::descent::<A>, (metrics, font_size, arithmetic), descent),
        call_ensures(FontMetrics::line_gap::<A>, (metrics, font_size, arithmetic), line_gap),
        call_ensures(
            FontMetrics::underline_position::<A>,
            (metrics, font_size, arithmetic),
            underline_position,
        ),
        call_ensures(
            FontMetrics::underline_thickness::<A>,
            (metrics, font_size, arithmetic),
            underline_thickness,
        ),
        call_ensures(FontMetrics::cap_height::<A>, (metrics, font_size, arithmetic), cap_height),
        call_ensures(FontMetrics::x_height::<A>, (metrics, font_size, arithmetic), x_height),
        call_ensures(
            FontMetrics::bounding_box::<A>,
            (metrics, font_size, arithmetic),
            bounding_box,
        ),
    ensures
        ({
            let units = metrics.units_per_em;
            let bounds = metrics.bounding_box;
            &&& ascent.0 == scaled_by(by, metrics.ascent, units, font_size)
            &&& descent.0 == scaled_by(by, metrics.descent, units, font_size)
            &&& line_gap.0 == scaled_by(by, metrics.line_gap, units, font_size)
            &&& underline_position.0 == scaled_by(
                by,
                metrics.underline_position,
                units,
                font_size,
            )
            &&& underline_thickness.0 == scaled_by(
                by,
                metrics.underline_thickness,
                units,
                font_size,
            )
            &&& cap_height.0 == scaled_by(by, metrics.cap_height, units, font_size)
            &&& x_height.0 == scaled_by(by, metrics.x_height, units, font_size)
            &&& bounding_box.origin.x.0 == scaled_by(by, bounds.origin.x, units, font_size)
            &&& bounding_box.origin.y.0 == scaled_by(by, bounds.origin.y, units, font_size)
            &&& bounding_box.size.width.0 == scaled_by(by, bounds.size.width, units, font_size)
            &&& bounding_box.size.height.0 == scaled_by(by, bounds.size.height, units, font_size)
        }),
{
}

/// A font that is got from a store is the one in the place that its identifier tells.
pub proof fn law_fonts_are_got_from_their_place(
    store: &FontStore,
    font_id: FontId,
    font: Option<&LoadedFont>,
)
    requires
        call_ensures(FontStore::get, (store, font_id), font),
    ensures
        font is Some <==> first_identifier() <= font_id.0 < first_identifier()
            + store.fonts().len(),
        font matches Some(font) ==> *font == store.fonts()[font_id.0 - first_identifier()],
{
}

/// Everything but the list of families is asked of the system behind, for just what is asked for.
pub proof fn law_the_system_behind_answers<N: BackingTextSystem>(
    system: &ParleyTextSystem<N>,
    font: &Font,
    font_id: FontId,
    glyph_id: GlyphId,
    character: char,
    params: &RenderGlyphParams,
    resolved: Result<FontId, String>,
    metrics: FontMetrics,
    bounds: Result<Bounds<Scalar>, String>,
    advance: Result<Size<Scalar>, String>,
    glyph: Option<GlyphId>,
    raster_bounds: Result<Bounds<DevicePixels>, String>,
)
    requires
        call_ensures(ParleyTextSystem::<N>::font_id, (system, font), resolved),
        call_ensures(ParleyTextSystem::<N>::font_metrics, (system, font_id), metrics),
        call_ensures(
            ParleyTextSystem::<N>::typographic_bounds,
            (system, font_id, glyph_id),
            bounds,
        ),
        call_ensures(ParleyTextSystem::<N>::advance, (system, font_id, glyph_id), advance),
        call_ensures(ParleyTextSystem::<N>::glyph_for_char, (system, font_id, character), glyph),
        call_ensures(ParleyTextSystem::<N>::glyph_raster_bounds, (system, params), raster_bounds),
    ensures
        call_ensures(N::font_id, (&system.backing(), font), resolved),
        call_ensures(N::font_metrics, (&system.backing(), font_id), metrics),
        call_ensures(N::typographic_bounds, (&system.backing(), font_id, glyph_id), bounds),
        call_ensures(N::advance, (&system.backing(), font_id, glyph_id), advance),
        call_ensures(N::glyph_for_char, (&system.backing(), font_id, character), glyph),
        call_ensures(N::glyph_raster_bounds, (&system.backing(), params), raster_bounds),
{
}

/// Offsets at which characters start convert to where the same characters start in the other
/// encoding.
pub proof fn law_boundaries_convert_to_boundaries(
    text: &str,
    index: nat,
    utf8: usize,
    utf16: usize,
    to_utf16: usize,
    to_utf8: usize,
)
    requires
        index <= text@.len(),
        utf8 == utf8_start(text@, index),
        utf16 == utf16_start(text@, index),
        call_ensures(utf8_to_utf16_offset, (text, utf8), to_utf16),
        call_ensures(utf16_to_utf8_offset, (text, utf16), to_utf8),
    ensures
        to_utf16 == utf16,
        to_utf8 == utf8,
{
    crate::input::law_offsets_round_trip(text@, index);
}

/// Fonts that were added make the system forget what fonts were resolved to, and nothing else. A
/// failure changes nothing.
pub proof fn law_added_fonts_are_looked_up_anew<P: PlatformTextSystem>()
    ensures
        forall|system: &mut TextSystem<P>, fonts: Vec<Vec<u8>>, result: Result<(), String>|
            #[trigger]
            call_ensures(TextSystem::<P>::add_fonts, (system, fonts), result) ==> {
                &&& call_ensures(P::add_fonts, (&(*system).platform(), fonts), result)
                &&& (*final(system)).platform() == (*system).platform()
                &&& (*final(system)).measured() == (*system).measured()
                &&& (*final(system)).rasters() == (*system).rasters()
                &&& result is Ok ==> (*final(system)).resolved().len() == 0
                &&& result is Err ==> (*final(system)).resolved() == (*system).resolved()
            },
{
}

/// What is not told is the plain choice: normal weight and style in the system's font, opaque
/// black, no synthetic styling, and the fonts of the system.
pub proof fn law_defaults_are_plain(
    weight: FontWeight,
    style: FontStyle,
    font: Font,
    color: Hsla,
    run: TextRun,
    styling: FontSynthesis,
    fonts: SystemFonts,
)
    requires
        call_ensures(<FontWeight as Default>::default, (), weight),
        call_ensures(<FontStyle as Default>::default, (), style),
        call_ensures(<Font as Default>::default, (), font),
        call_ensures(<Hsla as Default>::default, (), color),
        call_ensures(<TextRun as Default>::default, (), run),
        call_ensures(<FontSynthesis as Default>::default, (), styling),
        call_ensures(<SystemFonts as Default>::default, (), fonts),
    ensures
        weight.0.bits == 0x43c8_0000,
        style == FontStyle::Normal,
        is_plain(font, ".SystemUIFont"@),
        color.hue.bits == 0,
        color.saturation.bits == 0,
        color.lightness.bits == 0,
        color.alpha.bits == 0x3f80_0000,
        run.len == 0,
        is_plain(run.font, ".SystemUIFont"@),
        run.color == color,
        run.background_color is None,
        run.underline is None,
        run.strikethrough is None,
        run.letter_spacing is None,
        !styling.embolden,
        styling.skew_degrees is None,
        fonts == SystemFonts::Load,
{
    assert(run.color.hue == color.hue);
    assert(run.color.saturation == color.saturation);
    assert(run.color.lightness == color.lightness);
    assert(run.color.alpha == color.alpha);
    lemma_plain(font, ".SystemUIFont"@);
    lemma_plain(run.font, ".SystemUIFont"@);
}

/// Whether nothing but its family sets a font apart.
pub open spec fn is_plain(font: Font, family: Seq<char>) -> bool {
    &&& font.family@ == family
    &&& font.features.entries@.len() == 0
    &&& font.fallbacks is None
    &&& font.style == FontStyle::Normal
    &&& font.weight.0.bits == 0x43c8_0000
}

/// A font with the identity of a plain one is plain.
proof fn lemma_plain(font: Font, family: Seq<char>)
    requires
        font.identity() == plain_font(family),
        font.weight.0.bits == 0x43c8_0000,
    ensures
        is_plain(font, family),
{
    assert(font.identity().features.len() == font.features.entries@.len());
}

/// A font that is made for a family is plain.
pub proof fn law_fonts_are_made_plain(family: &str, made: Font)
    requires
        call_ensures(crate::font::font, (family,), made),
    ensures
        is_plain(made, family@),
{
    lemma_plain(made, family@);
}

/// Copies of fonts and runs are the same, part by part.
pub proof fn law_copies_are_the_same(font: Font, font_copy: Font, run: TextRun, run_copy: TextRun)
    requires
        call_ensures(<Font as Clone>::clone, (&font,), font_copy),
        call_ensures(<TextRun as Clone>::clone, (&run,), run_copy),
    ensures
        same_descriptions(font_copy, font),
        font_copy.weight == font.weight,
        run_copy.len == run.len,
        same_descriptions(run_copy.font, run.font),
        run_copy.font.weight == run.font.weight,
        run_copy.color == run.color,
        run_copy.background_color == run.background_color,
        run_copy.underline == run.underline,
        run_copy.strikethrough == run.strikethrough,
        run_copy.letter_spacing == run.letter_spacing,
{
    law_identities_of_fonts(font_copy, font);
    law_identities_of_fonts(run_copy.font, run.font);
}

/// Text that the portable rasterizer draws is sampled per color channel unless told otherwise, and
/// CoreGraphics draws artwork in every format.
pub proof fn law_rasterizers_without_a_choice<R: GlyphImageRenderer, C: NativeCanvas>(
    portable: &SwashGlyphRasterizer<R>,
    mode: TextRenderingMode,
    native: &MacGlyphRasterizer<C>,
    kind: ColorGlyphKind,
    supported: bool,
)
    requires
        call_ensures(
            <SwashGlyphRasterizer<R> as GlyphRasterizer>::recommended_mode,
            (portable,),
            mode,
        ),
        call_ensures(
            <MacGlyphRasterizer<C> as GlyphRasterizer>::supports_color_glyph,
            (native, kind),
            supported,
        ),
    ensures
        mode == TextRenderingMode::Subpixel,
        supported,
{
}

/// A motion keeps its duration when its easing is replaced.
pub proof fn law_easing_keeps_the_duration<E, F>(
    motion: MotionInfo<E>,
    easing: F,
    eased: MotionInfo<F>,
)
    requires
        call_ensures(MotionInfo::<E>::with_easing::<F>, (motion, easing), eased),
    ensures
        eased.duration == motion.duration,
        eased.easing == easing,
{
}

/// A compositor starts with its device and no target.
pub proof fn law_compositors_start_without_a_target<D: GlyphDevice>(
    device: D,
    state: CompositorState<D>,
    compositor: GlyphCompositor<D>,
)
    requires
        call_ensures(CompositorState::<D>::new, (device,), state),
        call_ensures(GlyphCompositor::<D>::new, (device,), compositor),
    ensures
        state.device == device,
        state.target is None,
        compositor.state() is Some,
        compositor.state()->0.device == device,
        compositor.state()->0.target is None,
{
}

/// A text system starts with nothing remembered, in front of its platform.
pub proof fn law_text_systems_start_empty<P: PlatformTextSystem>(
    platform: Arc<P>,
    system: TextSystem<P>,
)
    requires
        call_ensures(TextSystem::<P>::new, (platform,), system),
    ensures
        system.platform() == *platform,
        system.resolved().len() == 0,
        system.rasters().len() == 0,
        forall|font: usize| !#[trigger] system.measured().contains_key(font),
{
}

/// Padding keeps the bytes, and adds fewer than four, all zero, up to a multiple of four.
pub proof fn law_padding_completes_words(data: Seq<u8>)
    ensures
        padded(data).len() % 4 == 0,
        data.len() <= padded(data).len() < data.len() + 4,
        forall|at: int| 0 <= at < data.len() ==> #[trigger] padded(data)[at] == data[at],
        forall|at: int|
            data.len() <= at < padded(data).len() ==> #[trigger] padded(data)[at] == 0,
{
}

/// Printable keys go to the input method first exactly where the view accepts text input.
pub proof fn law_input_methods_come_first_where_text_is_accepted<V: EntityInputHandler>()
    ensures
        forall|
            handler: &mut ElementInputHandler<V>,
            window: &mut V::Window,
            cx: &mut V::Context,
            result: bool,
        |
            #[trigger] call_ensures(
                ElementInputHandler::<V>::prefers_ime_for_printable_keys,
                (handler, window, cx),
                result,
            ) ==> exists|view: &V, w: &mut V::Window, c: &mut V::Context|
                {
                    &&& #[trigger] call_ensures(V::accepts_text_input, (view, w, c), result)
                    &&& *view == (*handler).view_spec()
                },
        forall|
            handler: &mut ElementInputHandler<V>,
            window: &mut V::Window,
            cx: &mut V::Context,
            result: bool,
        |
            #[trigger] call_ensures(
                ElementInputHandler::<V>::accepts_text_input,
                (handler, window, cx),
                result,
            ) ==> exists|view: &V, w: &mut V::Window, c: &mut V::Context|
                {
                    &&& #[trigger] call_ensures(V::accepts_text_input, (view, w, c), result)
                    &&& *view == (*handler).view_spec()
                },
{
}

} // verus!
