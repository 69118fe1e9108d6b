//! What holds of every glyph that is drawn through CoreText and CoreGraphics.

use crate::blob::blob_bytes;
use crate::double::{computes_doubles, Double, DoubleArithmetic, DoubleComputation};
use crate::mac_geometry::{
    are_edges, covers_edges, is_far_edge, is_frame, is_near_edge, is_padding,
    is_placement, is_planned, is_right_edge, is_top_edge, mode_format, BitmapPlan, BitmapTooLarge,
    GlyphEdges, GlyphFrame, GlyphPlacement, GlyphRect, NativeGlyph,
};
use crate::mac_rasterizer::{
    glyph_refusal, is_dilation, is_drawn, is_drawn_raster, is_looked_up, is_luminance,
    is_mac_style, is_rasterized, is_shared_source, level_of, native_glyph_of, settings_for,
    ContextPaint, GlyphDrawing, MacRasterError, NativeCanvas, NativeFaces,
};
use crate::native_face::{is_native_face, NativeFace, NativeFaceError};
use crate::raster::{
    pixel_at, GlyphRenderMode, Pixel, PreparedRasterStyle, RasterColorEffect, RasterStyleRequest,
    RasterizedGlyph, RasterizedGlyphFormat, Rgba8,
};
use crate::scalar::{computes, Arithmetic, Computation, Scalar};
use crate::store::RasterFace;
use crate::text_run::Rgba;
use crate::text_system::RenderGlyphParams;
use vstd::prelude::*;

verus! {

/// Outlines are stroked as well as filled exactly if the face is to be heavier, whatever the mode
/// and however the color shows.
pub proof fn law_heavier_faces_are_stroked_in_every_style(
    style: PreparedRasterStyle,
    embolden: bool,
)
    ensures
        settings_for(style, embolden).stroke == embolden,
{
}

/// Text that is dilated is painted in a gray of as many quarters, and smoothed unless it is not
/// dilated at all. A color that the raster holds is what it is painted in. Otherwise it is black.
/// Only dilation says anything of smoothing.
pub proof fn law_paint_follows_the_color_effect(style: PreparedRasterStyle, embolden: bool)
    ensures
        ({
            let settings = settings_for(style, embolden);
            &&& style.color_effect matches RasterColorEffect::Dilation(level) ==> {
                &&& settings.paint == ContextPaint::Gray { quarters: level }
                &&& settings.smooth_fonts == Some(level > 0)
            }
            &&& style.color_effect matches RasterColorEffect::Preblend(color) ==> settings.paint
                == ContextPaint::Color(color)
            &&& style.color_effect == RasterColorEffect::Independent ==> settings.paint
                == ContextPaint::Gray { quarters: 0 }
            &&& settings.smooth_fonts is Some <==> style.color_effect is Dilation
        }),
{
}

/// How a glyph that shows was drawn: from the native face's own descriptor, with the glyph that
/// was asked for, stroked exactly if the face is to be heavier, into the bitmap that the raster is
/// made of.
pub open spec fn drawn_for<C: NativeCanvas>(
    canvas: &C,
    native: NativeFace<C>,
    face: RasterFace<'_>,
    params: RenderGlyphParams,
    style: PreparedRasterStyle,
    raster: RasterizedGlyph,
    drawing: &GlyphDrawing,
    bitmap: &BitmapPlan,
    drawn: Vec<u8>,
) -> bool {
    &&& call_ensures(C::draw, (canvas, &native.descriptor, drawing, bitmap), drawn)
    &&& drawing.glyph == params.glyph_id.0
    &&& drawing.settings.stroke == face.synthesis.embolden
    &&& style.color_effect matches RasterColorEffect::Preblend(color) ==> drawing.settings.paint
        == ContextPaint::Color(color)
    &&& style.color_effect matches RasterColorEffect::Dilation(level) ==> drawing.settings.paint
        == ContextPaint::Gray { quarters: level }
    &&& raster.bounds.origin.x.0 == bitmap.left
    &&& raster.bounds.origin.y.0 == bitmap.top
    &&& raster.size.width.0 == bitmap.width
    &&& raster.size.height.0 == bitmap.height
    &&& raster.bounds.size == raster.size
}

/// A raster with pixels was drawn for the glyph, the face and the style that were asked for.
pub proof fn law_rasters_are_drawn_as_asked<C: NativeCanvas>(
    canvas: &C,
    native: NativeFace<C>,
    face: RasterFace<'_>,
    params: RenderGlyphParams,
    style: PreparedRasterStyle,
    raster: RasterizedGlyph,
)
    requires
        is_rasterized(
            canvas,
            native,
            face,
            params,
            style,
            Ok::<RasterizedGlyph, MacRasterError>(raster),
        ),
        raster.size.width.0 != 0,
    ensures
        exists|drawing: &GlyphDrawing, bitmap: &BitmapPlan, drawn: Vec<u8>| #[trigger]
            drawn_for(
                canvas,
                native,
                face,
                params,
                style,
                raster,
                drawing,
                bitmap,
                drawn,
            ),
{
    let (frame, rect, planned) = choose|
        frame: GlyphFrame,
        rect: GlyphRect,
        planned: Result<Option<BitmapPlan>, BitmapTooLarge>,
    |
        {
            &&& #[trigger] call_ensures(
                C::glyph_rect,
                (
                    canvas,
                    &native.descriptor,
                    params.glyph_id.0 as u16,
                    frame.font_size,
                    frame.skew,
                ),
                rect,
            )
            &&& #[trigger] is_planned(
                canvas,
                rect,
                frame,
                params.subpixel_variant.x,
                style.mode,
                planned,
            )
            &&& match planned {
                Err(_) => false,
                Ok(None) => raster.is_blank(mode_format(style.mode)),
                Ok(Some(bitmap)) => is_drawn(
                    canvas,
                    native.descriptor,
                    native_glyph_of(face, params),
                    frame,
                    settings_for(style, face.synthesis.embolden),
                    bitmap,
                    raster,
                ),
            }
        };
    let bitmap = planned->Ok_0->0;
    let (drawing, drawn) = choose|drawing: &GlyphDrawing, drawn: Vec<u8>|
        {
            &&& #[trigger] call_ensures(
                C::draw,
                (canvas, &native.descriptor, drawing, &bitmap),
                drawn,
            )
            &&& drawing.glyph == native_glyph_of(face, params).glyph
            &&& drawing.settings == settings_for(style, face.synthesis.embolden)
            &&& is_drawn_raster(canvas, bitmap, drawn@, raster)
        };
    assert(drawn_for(canvas, native, face, params, style, raster, drawing, &bitmap, drawn));
}

/// A mask that was drawn becomes a raster with every byte as it was drawn, clear where none was.
pub proof fn law_drawn_masks_keep_every_byte<C: NativeCanvas>(
    canvas: &C,
    bitmap: BitmapPlan,
    drawn: Seq<u8>,
    raster: RasterizedGlyph,
)
    requires
        bitmap.format == RasterizedGlyphFormat::AlphaMask,
        is_drawn_raster(canvas, bitmap, drawn, raster),
    ensures
        raster.format == RasterizedGlyphFormat::AlphaMask,
        raster.pixels@.len() == bitmap.byte_count,
        forall|at: int|
            0 <= at < bitmap.byte_count && at < drawn.len() ==> #[trigger] raster.pixels@[at]
                == drawn[at],
        forall|at: int|
            drawn.len() <= at < bitmap.byte_count ==> #[trigger] raster.pixels@[at] == 0,
{
}

/// A color bitmap that was drawn becomes a raster whose pixels are what the platform straightens
/// the bitmap's to.
pub proof fn law_drawn_colors_are_straightened<C: NativeCanvas>(
    canvas: &C,
    bitmap: BitmapPlan,
    drawn: Seq<u8>,
    raster: RasterizedGlyph,
    pixel: int,
)
    requires
        bitmap.format == RasterizedGlyphFormat::BgraColor,
        drawn.len() == bitmap.byte_count,
        0 <= 4 * pixel,
        4 * pixel + 3 < bitmap.byte_count,
        is_drawn_raster(canvas, bitmap, drawn, raster),
    ensures
        raster.format == RasterizedGlyphFormat::BgraColor,
        raster.pixels@.len() == bitmap.byte_count,
        call_ensures(
            C::straighten,
            (
                canvas,
                (Pixel {
                    first: drawn[4 * pixel],
                    second: drawn[4 * pixel + 1],
                    third: drawn[4 * pixel + 2],
                    alpha: drawn[4 * pixel + 3],
                }),
            ),
            (Pixel {
                first: raster.pixels@[4 * pixel],
                second: raster.pixels@[4 * pixel + 1],
                third: raster.pixels@[4 * pixel + 2],
                alpha: raster.pixels@[4 * pixel + 3],
            }),
        ),
{
    let bytes = crate::mac_rasterizer::bitmap_bytes(drawn, bitmap.byte_count);
    assert(bytes =~= drawn);
    let before = pixel_at(drawn, pixel);
    let after = pixel_at(raster.pixels@, pixel);
    assert(call_ensures(C::straighten, (canvas, before), after));
}

/// A glyph is refused exactly if its size is not a number from zero on, its scale not a positive
/// number, or its identifier longer than sixteen bits; the first that holds is the error.
pub proof fn law_glyphs_are_refused_for_cause<C: NativeCanvas>(
    canvas: &C,
    native: NativeFace<C>,
    face: RasterFace<'_>,
    params: RenderGlyphParams,
    style: PreparedRasterStyle,
    result: Result<RasterizedGlyph, MacRasterError>,
)
    requires
        is_rasterized(canvas, native, face, params, style, result),
    ensures
        ({
            let sized = params.font_size.0.bits < 0x7f80_0000 || params.font_size.0.bits
                == 0x8000_0000;
            let scaled = 0 < params.scale_factor.bits < 0x7f80_0000;
            let numbered = params.glyph_id.0 < 0x1_0000;
            &&& result == Err::<RasterizedGlyph, MacRasterError>(MacRasterError::InvalidFontSize)
                <==> !sized
            &&& result == Err::<RasterizedGlyph, MacRasterError>(MacRasterError::InvalidScaleFactor)
                <==> sized && !scaled
            &&& result == Err::<RasterizedGlyph, MacRasterError>(MacRasterError::GlyphIdOutOfRange)
                <==> sized && scaled && !numbered
            &&& result is Err && sized && scaled && numbered ==> result->Err_0
                == MacRasterError::BitmapTooLarge
        }),
{
}

/// The dilation of a color is the whole number of quarters nearest to its luminance.
pub proof fn law_levels_are_whole_parts(value: Scalar)
    ensures
        level_of(value) == if value.bits > 0x7f80_0000 || value.bits < 0x3f80_0000 {
            0
        } else if value.bits < 0x4000_0000 {
            1
        } else if value.bits < 0x4040_0000 {
            2
        } else if value.bits < 0x4080_0000 {
            3
        } else {
            4u8
        },
{
}

/// Luminance takes 0.2126 of red, 0.7152 of green and 0.0722 of blue; dilation is the whole part
/// of four times that and a half.
pub proof fn law_dilation_follows_luminance<A: Arithmetic>(
    arithmetic: &A,
    by: Computation,
    color: Rgba,
    level: u8,
)
    requires
        computes(arithmetic, by),
        is_dilation(arithmetic, color, level),
    ensures
        ({
            let red = (by.product)(Scalar { bits: 0x3e59_b3d0 }, color.red);
            let green = (by.product)(Scalar { bits: 0x3f37_1759 }, color.green);
            let blue = (by.product)(Scalar { bits: 0x3d93_dd98 }, color.blue);
            let luminance = (by.sum)((by.sum)(red, green), blue);
            let raised = (by.sum)(
                (by.product)(Scalar { bits: 0x4080_0000 }, luminance),
                Scalar { bits: 0x3f00_0000 },
            );
            level == level_of(raised)
        }),
        level <= 4,
{
    let luminance = choose|luminance: Scalar| #[trigger]
        is_luminance(arithmetic, color, luminance) && exists|quarters: Scalar, raised: Scalar|
            {
                &&& #[trigger] call_ensures(
                    A::product,
                    (arithmetic, (Scalar { bits: 0x4080_0000 }), luminance),
                    quarters,
                )
                &&& #[trigger] call_ensures(
                    A::sum,
                    (arithmetic, quarters, (Scalar { bits: 0x3f00_0000 })),
                    raised,
                )
                &&& level == level_of(raised)
            };
    assert(is_luminance(arithmetic, color, luminance));
}

/// A style is colored exactly if that was asked for, with the scene's color as the platform rounds
/// it. Other text is grayscale and dilated, but not where the user turned font smoothing off, which
/// is done by the number zero and by nothing else.
pub proof fn law_mac_styles_follow_the_request<C: NativeCanvas>(
    canvas: &C,
    request: RasterStyleRequest,
    style: PreparedRasterStyle,
)
    requires
        is_mac_style(canvas, request, style),
    ensures
        style.mode == GlyphRenderMode::Color <==> request.requested_mode == GlyphRenderMode::Color,
        style.mode != GlyphRenderMode::Subpixel,
        request.requested_mode == GlyphRenderMode::Color ==> exists|color: Rgba8| #[trigger]
            call_ensures(C::rounded, (canvas, request.scene_color), color) && style.color_effect
                == RasterColorEffect::Preblend(color),
        request.requested_mode != GlyphRenderMode::Color ==> exists|
            preference: Option<Option<i64>>,
        |
            {
                &&& #[trigger] call_ensures(C::smoothing_preference, (canvas,), preference)
                &&& style.color_effect matches RasterColorEffect::Dilation(level)
                &&& preference == Some(Some(0i64)) ==> level == 0
                &&& preference != Some(Some(0i64)) ==> is_dilation(
                    canvas,
                    request.scene_color,
                    level,
                )
            },
{
}

/// The numbers of a glyph: its size and its scale, the tangent of its skew, and, for one that is
/// made heavier, a forty-eighth of its size.
pub proof fn law_frames_hold_the_glyphs_numbers<N: DoubleArithmetic>(
    numbers: &N,
    by: DoubleComputation,
    glyph: NativeGlyph,
    frame: GlyphFrame,
)
    requires
        computes_doubles(numbers, by),
        is_frame(numbers, glyph, frame),
    ensures
        frame.font_size == (by.widened)(glyph.font_size.0),
        frame.scale == (by.widened)(glyph.scale_factor),
        glyph.skew_degrees is None ==> frame.skew == (by.tangent)(Double { bits: 0 }),
        glyph.skew_degrees matches Some(degrees) ==> frame.skew == (by.tangent)(
            (by.quotient)(
                (by.product)((by.widened)(degrees), Double { bits: 0x4009_21fb_5444_2d18 }),
                Double { bits: 0x4066_8000_0000_0000 },
            ),
        ),
        glyph.embolden ==> frame.embolden == (by.quotient)(
            frame.font_size,
            Double { bits: 0x4048_0000_0000_0000 },
        ),
        !glyph.embolden ==> frame.embolden == (Double { bits: 0 }),
{
}

/// The space around a glyph, as functions compute it.
pub open spec fn space_around(by: DoubleComputation, frame: GlyphFrame) -> Double {
    (by.sum)(
        (by.ceiling)((by.product)(frame.embolden, frame.scale)),
        Double { bits: 0x3ff0_0000_0000_0000 },
    )
}

/// The edges of a glyph are those of its rectangle in device pixels, moved outwards by the space
/// around it and on to whole pixels, with the vertical axis turned. A glyph that lies between
/// pixels reaches one further to the right.
pub proof fn law_edges_enclose_the_glyph<N: DoubleArithmetic>(
    numbers: &N,
    by: DoubleComputation,
    rect: GlyphRect,
    frame: GlyphFrame,
    subpixel_x: u8,
    edges: GlyphEdges,
)
    requires
        computes_doubles(numbers, by),
        are_edges(numbers, rect, frame, subpixel_x, edges),
    ensures
        edges.left == (by.floor)(
            (by.difference)((by.product)(rect.x, frame.scale), space_around(by, frame)),
        ),
        ({
            let aligned = (by.ceiling)(
                (by.sum)(
                    (by.product)((by.sum)(rect.x, rect.width), frame.scale),
                    space_around(by, frame),
                ),
            );
            edges.right == if subpixel_x == 0 {
                aligned
            } else {
                (by.sum)(aligned, Double { bits: 0x3ff0_0000_0000_0000 })
            }
        }),
        edges.top == (by.floor)(
            (by.difference)(
                (by.product)((by.sum)(rect.y, rect.height).negated(), frame.scale),
                space_around(by, frame),
            ),
        ),
        edges.bottom == (by.ceiling)(
            (by.sum)((by.product)(rect.y.negated(), frame.scale), space_around(by, frame)),
        ),
{
    let padding = choose|padding: Double|
        {
            &&& #[trigger] is_padding(numbers, frame, padding)
            &&& is_near_edge(numbers, rect.x, frame.scale, padding, edges.left)
            &&& is_right_edge(numbers, rect, frame, padding, subpixel_x, edges.right)
            &&& is_top_edge(numbers, rect, frame, padding, edges.top)
            &&& is_far_edge(numbers, rect.y.negated(), frame.scale, padding, edges.bottom)
        };
    assert(padding == space_around(by, frame));
    let (end, aligned) = choose|end: Double, aligned: Double|
        {
            &&& #[trigger] call_ensures(N::double_sum, (numbers, rect.x, rect.width), end)
            &&& #[trigger] is_far_edge(numbers, end, frame.scale, padding, aligned)
            &&& if subpixel_x > 0 {
                call_ensures(
                    N::double_sum,
                    (numbers, aligned, (Double { bits: 0x3ff0_0000_0000_0000 })),
                    edges.right,
                )
            } else {
                edges.right == aligned
            }
        };
    assert(is_far_edge(numbers, end, frame.scale, padding, aligned));
}

/// A bitmap covers the whole pixels between a glyph's edges: its corner is the left and the top
/// edge, it has as many columns and rows as the edges are apart, and one byte for each pixel of a
/// mask or four for one in color.
pub proof fn law_bitmaps_cover_the_pixels_between_edges<N: DoubleArithmetic>(
    numbers: &N,
    by: DoubleComputation,
    rect: GlyphRect,
    frame: GlyphFrame,
    subpixel_x: u8,
    mode: GlyphRenderMode,
    bitmap: BitmapPlan,
)
    requires
        computes_doubles(numbers, by),
        is_planned(
            numbers,
            rect,
            frame,
            subpixel_x,
            mode,
            Ok::<Option<BitmapPlan>, BitmapTooLarge>(Some(bitmap)),
        ),
    ensures
        !rect.empty,
        are_edges(numbers, rect, frame, subpixel_x, bitmap.edges),
        bitmap.left == (by.truncated)(bitmap.edges.left),
        bitmap.top == (by.truncated)(bitmap.edges.top),
        bitmap.width == (by.truncated)((by.difference)(bitmap.edges.right, bitmap.edges.left)),
        bitmap.height == (by.truncated)((by.difference)(bitmap.edges.bottom, bitmap.edges.top)),
        bitmap.width > 0,
        bitmap.height > 0,
        mode == GlyphRenderMode::Color ==> {
            &&& bitmap.format == RasterizedGlyphFormat::BgraColor
            &&& bitmap.bytes_per_row == 4 * bitmap.width
            &&& bitmap.byte_count == bitmap.bytes_per_row * bitmap.height
        },
        mode != GlyphRenderMode::Color ==> {
            &&& bitmap.format == RasterizedGlyphFormat::AlphaMask
            &&& bitmap.bytes_per_row == bitmap.width
            &&& bitmap.byte_count == bitmap.bytes_per_row * bitmap.height
        },
{
    let edges = bitmap.edges;
    assert(covers_edges(numbers, edges, mode, bitmap));
}

/// A glyph needs no bitmap exactly if its rectangle is empty or has a side of zero or less, or if
/// there is no pixel between its edges.
pub proof fn law_only_glyphs_without_ink_need_no_bitmap<N: DoubleArithmetic>(
    numbers: &N,
    by: DoubleComputation,
    rect: GlyphRect,
    frame: GlyphFrame,
    subpixel_x: u8,
    mode: GlyphRenderMode,
    planned: Result<Option<BitmapPlan>, BitmapTooLarge>,
)
    requires
        computes_doubles(numbers, by),
        is_planned(numbers, rect, frame, subpixel_x, mode, planned),
    ensures
        rect.empty || rect.width.at_most_zero() || rect.height.at_most_zero() ==> planned == Ok::<
            Option<BitmapPlan>,
            BitmapTooLarge,
        >(None),
        planned == Ok::<Option<BitmapPlan>, BitmapTooLarge>(None) && !(rect.empty
            || rect.width.at_most_zero() || rect.height.at_most_zero()) ==> exists|
            edges: GlyphEdges,
        |
            {
                &&& #[trigger] are_edges(numbers, rect, frame, subpixel_x, edges)
                &&& (by.truncated)((by.difference)(edges.right, edges.left)) <= 0 || (by.truncated)(
                    (by.difference)(edges.bottom, edges.top),
                ) <= 0
            },
        planned is Err ==> exists|edges: GlyphEdges|
            {
                let width = (by.truncated)((by.difference)(edges.right, edges.left)) as int;
                let height = (by.truncated)((by.difference)(edges.bottom, edges.top)) as int;
                &&& #[trigger] are_edges(numbers, rect, frame, subpixel_x, edges)
                &&& width > 0
                &&& height > 0
                &&& width * (if mode == GlyphRenderMode::Color {
                    4int
                } else {
                    1int
                }) * height > usize::MAX
            },
{
}

/// A glyph is drawn with its bitmap's left and bottom edge at the origin, stroked twice as wide as
/// it is made heavier, and moved by quarters of a device pixel across.
pub proof fn law_placements_line_up_with_the_bitmap<N: DoubleArithmetic>(
    numbers: &N,
    by: DoubleComputation,
    glyph: NativeGlyph,
    frame: GlyphFrame,
    bitmap: BitmapPlan,
    placement: GlyphPlacement,
)
    requires
        computes_doubles(numbers, by),
        is_placement(numbers, glyph, frame, bitmap, placement),
    ensures
        placement.line_width == (by.product)(
            frame.embolden,
            Double { bits: 0x4000_0000_0000_0000 },
        ),
        placement.translation.x.bits % 0x8000_0000_0000_0000 == bitmap.edges.left.bits
            % 0x8000_0000_0000_0000,
        placement.translation.x.bits != bitmap.edges.left.bits,
        placement.translation.y == (by.sum)(bitmap.edges.top, (by.whole)(bitmap.height)),
        placement.offset.x == (by.quotient)(
            (by.quotient)((by.whole)(glyph.subpixel_variant.x as i32), (by.whole)(4)),
            frame.scale,
        ),
        placement.offset.y == (by.quotient)(
            (by.quotient)((by.whole)(glyph.subpixel_variant.y as i32), (by.whole)(1)),
            frame.scale,
        ),
{
}

/// A font that is looked up has its native face from then on, the one that it had if it had one.
/// Other fonts keep theirs, and a failure changes nothing.
pub proof fn law_lookups_hold_the_face<C: NativeCanvas>(
    canvas: &C,
    before: NativeFaces<C>,
    face: RasterFace<'_>,
    after: NativeFaces<C>,
    outcome: Result<NativeFace<C>, NativeFaceError>,
)
    requires
        is_looked_up(canvas, before, face, after, outcome),
    ensures
        outcome matches Ok(native) ==> after.faces.contains_key(face.font_id.0)
            && after.faces[face.font_id.0] == native,
        before.faces.contains_key(face.font_id.0) ==> outcome == Ok::<
            NativeFace<C>,
            NativeFaceError,
        >(before.faces[face.font_id.0]) && after == before,
        outcome is Err ==> after == before,
        forall|other: usize|
            other != face.font_id.0 ==> (#[trigger] after.faces.contains_key(other)
                <==> before.faces.contains_key(other)) && (before.faces.contains_key(other)
                ==> after.faces[other] == before.faces[other]),
{
}

/// A native face that is made reads the face's own bytes: those that the rasterizer holds for the
/// face's source, or new ones made of the source's bytes.
pub proof fn law_native_faces_are_made_of_their_source<C: NativeCanvas>(
    canvas: &C,
    before: NativeFaces<C>,
    face: RasterFace<'_>,
    after: NativeFaces<C>,
    outcome: Result<NativeFace<C>, NativeFaceError>,
)
    requires
        is_looked_up(canvas, before, face, after, outcome),
        !before.faces.contains_key(face.font_id.0),
    ensures
        exists|shared: C::Source, made: Result<(NativeFace<C>, bool), NativeFaceError>|
            {
                &&& #[trigger] is_native_face(
                    canvas,
                    blob_bytes(*face.source),
                    face.face_index,
                    face.variations,
                    shared,
                    made,
                )
                &&& before.sources.contains_key(face.source_id) ==> call_ensures(
                    C::share,
                    (canvas, &before.sources[face.source_id]),
                    shared,
                )
                &&& !before.sources.contains_key(face.source_id) ==> exists|bytes: Vec<u8>|
                    #[trigger]
                    call_ensures(C::source_from_bytes, (canvas, bytes), shared) && bytes@
                        == blob_bytes(*face.source)
                &&& made matches Ok(native) ==> outcome == Ok::<NativeFace<C>, NativeFaceError>(
                    native.0,
                )
                &&& made matches Err(error) ==> outcome == Err::<NativeFace<C>, NativeFaceError>(
                    error,
                )
            },
{
    let (shared, kept, made) = choose|
        shared: C::Source,
        kept: C::Source,
        made: Result<(NativeFace<C>, bool), NativeFaceError>,
    |
        {
            &&& is_shared_source(canvas, before, face, shared)
            &&& #[trigger] call_ensures(C::share, (canvas, &shared), kept)
            &&& #[trigger] is_native_face(
                canvas,
                blob_bytes(*face.source),
                face.face_index,
                face.variations,
                shared,
                made,
            )
            &&& match made {
                Err(error) => outcome == Err::<NativeFace<C>, NativeFaceError>(error),
                Ok((native, is_shared)) => outcome == Ok::<NativeFace<C>, NativeFaceError>(native),
            }
        };
    assert(is_shared_source(canvas, before, face, shared));
    assert(is_native_face(
        canvas,
        blob_bytes(*face.source),
        face.face_index,
        face.variations,
        shared,
        made,
    ));
}

/// The numbers of a drawing are those of the glyph that is asked for, in the face that it is asked
/// of: its size and scale, the face's skew and weight, and where it lies between pixels.
pub open spec fn drawn_with_numbers<C: NativeCanvas>(
    canvas: &C,
    by: DoubleComputation,
    native: NativeFace<C>,
    face: RasterFace<'_>,
    params: RenderGlyphParams,
    style: PreparedRasterStyle,
    raster: RasterizedGlyph,
    drawing: &GlyphDrawing,
    bitmap: &BitmapPlan,
    drawn: Vec<u8>,
    rect: GlyphRect,
) -> bool {
    let across = (by.whole)(params.subpixel_variant.x as i32);
    let down = (by.whole)(params.subpixel_variant.y as i32);
    &&& call_ensures(C::draw, (canvas, &native.descriptor, drawing, bitmap), drawn)
    &&& drawing.frame.font_size == (by.widened)(params.font_size.0)
    &&& drawing.frame.scale == (by.widened)(params.scale_factor)
    &&& drawing.frame.skew == match face.synthesis.skew_degrees {
        None => (by.tangent)(Double { bits: 0 }),
        Some(degrees) => (by.tangent)(
            (by.quotient)(
                (by.product)((by.widened)(degrees), Double { bits: 0x4009_21fb_5444_2d18 }),
                Double { bits: 0x4066_8000_0000_0000 },
            ),
        ),
    }
    &&& drawing.frame.embolden == if face.synthesis.embolden {
        (by.quotient)((by.widened)(params.font_size.0), Double { bits: 0x4048_0000_0000_0000 })
    } else {
        Double { bits: 0 }
    }
    &&& drawing.placement.line_width == (by.product)(
        drawing.frame.embolden,
        Double { bits: 0x4000_0000_0000_0000 },
    )
    &&& drawing.placement.offset.x == (by.quotient)(
        (by.quotient)(across, (by.whole)(4)),
        drawing.frame.scale,
    )
    &&& drawing.placement.offset.y == (by.quotient)(
        (by.quotient)(down, (by.whole)(1)),
        drawing.frame.scale,
    )
    &&& drawing.placement.translation.y == (by.sum)(bitmap.edges.top, (by.whole)(bitmap.height))
    &&& call_ensures(
        C::glyph_rect,
        (
            canvas,
            &native.descriptor,
            drawing.glyph,
            drawing.frame.font_size,
            drawing.frame.skew,
        ),
        rect,
    )
    &&& are_edges(canvas, rect, drawing.frame, params.subpixel_variant.x, bitmap.edges)
    &&& bitmap.format == if style.mode == GlyphRenderMode::Color {
        RasterizedGlyphFormat::BgraColor
    } else {
        RasterizedGlyphFormat::AlphaMask
    }
    &&& is_drawn_raster(canvas, *bitmap, drawn@, raster)
}

/// A raster with pixels was drawn with the numbers of the glyph and its face, into the bitmap
/// around the rectangle that the platform tells for just this glyph.
pub proof fn law_drawings_hold_the_glyphs_numbers<C: NativeCanvas>(
    canvas: &C,
    by: DoubleComputation,
    native: NativeFace<C>,
    face: RasterFace<'_>,
    params: RenderGlyphParams,
    style: PreparedRasterStyle,
    raster: RasterizedGlyph,
)
    requires
        computes_doubles(canvas, by),
        is_rasterized(
            canvas,
            native,
            face,
            params,
            style,
            Ok::<RasterizedGlyph, MacRasterError>(raster),
        ),
        raster.size.width.0 != 0,
    ensures
        exists|drawing: &GlyphDrawing, bitmap: &BitmapPlan, drawn: Vec<u8>, rect: GlyphRect|
            #[trigger]
            drawn_with_numbers(
                canvas,
                by,
                native,
                face,
                params,
                style,
                raster,
                drawing,
                bitmap,
                drawn,
                rect,
            ),
{
    let glyph = native_glyph_of(face, params);
    let (frame, rect, planned) = choose|
        frame: GlyphFrame,
        rect: GlyphRect,
        planned: Result<Option<BitmapPlan>, BitmapTooLarge>,
    |
        {
            &&& is_frame(canvas, glyph, frame)
            &&& #[trigger] call_ensures(
                C::glyph_rect,
                (
                    canvas,
                    &native.descriptor,
                    params.glyph_id.0 as u16,
                    frame.font_size,
                    frame.skew,
                ),
                rect,
            )
            &&& #[trigger] is_planned(
                canvas,
                rect,
                frame,
                params.subpixel_variant.x,
                style.mode,
                planned,
            )
            &&& match planned {
                Err(_) => false,
                Ok(None) => raster.is_blank(mode_format(style.mode)),
                Ok(Some(bitmap)) => is_drawn(
                    canvas,
                    native.descriptor,
                    glyph,
                    frame,
                    settings_for(style, face.synthesis.embolden),
                    bitmap,
                    raster,
                ),
            }
        };
    let bitmap = planned->Ok_0->0;
    law_frames_hold_the_glyphs_numbers(canvas, by, glyph, frame);
    law_bitmaps_cover_the_pixels_between_edges(
        canvas,
        by,
        rect,
        frame,
        params.subpixel_variant.x,
        style.mode,
        bitmap,
    );
    let (drawing, drawn) = choose|drawing: &GlyphDrawing, drawn: Vec<u8>|
        {
            &&& #[trigger] call_ensures(
                C::draw,
                (canvas, &native.descriptor, drawing, &bitmap),
                drawn,
            )
            &&& drawing.glyph == glyph.glyph
            &&& drawing.frame == frame
            &&& drawing.settings == settings_for(style, face.synthesis.embolden)
            &&& is_placement(canvas, glyph, frame, bitmap, drawing.placement)
            &&& is_drawn_raster(canvas, bitmap, drawn@, raster)
        };
    law_placements_line_up_with_the_bitmap(canvas, by, glyph, frame, bitmap, drawing.placement);
    assert(drawn_with_numbers(
        canvas,
        by,
        native,
        face,
        params,
        style,
        raster,
        drawing,
        &bitmap,
        drawn,
        rect,
    ));
}

/// Whether the platform tells a rectangle for a glyph of a face, skewed as the face is.
pub open spec fn is_rect_for<C: NativeCanvas>(
    canvas: &C,
    by: DoubleComputation,
    native: NativeFace<C>,
    face: RasterFace<'_>,
    params: RenderGlyphParams,
    frame: GlyphFrame,
    rect: GlyphRect,
) -> bool {
    &&& frame.font_size == (by.widened)(params.font_size.0)
    &&& frame.scale == (by.widened)(params.scale_factor)
    &&& frame.skew == match face.synthesis.skew_degrees {
        None => (by.tangent)(Double { bits: 0 }),
        Some(degrees) => (by.tangent)(
            (by.quotient)(
                (by.product)((by.widened)(degrees), Double { bits: 0x4009_21fb_5444_2d18 }),
                Double { bits: 0x4066_8000_0000_0000 },
            ),
        ),
    }
    &&& frame.embolden == if face.synthesis.embolden {
        (by.quotient)(frame.font_size, Double { bits: 0x4048_0000_0000_0000 })
    } else {
        Double { bits: 0 }
    }
    &&& call_ensures(
        C::glyph_rect,
        (canvas, &native.descriptor, params.glyph_id.0 as u16, frame.font_size, frame.skew),
        rect,
    )
}

/// A glyph that is not refused has a raster unless its bitmap does not fit in memory. The raster
/// has no pixels exactly if the glyph needs no bitmap, and then it is a mask unless it is colored.
pub proof fn law_rasters_follow_their_plan<C: NativeCanvas>(
    canvas: &C,
    by: DoubleComputation,
    native: NativeFace<C>,
    face: RasterFace<'_>,
    params: RenderGlyphParams,
    style: PreparedRasterStyle,
    result: Result<RasterizedGlyph, MacRasterError>,
)
    requires
        computes_doubles(canvas, by),
        is_rasterized(canvas, native, face, params, style, result),
        glyph_refusal(params) is None,
    ensures
        exists|
            frame: GlyphFrame,
            rect: GlyphRect,
            planned: Result<Option<BitmapPlan>, BitmapTooLarge>,
        |
            {
                &&& #[trigger] is_rect_for(canvas, by, native, face, params, frame, rect)
                &&& #[trigger] is_planned(
                    canvas,
                    rect,
                    frame,
                    params.subpixel_variant.x,
                    style.mode,
                    planned,
                )
                &&& planned is Err <==> result == Err::<RasterizedGlyph, MacRasterError>(
                    MacRasterError::BitmapTooLarge,
                )
                &&& planned is Ok ==> result is Ok
                &&& planned is Ok && planned->Ok_0 is None ==> {
                    &&& result->Ok_0.pixels@.len() == 0
                    &&& result->Ok_0.size.width.0 == 0
                    &&& result->Ok_0.size.height.0 == 0
                    &&& result->Ok_0.bounds.origin.x.0 == 0
                    &&& result->Ok_0.bounds.origin.y.0 == 0
                    &&& result->Ok_0.format == if style.mode == GlyphRenderMode::Color {
                        RasterizedGlyphFormat::BgraColor
                    } else {
                        RasterizedGlyphFormat::AlphaMask
                    }
                }
                &&& planned is Ok && planned->Ok_0 is Some ==> result->Ok_0.size.width.0
                    == planned->Ok_0->0.width && result->Ok_0.size.height.0
                    == planned->Ok_0->0.height
            },
{
    let glyph = native_glyph_of(face, params);
    let (frame, rect, planned) = choose|
        frame: GlyphFrame,
        rect: GlyphRect,
        planned: Result<Option<BitmapPlan>, BitmapTooLarge>,
    |
        {
            &&& is_frame(canvas, glyph, frame)
            &&& #[trigger] call_ensures(
                C::glyph_rect,
                (
                    canvas,
                    &native.descriptor,
                    params.glyph_id.0 as u16,
                    frame.font_size,
                    frame.skew,
                ),
                rect,
            )
            &&& #[trigger] is_planned(
                canvas,
                rect,
                frame,
                params.subpixel_variant.x,
                style.mode,
                planned,
            )
            &&& match planned {
                Err(_) => result == Err::<RasterizedGlyph, MacRasterError>(
                    MacRasterError::BitmapTooLarge,
                ),
                Ok(None) => result matches Ok(raster) && raster.is_blank(mode_format(style.mode)),
                Ok(Some(bitmap)) => result matches Ok(raster) && is_drawn(
                    canvas,
                    native.descriptor,
                    glyph,
                    frame,
                    settings_for(style, face.synthesis.embolden),
                    bitmap,
                    raster,
                ),
            }
        };
    law_frames_hold_the_glyphs_numbers(canvas, by, glyph, frame);
    assert(is_rect_for(canvas, by, native, face, params, frame, rect));
    assert(is_planned(
        canvas,
        rect,
        frame,
        params.subpixel_variant.x,
        style.mode,
        planned,
    ));
}

/// The bytes of a source are held from the first face on that is made of them and reads them
/// itself: what is held is another handle to what the face reads.
pub proof fn law_sources_that_faces_read_are_held<C: NativeCanvas>(
    canvas: &C,
    before: NativeFaces<C>,
    face: RasterFace<'_>,
    after: NativeFaces<C>,
    native: NativeFace<C>,
)
    requires
        is_looked_up(
            canvas,
            before,
            face,
            after,
            Ok::<NativeFace<C>, NativeFaceError>(native),
        ),
        !before.faces.contains_key(face.font_id.0),
        !before.sources.contains_key(face.source_id),
    ensures
        exists|shared: C::Source, made: (NativeFace<C>, bool)|
            {
                &&& #[trigger] is_native_face(
                    canvas,
                    blob_bytes(*face.source),
                    face.face_index,
                    face.variations,
                    shared,
                    Ok::<(NativeFace<C>, bool), NativeFaceError>(made),
                )
                &&& made.0 == native
                &&& made.1 <==> after.sources.contains_key(face.source_id)
                &&& made.1 ==> call_ensures(
                    C::share,
                    (canvas, &shared),
                    after.sources[face.source_id],
                )
            },
{
    let (shared, kept, made) = choose|
        shared: C::Source,
        kept: C::Source,
        made: Result<(NativeFace<C>, bool), NativeFaceError>,
    |
        {
            &&& is_shared_source(canvas, before, face, shared)
            &&& #[trigger] call_ensures(C::share, (canvas, &shared), kept)
            &&& #[trigger] is_native_face(
                canvas,
                blob_bytes(*face.source),
                face.face_index,
                face.variations,
                shared,
                made,
            )
            &&& made matches Ok((made_native, is_shared)) && made_native == native && after.sources
                == if is_shared {
                before.sources.insert(face.source_id, kept)
            } else {
                before.sources
            }
        };
    assert(is_native_face(
        canvas,
        blob_bytes(*face.source),
        face.face_index,
        face.variations,
        shared,
        Ok::<(NativeFace<C>, bool), NativeFaceError>(made->Ok_0),
    ));
}

} // verus!
