//! Where CoreGraphics draws a glyph: the bitmap around it, and the numbers of its drawing.

use crate::double::{Double, DoubleArithmetic};
use crate::geometry::{Pixels, Point};
use crate::raster::{bytes_per_pixel, GlyphRenderMode, RasterizedGlyphFormat};
use crate::scalar::Scalar;
use crate::text_system::{SUBPIXEL_VARIANTS_X, SUBPIXEL_VARIANTS_Y};
use vstd::prelude::*;

verus! {

/// A glyph to draw.
#[derive(Clone, Copy, Debug)]
pub struct NativeGlyph {
    /// The glyph.
    pub glyph: u16,
    /// The font size.
    pub font_size: Pixels,
    /// The number of device pixels per logical pixel.
    pub scale_factor: Scalar,
    /// Where the glyph lies between pixels, in steps.
    pub subpixel_variant: Point<u8>,
    /// By how many degrees the glyph is skewed.
    pub skew_degrees: Option<Scalar>,
    /// Whether the outline is made heavier.
    pub embolden: bool,
}

/// The numbers of a glyph in double precision.
#[derive(Clone, Copy, Debug)]
pub struct GlyphFrame {
    /// The font size.
    pub font_size: Double,
    /// The number of device pixels per logical pixel.
    pub scale: Double,
    /// By how much a row is moved per unit of its height.
    pub skew: Double,
    /// By how much the outline is made heavier.
    pub embolden: Double,
}

/// The rectangle around a skewed glyph in logical pixels, with the vertical axis pointing up.
#[derive(Clone, Copy, Debug)]
pub struct GlyphRect {
    /// Whether there is nothing in the rectangle.
    pub empty: bool,
    /// The left edge.
    pub x: Double,
    /// The bottom edge.
    pub y: Double,
    /// The width.
    pub width: Double,
    /// The height.
    pub height: Double,
}

/// The edges of a glyph in whole device pixels, padding included, with the vertical axis pointing
/// down.
#[derive(Clone, Copy, Debug)]
pub struct GlyphEdges {
    /// The left edge.
    pub left: Double,
    /// The right edge.
    pub right: Double,
    /// The top edge.
    pub top: Double,
    /// The bottom edge.
    pub bottom: Double,
}

/// The bitmap that a glyph is drawn into.
#[derive(Clone, Copy, Debug)]
pub struct BitmapPlan {
    /// The edges of the bitmap.
    pub edges: GlyphEdges,
    /// The column of the left edge.
    pub left: i32,
    /// The row of the top edge.
    pub top: i32,
    /// The number of columns.
    pub width: i32,
    /// The number of rows.
    pub height: i32,
    /// The layout of the pixels.
    pub format: RasterizedGlyphFormat,
    /// The number of bytes from row to row.
    pub bytes_per_row: usize,
    /// The number of bytes.
    pub byte_count: usize,
}

/// Where a glyph is drawn in its bitmap.
#[derive(Clone, Copy, Debug)]
pub struct GlyphPlacement {
    /// How wide outlines are stroked.
    pub line_width: Double,
    /// By how much the drawing is moved, in device pixels.
    pub translation: Point<Double>,
    /// Where the glyph's origin lies, in logical pixels.
    pub offset: Point<Double>,
}

/// The bitmap does not fit in memory.
#[derive(Clone, Copy, Debug, PartialEq, Eq, Structural)]
pub struct BitmapTooLarge;

/// The encodings of the numbers one, two, 48 and 180, and of the ratio of a circle's
/// circumference to its diameter.
pub const DOUBLE_ONE_BITS: u64 = 0x3ff0_0000_0000_0000;
pub const DOUBLE_TWO_BITS: u64 = 0x4000_0000_0000_0000;
pub const DOUBLE_FORTY_EIGHT_BITS: u64 = 0x4048_0000_0000_0000;
pub const DOUBLE_HALF_TURN_BITS: u64 = 0x4066_8000_0000_0000;
pub const DOUBLE_PI_BITS: u64 = 0x4009_21fb_5444_2d18;

/// `radians` is an angle in degrees, or zero.
pub open spec fn is_radians<N: DoubleArithmetic>(
    numbers: &N,
    degrees: Option<Scalar>,
    radians: Double,
) -> bool {
    match degrees {
        None => radians == (Double { bits: 0 }),
        Some(degrees) => exists|wide: Double, turned: Double|
            {
                &&& #[trigger] call_ensures(N::widened, (numbers, degrees), wide)
                &&& #[trigger] call_ensures(
                    N::double_product,
                    (numbers, wide, (Double { bits: DOUBLE_PI_BITS })),
                    turned,
                )
                &&& call_ensures(
                    N::double_quotient,
                    (numbers, turned, (Double { bits: DOUBLE_HALF_TURN_BITS })),
                    radians,
                )
            },
    }
}

/// `skew` is the tangent of an angle in degrees, or of zero.
pub open spec fn is_skew<N: DoubleArithmetic>(
    numbers: &N,
    degrees: Option<Scalar>,
    skew: Double,
) -> bool {
    exists|radians: Double| #[trigger]
        is_radians(numbers, degrees, radians) && call_ensures(N::tangent, (numbers, radians), skew)
}

/// `frame` holds the numbers of a glyph: its size, its scale, the tangent of its skew and, for one
/// that is made heavier, its size over 48.
pub open spec fn is_frame<N: DoubleArithmetic>(
    numbers: &N,
    glyph: NativeGlyph,
    frame: GlyphFrame,
) -> bool {
    &&& call_ensures(N::widened, (numbers, glyph.font_size.0), frame.font_size)
    &&& call_ensures(N::widened, (numbers, glyph.scale_factor), frame.scale)
    &&& is_skew(numbers, glyph.skew_degrees, frame.skew)
    &&& if glyph.embolden {
        call_ensures(
            N::double_quotient,
            (numbers, frame.font_size, (Double { bits: DOUBLE_FORTY_EIGHT_BITS })),
            frame.embolden,
        )
    } else {
        frame.embolden == (Double { bits: 0 })
    }
}

/// The numbers of a glyph.
pub fn frame_glyph<N: DoubleArithmetic>(numbers: &N, glyph: &NativeGlyph) -> (frame: GlyphFrame)
    ensures
        is_frame(numbers, *glyph, frame),
{
    let font_size: Double = numbers.widened(glyph.font_size.0);
    let scale: Double = numbers.widened(glyph.scale_factor);
    let radians: Double = match glyph.skew_degrees {
        None => Double { bits: 0 },
        Some(degrees) => {
            let wide: Double = numbers.widened(degrees);
            let turned: Double = numbers.double_product(wide, Double { bits: DOUBLE_PI_BITS });
            numbers.double_quotient(turned, Double { bits: DOUBLE_HALF_TURN_BITS })
        },
    };
    let skew: Double = numbers.tangent(radians);
    let embolden: Double = if glyph.embolden {
        numbers.double_quotient(font_size, Double { bits: DOUBLE_FORTY_EIGHT_BITS })
    } else {
        Double { bits: 0 }
    };
    assert(is_radians(numbers, glyph.skew_degrees, radians));
    assert(is_skew(numbers, glyph.skew_degrees, skew));
    GlyphFrame { font_size, scale, skew, embolden }
}

/// `padding` is the space around a glyph: the next whole number of pixels by which its outline is
/// made heavier, and one more.
pub open spec fn is_padding<N: DoubleArithmetic>(
    numbers: &N,
    frame: GlyphFrame,
    padding: Double,
) -> bool {
    exists|heavier: Double, rounded: Double|
        {
            &&& #[trigger] call_ensures(
                N::double_product,
                (numbers, frame.embolden, frame.scale),
                heavier,
            )
            &&& #[trigger] call_ensures(N::ceiling, (numbers, heavier), rounded)
            &&& call_ensures(
                N::double_sum,
                (numbers, rounded, (Double { bits: DOUBLE_ONE_BITS })),
                padding,
            )
        }
}

/// `edge` is a scaled position less the padding, rounded down.
pub open spec fn is_near_edge<N: DoubleArithmetic>(
    numbers: &N,
    position: Double,
    scale: Double,
    padding: Double,
    edge: Double,
) -> bool {
    exists|scaled: Double, moved: Double|
        {
            &&& #[trigger] call_ensures(N::double_product, (numbers, position, scale), scaled)
            &&& #[trigger] call_ensures(N::double_difference, (numbers, scaled, padding), moved)
            &&& call_ensures(N::floor, (numbers, moved), edge)
        }
}

/// `edge` is a scaled position and the padding, rounded up.
pub open spec fn is_far_edge<N: DoubleArithmetic>(
    numbers: &N,
    position: Double,
    scale: Double,
    padding: Double,
    edge: Double,
) -> bool {
    exists|scaled: Double, moved: Double|
        {
            &&& #[trigger] call_ensures(N::double_product, (numbers, position, scale), scaled)
            &&& #[trigger] call_ensures(N::double_sum, (numbers, scaled, padding), moved)
            &&& call_ensures(N::ceiling, (numbers, moved), edge)
        }
}

/// `right` is the right edge of a glyph. A glyph that lies between pixels reaches one further.
pub open spec fn is_right_edge<N: DoubleArithmetic>(
    numbers: &N,
    rect: GlyphRect,
    frame: GlyphFrame,
    padding: Double,
    subpixel_x: u8,
    right: Double,
) -> bool {
    exists|end: Double, aligned: Double|
        {
            &&& #[trigger] call_ensures(N::double_sum, (numbers, rect.x, rect.width), end)
            &&& #[trigger] is_far_edge(numbers, end, frame.scale, padding, aligned)
            &&& if subpixel_x > 0 {
                call_ensures(
                    N::double_sum,
                    (numbers, aligned, (Double { bits: DOUBLE_ONE_BITS })),
                    right,
                )
            } else {
                right == aligned
            }
        }
}

/// `top` is the top edge of a glyph.
pub open spec fn is_top_edge<N: DoubleArithmetic>(
    numbers: &N,
    rect: GlyphRect,
    frame: GlyphFrame,
    padding: Double,
    top: Double,
) -> bool {
    exists|end: Double|
        {
            &&& #[trigger] call_ensures(N::double_sum, (numbers, rect.y, rect.height), end)
            &&& is_near_edge(numbers, end.negated(), frame.scale, padding, top)
        }
}

/// `edges` are the edges of a glyph with a rectangle around it.
pub open spec fn are_edges<N: DoubleArithmetic>(
    numbers: &N,
    rect: GlyphRect,
    frame: GlyphFrame,
    subpixel_x: u8,
    edges: GlyphEdges,
) -> bool {
    exists|padding: Double|
        {
            &&& #[trigger] is_padding(numbers, frame, padding)
            &&& is_near_edge(numbers, rect.x, frame.scale, padding, edges.left)
            &&& is_right_edge(numbers, rect, frame, padding, subpixel_x, edges.right)
            &&& is_top_edge(numbers, rect, frame, padding, edges.top)
            &&& is_far_edge(numbers, rect.y.negated(), frame.scale, padding, edges.bottom)
        }
}

/// The space around a glyph.
fn pad_glyph<N: DoubleArithmetic>(numbers: &N, frame: &GlyphFrame) -> (padding: Double)
    ensures
        is_padding(numbers, *frame, padding),
{
    let heavier: Double = numbers.double_product(frame.embolden, frame.scale);
    let rounded: Double = numbers.ceiling(heavier);
    numbers.double_sum(rounded, Double { bits: DOUBLE_ONE_BITS })
}

/// A scaled position less the padding, rounded down.
fn near_edge<N: DoubleArithmetic>(
    numbers: &N,
    position: Double,
    scale: Double,
    padding: Double,
) -> (edge: Double)
    ensures
        is_near_edge(numbers, position, scale, padding, edge),
{
    let scaled: Double = numbers.double_product(position, scale);
    let moved: Double = numbers.double_difference(scaled, padding);
    numbers.floor(moved)
}

/// A scaled position and the padding, rounded up.
fn far_edge<N: DoubleArithmetic>(
    numbers: &N,
    position: Double,
    scale: Double,
    padding: Double,
) -> (edge: Double)
    ensures
        is_far_edge(numbers, position, scale, padding, edge),
{
    let scaled: Double = numbers.double_product(position, scale);
    let moved: Double = numbers.double_sum(scaled, padding);
    numbers.ceiling(moved)
}

/// The edges of a glyph with a rectangle around it.
pub fn glyph_edges<N: DoubleArithmetic>(
    numbers: &N,
    rect: &GlyphRect,
    frame: &GlyphFrame,
    subpixel_x: u8,
) -> (edges: GlyphEdges)
    ensures
        are_edges(numbers, *rect, *frame, subpixel_x, edges),
{
    let padding: Double = pad_glyph(numbers, frame);
    let left: Double = near_edge(numbers, rect.x, frame.scale, padding);
    let end: Double = numbers.double_sum(rect.x, rect.width);
    let aligned: Double = far_edge(numbers, end, frame.scale, padding);
    let right: Double = if subpixel_x > 0 {
        numbers.double_sum(aligned, Double { bits: DOUBLE_ONE_BITS })
    } else {
        aligned
    };
    assert(is_right_edge(numbers, *rect, *frame, padding, subpixel_x, right));
    let upper: Double = numbers.double_sum(rect.y, rect.height);
    let top: Double = near_edge(numbers, upper.negate(), frame.scale, padding);
    assert(is_top_edge(numbers, *rect, *frame, padding, top));
    let bottom: Double = far_edge(numbers, rect.y.negate(), frame.scale, padding);
    GlyphEdges { left, right, top, bottom }
}

/// `extent` is the number of whole pixels from one edge to another.
pub open spec fn is_extent<N: DoubleArithmetic>(
    numbers: &N,
    from: Double,
    to: Double,
    extent: i32,
) -> bool {
    exists|span: Double|
        {
            &&& #[trigger] call_ensures(N::double_difference, (numbers, to, from), span)
            &&& call_ensures(N::truncated, (numbers, span), extent)
        }
}

/// The number of whole pixels from one edge to another.
fn measure_extent<N: DoubleArithmetic>(numbers: &N, from: Double, to: Double) -> (extent: i32)
    ensures
        is_extent(numbers, from, to, extent),
{
    let span: Double = numbers.double_difference(to, from);
    numbers.truncated(span)
}

/// The layout of the pixels in a mode.
pub open spec fn mode_format(mode: GlyphRenderMode) -> RasterizedGlyphFormat {
    match mode {
        GlyphRenderMode::Color => RasterizedGlyphFormat::BgraColor,
        GlyphRenderMode::Grayscale | GlyphRenderMode::Subpixel => RasterizedGlyphFormat::AlphaMask,
    }
}

/// The layout of the pixels in a mode.
pub fn format_for_mode(mode: GlyphRenderMode) -> (format: RasterizedGlyphFormat)
    ensures
        format == mode_format(mode),
{
    match mode {
        GlyphRenderMode::Color => RasterizedGlyphFormat::BgraColor,
        GlyphRenderMode::Grayscale | GlyphRenderMode::Subpixel => RasterizedGlyphFormat::AlphaMask,
    }
}

/// Whether a glyph with a rectangle around it has no ink.
pub open spec fn is_blank_rect(rect: GlyphRect) -> bool {
    rect.empty || rect.width.at_most_zero() || rect.height.at_most_zero()
}

/// `bitmap` covers the pixels between edges: as many columns and rows as they are apart, and as
/// many bytes as those take.
pub open spec fn covers_edges<N: DoubleArithmetic>(
    numbers: &N,
    edges: GlyphEdges,
    mode: GlyphRenderMode,
    bitmap: BitmapPlan,
) -> bool {
    &&& bitmap.edges == edges
    &&& call_ensures(N::truncated, (numbers, edges.left), bitmap.left)
    &&& call_ensures(N::truncated, (numbers, edges.top), bitmap.top)
    &&& is_extent(numbers, edges.left, edges.right, bitmap.width)
    &&& is_extent(numbers, edges.top, edges.bottom, bitmap.height)
    &&& bitmap.width > 0
    &&& bitmap.height > 0
    &&& bitmap.format == mode_format(mode)
    &&& bitmap.bytes_per_row == bitmap.width * bytes_per_pixel(bitmap.format)
    &&& bitmap.byte_count == bitmap.width * bytes_per_pixel(bitmap.format) * bitmap.height
}

/// `result` is the bitmap for a glyph with a rectangle around it. A glyph without ink, or without
/// pixels between its edges, needs none.
pub open spec fn is_planned<N: DoubleArithmetic>(
    numbers: &N,
    rect: GlyphRect,
    frame: GlyphFrame,
    subpixel_x: u8,
    mode: GlyphRenderMode,
    result: Result<Option<BitmapPlan>, BitmapTooLarge>,
) -> bool {
    if is_blank_rect(rect) {
        result == Ok::<Option<BitmapPlan>, BitmapTooLarge>(None)
    } else {
        exists|edges: GlyphEdges, width: i32, height: i32|
            {
                &&& are_edges(numbers, rect, frame, subpixel_x, edges)
                &&& #[trigger] is_extent(numbers, edges.left, edges.right, width)
                &&& #[trigger] is_extent(numbers, edges.top, edges.bottom, height)
                &&& match result {
                    Ok(None) => width <= 0 || height <= 0,
                    Ok(Some(bitmap)) => bitmap.width == width && bitmap.height == height
                        && covers_edges(numbers, edges, mode, bitmap),
                    Err(_) => width > 0 && height > 0 && width * bytes_per_pixel(
                        mode_format(mode),
                    ) * height > usize::MAX,
                }
            }
    }
}

/// The bitmap for a glyph with a rectangle around it, if it needs one.
pub fn plan_bitmap<N: DoubleArithmetic>(
    numbers: &N,
    rect: &GlyphRect,
    frame: &GlyphFrame,
    subpixel_x: u8,
    mode: GlyphRenderMode,
) -> (result: Result<Option<BitmapPlan>, BitmapTooLarge>)
    ensures
        is_planned(numbers, *rect, *frame, subpixel_x, mode, result),
{
    if rect.empty || rect.width.is_at_most_zero() || rect.height.is_at_most_zero() {
        return Ok(None);
    }
    let edges: GlyphEdges = glyph_edges(numbers, rect, frame, subpixel_x);
    let width: i32 = measure_extent(numbers, edges.left, edges.right);
    let height: i32 = measure_extent(numbers, edges.top, edges.bottom);
    if width <= 0 || height <= 0 {
        return Ok(None);
    }
    let format: RasterizedGlyphFormat = format_for_mode(mode);
    let pixel: u128 = if format == RasterizedGlyphFormat::BgraColor {
        4
    } else {
        1
    };
    let row: u128 = width as u128 * pixel;
    assert(row * height <= 4 * 0x8000_0000 * 0x8000_0000) by (nonlinear_arith)
        requires
            0 <= row <= 4 * 0x8000_0000,
            0 < height <= 0x8000_0000,
    ;
    let count: u128 = row * height as u128;
    assert(row <= count) by (nonlinear_arith)
        requires
            count == row * height,
            height > 0,
            row >= 0,
    ;
    if count > usize::MAX as u128 {
        return Err(BitmapTooLarge);
    }
    let bitmap = BitmapPlan {
        edges,
        left: numbers.truncated(edges.left),
        top: numbers.truncated(edges.top),
        width,
        height,
        format,
        bytes_per_row: row as usize,
        byte_count: count as usize,
    };
    assert(covers_edges(numbers, edges, mode, bitmap));
    Ok(Some(bitmap))
}

/// `offset` is a subpixel variant over the number of variants, in logical pixels.
pub open spec fn is_drawing_offset<N: DoubleArithmetic>(
    numbers: &N,
    variant: u8,
    variants: u8,
    scale: Double,
    offset: Double,
) -> bool {
    exists|part: Double, parts: Double, share: Double|
        {
            &&& #[trigger] call_ensures(N::whole, (numbers, variant as i32), part)
            &&& #[trigger] call_ensures(N::whole, (numbers, variants as i32), parts)
            &&& #[trigger] call_ensures(N::double_quotient, (numbers, part, parts), share)
            &&& call_ensures(N::double_quotient, (numbers, share, scale), offset)
        }
}

/// A subpixel variant over the number of variants, in logical pixels.
fn drawing_offset<N: DoubleArithmetic>(
    numbers: &N,
    variant: u8,
    variants: u8,
    scale: Double,
) -> (offset: Double)
    ensures
        is_drawing_offset(numbers, variant, variants, scale, offset),
{
    let part: Double = numbers.whole(variant as i32);
    let parts: Double = numbers.whole(variants as i32);
    let share: Double = numbers.double_quotient(part, parts);
    numbers.double_quotient(share, scale)
}

/// `placement` is where a glyph is drawn in its bitmap: moved so that the left and the bottom edge
/// are at the bitmap's origin, and stroked twice as wide as it is made heavier.
pub open spec fn is_placement<N: DoubleArithmetic>(
    numbers: &N,
    glyph: NativeGlyph,
    frame: GlyphFrame,
    bitmap: BitmapPlan,
    placement: GlyphPlacement,
) -> bool {
    &&& call_ensures(
        N::double_product,
        (numbers, frame.embolden, (Double { bits: DOUBLE_TWO_BITS })),
        placement.line_width,
    )
    &&& placement.translation.x == bitmap.edges.left.negated()
    &&& exists|rows: Double| #[trigger]
        call_ensures(N::whole, (numbers, bitmap.height), rows) && call_ensures(
            N::double_sum,
            (numbers, bitmap.edges.top, rows),
            placement.translation.y,
        )
    &&& is_drawing_offset(
        numbers,
        glyph.subpixel_variant.x,
        SUBPIXEL_VARIANTS_X,
        frame.scale,
        placement.offset.x,
    )
    &&& is_drawing_offset(
        numbers,
        glyph.subpixel_variant.y,
        SUBPIXEL_VARIANTS_Y,
        frame.scale,
        placement.offset.y,
    )
}

/// Where a glyph is drawn in its bitmap.
pub fn place_glyph<N: DoubleArithmetic>(
    numbers: &N,
    glyph: &NativeGlyph,
    frame: &GlyphFrame,
    bitmap: &BitmapPlan,
) -> (placement: GlyphPlacement)
    ensures
        is_placement(numbers, *glyph, *frame, *bitmap, placement),
{
    let line_width: Double = numbers.double_product(
        frame.embolden,
        Double { bits: DOUBLE_TWO_BITS },
    );
    let rows: Double = numbers.whole(bitmap.height);
    let down: Double = numbers.double_sum(bitmap.edges.top, rows);
    let across: Double = drawing_offset(
        numbers,
        glyph.subpixel_variant.x,
        SUBPIXEL_VARIANTS_X,
        frame.scale,
    );
    let along: Double = drawing_offset(
        numbers,
        glyph.subpixel_variant.y,
        SUBPIXEL_VARIANTS_Y,
        frame.scale,
    );
    GlyphPlacement {
        line_width,
        translation: Point { x: bitmap.edges.left.negate(), y: down },
        offset: Point { x: across, y: along },
    }
}

/// A bitmap has as many bytes as its rows, and a row as many as its pixels.
pub proof fn law_bitmaps_hold_their_rows<N: DoubleArithmetic>(
    numbers: &N,
    rect: GlyphRect,
    frame: GlyphFrame,
    subpixel_x: u8,
    mode: GlyphRenderMode,
    bitmap: BitmapPlan,
)
    requires
        is_planned(
            numbers,
            rect,
            frame,
            subpixel_x,
            mode,
            Ok::<Option<BitmapPlan>, BitmapTooLarge>(Some(bitmap)),
        ),
    ensures
        !is_blank_rect(rect),
        bitmap.byte_count == bitmap.bytes_per_row * bitmap.height,
        bitmap.bytes_per_row == bitmap.width * bytes_per_pixel(bitmap.format),
        bitmap.byte_count > 0,
{
    let row = bitmap.width * bytes_per_pixel(bitmap.format);
    let height = bitmap.height as int;
    assert(row * height > 0) by (nonlinear_arith)
        requires
            row > 0,
            height > 0,
    ;
}

/// The host gives one answer to each question that the edges of a glyph rest on.
pub open spec fn answers_once<N: DoubleArithmetic>(numbers: &N) -> bool {
    &&& forall|value: Scalar, first: Double, second: Double|
        #[trigger] call_ensures(N::widened, (numbers, value), first) && #[trigger] call_ensures(
            N::widened,
            (numbers, value),
            second,
        ) ==> first == second
    &&& forall|value: Double, first: Double, second: Double|
        #[trigger] call_ensures(N::tangent, (numbers, value), first) && #[trigger] call_ensures(
            N::tangent,
            (numbers, value),
            second,
        ) ==> first == second
    &&& forall|left: Double, right: Double, first: Double, second: Double|
        #[trigger] call_ensures(N::double_quotient, (numbers, left, right), first)
            && #[trigger] call_ensures(N::double_quotient, (numbers, left, right), second)
            ==> first == second
    &&& forall|left: Double, right: Double, first: Double, second: Double|
        #[trigger] call_ensures(N::double_sum, (numbers, left, right), first)
            && #[trigger] call_ensures(N::double_sum, (numbers, left, right), second) ==> first
            == second
    &&& forall|left: Double, right: Double, first: Double, second: Double|
        #[trigger] call_ensures(N::double_difference, (numbers, left, right), first)
            && #[trigger] call_ensures(N::double_difference, (numbers, left, right), second)
            ==> first == second
    &&& forall|left: Double, right: Double, first: Double, second: Double|
        #[trigger] call_ensures(N::double_product, (numbers, left, right), first)
            && #[trigger] call_ensures(N::double_product, (numbers, left, right), second)
            ==> first == second
    &&& forall|value: Double, first: Double, second: Double|
        #[trigger] call_ensures(N::floor, (numbers, value), first) && #[trigger] call_ensures(
            N::floor,
            (numbers, value),
            second,
        ) ==> first == second
    &&& forall|value: Double, first: Double, second: Double|
        #[trigger] call_ensures(N::ceiling, (numbers, value), first) && #[trigger] call_ensures(
            N::ceiling,
            (numbers, value),
            second,
        ) ==> first == second
    &&& forall|value: Double, first: i32, second: i32|
        #[trigger] call_ensures(N::truncated, (numbers, value), first) && #[trigger] call_ensures(
            N::truncated,
            (numbers, value),
            second,
        ) ==> first == second
}

/// `next` is one more than a number.
pub open spec fn is_next<N: DoubleArithmetic>(numbers: &N, value: Double, next: Double) -> bool {
    call_ensures(N::double_sum, (numbers, value, (Double { bits: DOUBLE_ONE_BITS })), next)
}

/// Whether one more than the right edge of a glyph is one more pixel.
pub open spec fn next_edge_is_one_wider<N: DoubleArithmetic>(
    numbers: &N,
    edges: GlyphEdges,
) -> bool {
    forall|next: Double, width: i32, wider: i32|
        {
            &&& #[trigger] is_extent(numbers, edges.left, edges.right, width)
            &&& is_next(numbers, edges.right, next)
            &&& #[trigger] is_extent(numbers, edges.left, next, wider)
        } ==> wider == width + 1
}

/// Where the host gives one answer to each question, a glyph has one frame.
pub(crate) proof fn lemma_frames_are_equal<N: DoubleArithmetic>(
    numbers: &N,
    glyph: NativeGlyph,
    other: NativeGlyph,
    first: GlyphFrame,
    second: GlyphFrame,
)
    requires
        answers_once(numbers),
        glyph == (NativeGlyph { subpixel_variant: glyph.subpixel_variant, ..other }),
        is_frame(numbers, glyph, first),
        is_frame(numbers, other, second),
    ensures
        first == second,
{
}

/// Where the host gives one answer to each question, the edges of a glyph that lies between pixels
/// are those of the aligned glyph, but for the right one, which is the next.
proof fn lemma_shifted_edges<N: DoubleArithmetic>(
    numbers: &N,
    rect: GlyphRect,
    frame: GlyphFrame,
    subpixel_x: u8,
    aligned: GlyphEdges,
    shifted: GlyphEdges,
)
    requires
        answers_once(numbers),
        subpixel_x > 0,
        are_edges(numbers, rect, frame, 0, aligned),
        are_edges(numbers, rect, frame, subpixel_x, shifted),
    ensures
        shifted.left == aligned.left,
        shifted.top == aligned.top,
        shifted.bottom == aligned.bottom,
        is_next(numbers, aligned.right, shifted.right),
{
}

/// A glyph that lies between pixels is drawn into a bitmap that is one pixel wider than that of
/// the aligned glyph, at the same origin and of the same height.
///
/// This is where the host gives one answer to each question, and where one more than the right
/// edge is one more pixel.
pub proof fn law_shifted_glyphs_are_one_pixel_wider<N: DoubleArithmetic>(
    numbers: &N,
    rect: GlyphRect,
    frame: GlyphFrame,
    subpixel_x: u8,
    mode: GlyphRenderMode,
    aligned: BitmapPlan,
    planned: Result<Option<BitmapPlan>, BitmapTooLarge>,
)
    requires
        answers_once(numbers),
        next_edge_is_one_wider(numbers, aligned.edges),
        subpixel_x > 0,
        is_planned(
            numbers,
            rect,
            frame,
            0,
            mode,
            Ok::<Option<BitmapPlan>, BitmapTooLarge>(Some(aligned)),
        ),
        is_planned(numbers, rect, frame, subpixel_x, mode, planned),
    ensures
        match planned {
            Ok(Some(shifted)) => {
                &&& shifted.width == aligned.width + 1
                &&& shifted.height == aligned.height
                &&& shifted.left == aligned.left
                &&& shifted.top == aligned.top
                &&& shifted.format == aligned.format
            },
            Ok(None) => false,
            Err(_) => true,
        },
{
    let (edges, width, height) = choose|edges: GlyphEdges, width: i32, height: i32|
        {
            &&& are_edges(numbers, rect, frame, subpixel_x, edges)
            &&& #[trigger] is_extent(numbers, edges.left, edges.right, width)
            &&& #[trigger] is_extent(numbers, edges.top, edges.bottom, height)
            &&& match planned {
                Ok(None) => width <= 0 || height <= 0,
                Ok(Some(bitmap)) => bitmap.width == width && bitmap.height == height
                    && covers_edges(numbers, edges, mode, bitmap),
                Err(_) => width > 0 && height > 0 && width * bytes_per_pixel(mode_format(mode))
                    * height > usize::MAX,
            }
        };
    lemma_shifted_edges(numbers, rect, frame, subpixel_x, aligned.edges, edges);
    assert(is_extent(numbers, aligned.edges.left, aligned.edges.right, aligned.width));
    assert(is_extent(numbers, aligned.edges.left, edges.right, width));
}

} // verus!
