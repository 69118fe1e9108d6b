//! The rasterizer that draws through CoreText and CoreGraphics.
//!
//! The host makes the native calls, and computes with the platform's numbers. This module keeps
//! the native faces, sets the drawing of a glyph up, and turns what was drawn into a glyph
//! raster.

use crate::blob::blob_bytes;
use crate::double::{Double, DoubleArithmetic};
use crate::geometry::{Bounds, DevicePixels, Point, Size};
use crate::mac_geometry::{
    answers_once, are_edges, format_for_mode, frame_glyph, is_frame, is_placement, is_planned,
    law_shifted_glyphs_are_one_pixel_wider, lemma_frames_are_equal, mode_format,
    next_edge_is_one_wider, place_glyph, plan_bitmap, BitmapPlan, BitmapTooLarge, GlyphEdges,
    GlyphFrame, GlyphPlacement, GlyphRect, NativeGlyph,
};
use crate::native_face::{is_native_face, NativeFace, NativeFaceError, NativeFonts};
use crate::raster::{
    bytes_per_pixel, convert_pixels, pixels_mapped, GlyphRenderMode, Pixel, PreparedRasterStyle,
    RasterColorEffect, RasterStyleRequest, RasterizedGlyph, RasterizedGlyphFormat, Rgba8,
    TextRenderingMode,
};
use crate::rasterizer::GlyphRasterizer;
use crate::scalar::{Arithmetic, Scalar};
use crate::store::RasterFace;
use crate::text_run::Rgba;
use crate::text_system::RenderGlyphParams;
use std::collections::HashMap;
use vstd::prelude::*;

verus! {

broadcast use vstd::std_specs::hash::group_hash_axioms;

/// Why a glyph could not be rasterized.
#[derive(Clone, Copy, Debug, PartialEq, Eq, Structural)]
pub enum MacRasterError {
    /// The native face could not be made.
    Face(NativeFaceError),
    /// The font size is negative or not finite.
    InvalidFontSize,
    /// The scale factor is not a positive finite number.
    InvalidScaleFactor,
    /// Glyph identifiers are 16-bit.
    GlyphIdOutOfRange,
    /// The bitmap does not fit in memory.
    BitmapTooLarge,
}

/// What glyphs are painted with.
#[derive(Clone, Copy, Debug, PartialEq, Eq, Structural)]
pub enum ContextPaint {
    /// A gray, in quarters of white.
    Gray { quarters: u8 },
    /// A color.
    Color(Rgba8),
}

/// How a drawing context is set up, beyond what is the same for all glyphs: antialiased, with
/// subpixel positions that are not quantized.
#[derive(Clone, Copy, Debug, PartialEq, Eq, Structural)]
pub struct ContextSettings {
    /// Whether outlines are stroked as well as filled.
    pub stroke: bool,
    /// Whether fonts are smoothed, where that is set at all.
    pub smooth_fonts: Option<bool>,
    /// What outlines are filled and stroked with.
    pub paint: ContextPaint,
}

/// A drawing of a glyph.
#[derive(Clone, Copy, Debug)]
pub struct GlyphDrawing {
    /// The glyph.
    pub glyph: u16,
    /// The numbers of the glyph.
    pub frame: GlyphFrame,
    /// Where the glyph is drawn.
    pub placement: GlyphPlacement,
    /// How the drawing context is set up.
    pub settings: ContextSettings,
}

/// The platform's drawing. The host supplies it.
pub trait NativeCanvas: NativeFonts + Arithmetic + DoubleArithmetic {
    /// The rectangle around a glyph at a font size, once it is skewed.
    fn glyph_rect(
        &self,
        face: &Self::Descriptor,
        glyph: u16,
        font_size: Double,
        skew: Double,
    ) -> GlyphRect;

    /// The bytes of a bitmap that a glyph is drawn into, which is clear before. Bytes that are not
    /// given stay clear, and bytes behind the bitmap's are dropped.
    fn draw(
        &self,
        face: &Self::Descriptor,
        drawing: &GlyphDrawing,
        bitmap: &BitmapPlan,
    ) -> Vec<u8>;

    /// Turns a premultiplied pixel in red, green, blue order into a straight one in blue, green,
    /// red order.
    fn straighten(&self, pixel: Pixel) -> Pixel;

    /// A color, with the nearest eight-bit value per channel.
    fn rounded(&self, color: Rgba) -> Rgba8;

    /// The user's font smoothing preference: none, or a value, which may be a number.
    fn smoothing_preference(&self) -> Option<Option<i64>>;
}

/// Whether a font smoothing preference allows smoothing: any but the number zero does.
pub open spec fn allows_smoothing(preference: Option<Option<i64>>) -> bool {
    preference != Some(Some(0i64))
}

/// Whether a font smoothing preference allows smoothing.
pub fn font_smoothing_allowed(preference: Option<Option<i64>>) -> (allowed: bool)
    ensures
        allowed == allows_smoothing(preference),
{
    match preference {
        Some(Some(value)) => value != 0,
        _ => true,
    }
}

/// How a drawing context is set up for a style.
pub open spec fn settings_for(style: PreparedRasterStyle, embolden: bool) -> ContextSettings {
    ContextSettings {
        stroke: embolden,
        smooth_fonts: match style.color_effect {
            RasterColorEffect::Dilation(level) => Some(level > 0),
            _ => None,
        },
        paint: match style.color_effect {
            RasterColorEffect::Dilation(level) => ContextPaint::Gray { quarters: level },
            RasterColorEffect::Preblend(color) => ContextPaint::Color(color),
            RasterColorEffect::Independent => ContextPaint::Gray { quarters: 0 },
        },
    }
}

/// How a drawing context is set up for a style.
pub fn context_settings(style: PreparedRasterStyle, embolden: bool) -> (settings: ContextSettings)
    ensures
        settings == settings_for(style, embolden),
{
    match style.color_effect {
        RasterColorEffect::Dilation(level) => ContextSettings {
            stroke: embolden,
            smooth_fonts: Some(level > 0),
            paint: ContextPaint::Gray { quarters: level },
        },
        RasterColorEffect::Preblend(color) => ContextSettings {
            stroke: embolden,
            smooth_fonts: None,
            paint: ContextPaint::Color(color),
        },
        RasterColorEffect::Independent => ContextSettings {
            stroke: embolden,
            smooth_fonts: None,
            paint: ContextPaint::Gray { quarters: 0 },
        },
    }
}

/// The encodings of the shares that red, green and blue have in luminance: 0.2126, 0.7152 and
/// 0.0722.
pub const RED_SHARE_BITS: u32 = 0x3e59_b3d0;
pub const GREEN_SHARE_BITS: u32 = 0x3f37_1759;
pub const BLUE_SHARE_BITS: u32 = 0x3d93_dd98;

/// The encoding of one half.
pub const HALF_BITS: u32 = 0x3f00_0000;

/// The encodings of the numbers from one to four.
pub const ONE_BITS: u32 = 0x3f80_0000;
pub const TWO_BITS: u32 = 0x4000_0000;
pub const THREE_BITS: u32 = 0x4040_0000;
pub const FOUR_BITS: u32 = 0x4080_0000;

/// `luminance` is the luminance of a color.
pub open spec fn is_luminance<A: Arithmetic>(
    arithmetic: &A,
    color: Rgba,
    luminance: Scalar,
) -> bool {
    exists|red: Scalar, green: Scalar, blue: Scalar, both: Scalar|
        {
            &&& #[trigger] call_ensures(
                A::product,
                (arithmetic, (Scalar { bits: RED_SHARE_BITS }), color.red),
                red,
            )
            &&& #[trigger] call_ensures(
                A::product,
                (arithmetic, (Scalar { bits: GREEN_SHARE_BITS }), color.green),
                green,
            )
            &&& #[trigger] call_ensures(
                A::product,
                (arithmetic, (Scalar { bits: BLUE_SHARE_BITS }), color.blue),
                blue,
            )
            &&& #[trigger] call_ensures(A::sum, (arithmetic, red, green), both)
            &&& call_ensures(A::sum, (arithmetic, both, blue), luminance)
        }
}

/// The whole part of a number, at least zero and at most four. No number counts as zero.
pub open spec fn level_of(value: Scalar) -> u8 {
    if value.nan() || value.rank() < ONE_BITS {
        0
    } else if value.rank() < TWO_BITS {
        1
    } else if value.rank() < THREE_BITS {
        2
    } else if value.rank() < FOUR_BITS {
        3
    } else {
        4
    }
}

/// The whole part of a number, at least zero and at most four.
fn whole_level(value: Scalar) -> (level: u8)
    ensures
        level == level_of(value),
{
    if value.is_nan() || !(Scalar { bits: ONE_BITS }).is_at_most(value) {
        0
    } else if !(Scalar { bits: TWO_BITS }).is_at_most(value) {
        1
    } else if !(Scalar { bits: THREE_BITS }).is_at_most(value) {
        2
    } else if !(Scalar { bits: FOUR_BITS }).is_at_most(value) {
        3
    } else {
        4
    }
}

/// `level` is by how many steps glyphs of a color are dilated: four times its luminance, rounded
/// to the nearest whole number.
pub open spec fn is_dilation<A: Arithmetic>(arithmetic: &A, color: Rgba, level: u8) -> bool {
    exists|luminance: Scalar, quarters: Scalar, raised: Scalar|
        {
            &&& #[trigger] is_luminance(arithmetic, color, luminance)
            &&& #[trigger] call_ensures(
                A::product,
                (arithmetic, (Scalar { bits: FOUR_BITS }), luminance),
                quarters,
            )
            &&& #[trigger] call_ensures(
                A::sum,
                (arithmetic, quarters, (Scalar { bits: HALF_BITS })),
                raised,
            )
            &&& level == level_of(raised)
        }
}

/// By how many steps glyphs of a color are dilated.
pub fn dilation_for_color<A: Arithmetic>(arithmetic: &A, color: Rgba) -> (level: u8)
    ensures
        is_dilation(arithmetic, color, level),
        level <= 4,
{
    let red: Scalar = arithmetic.product(Scalar { bits: RED_SHARE_BITS }, color.red);
    let green: Scalar = arithmetic.product(Scalar { bits: GREEN_SHARE_BITS }, color.green);
    let both: Scalar = arithmetic.sum(red, green);
    let blue: Scalar = arithmetic.product(Scalar { bits: BLUE_SHARE_BITS }, color.blue);
    let luminance: Scalar = arithmetic.sum(both, blue);
    let quarters: Scalar = arithmetic.product(Scalar { bits: FOUR_BITS }, luminance);
    let raised: Scalar = arithmetic.sum(quarters, Scalar { bits: HALF_BITS });
    assert(is_luminance(arithmetic, color, luminance));
    whole_level(raised)
}

/// The bytes of a bitmap: those that were drawn, as far as they reach, and clear ones.
pub open spec fn bitmap_bytes(drawn: Seq<u8>, count: usize) -> Seq<u8> {
    Seq::new(
        count as nat,
        |at: int|
            if at < drawn.len() {
                drawn[at]
            } else {
                0u8
            },
    )
}

/// The bytes of a bitmap.
fn fit_bitmap(drawn: Vec<u8>, count: usize) -> (bytes: Vec<u8>)
    ensures
        bytes@ == bitmap_bytes(drawn@, count),
{
    let mut bytes: Vec<u8> = drawn;
    bytes.resize(count, 0);
    bytes
}

/// `glyph` is the raster of a bitmap that was drawn.
pub open spec fn is_drawn_raster<C: NativeCanvas>(
    canvas: &C,
    bitmap: BitmapPlan,
    drawn: Seq<u8>,
    glyph: RasterizedGlyph,
) -> bool {
    &&& glyph.bounds.origin == (Point {
        x: DevicePixels(bitmap.left),
        y: DevicePixels(bitmap.top),
    })
    &&& glyph.bounds.size == glyph.size
    &&& glyph.size == (Size {
        width: DevicePixels(bitmap.width),
        height: DevicePixels(bitmap.height),
    })
    &&& glyph.format == bitmap.format
    &&& if bitmap.format == RasterizedGlyphFormat::BgraColor {
        pixels_mapped(
            bitmap_bytes(drawn, bitmap.byte_count),
            glyph.pixels@,
            |before: Pixel, after: Pixel| call_ensures(C::straighten, (canvas, before), after),
        )
    } else {
        glyph.pixels@ == bitmap_bytes(drawn, bitmap.byte_count)
    }
}

/// Turns a bitmap that was drawn into a glyph raster.
pub fn finish_bitmap<C: NativeCanvas>(canvas: &C, bitmap: &BitmapPlan, drawn: Vec<u8>) -> (glyph:
    RasterizedGlyph)
    ensures
        is_drawn_raster(canvas, *bitmap, drawn@, glyph),
{
    let mut pixels: Vec<u8> = fit_bitmap(drawn, bitmap.byte_count);
    let ghost start = pixels@;
    if bitmap.format == RasterizedGlyphFormat::BgraColor {
        let straighten = |pixel: Pixel| -> (straight: Pixel)
            ensures
                call_ensures(C::straighten, (canvas, pixel), straight),
            { canvas.straighten(pixel) };
        convert_pixels(&mut pixels, straighten);
        assert(pixels_mapped(
            start,
            pixels@,
            |before: Pixel, after: Pixel| call_ensures(C::straighten, (canvas, before), after),
        ));
    }
    let size = Size { width: DevicePixels(bitmap.width), height: DevicePixels(bitmap.height) };
    RasterizedGlyph {
        bounds: Bounds {
            origin: Point { x: DevicePixels(bitmap.left), y: DevicePixels(bitmap.top) },
            size,
        },
        size,
        format: bitmap.format,
        pixels,
    }
}

/// CoreText and CoreGraphics rasterization for the exact face selected by shaping.
pub struct MacGlyphRasterizer<C: NativeCanvas> {
    canvas: C,
    faces: HashMap<usize, NativeFace<C>>,
    sources: HashMap<u64, C::Source>,
}

/// The native faces and the font bytes that a rasterizer holds.
pub struct NativeFaces<C: NativeCanvas> {
    /// Native faces, by font.
    pub faces: Map<usize, NativeFace<C>>,
    /// Font bytes, by the identifier of their source.
    pub sources: Map<u64, C::Source>,
}

/// `after` and `outcome` are what looking for the native face of a font makes of `before` and
/// gives.
///
/// A font that has a native face keeps it. Another gets one that reads from the bytes of its
/// source, which all fonts with that source share, or from bytes of its own. Nothing changes
/// where that fails.
pub open spec fn is_looked_up<C: NativeCanvas>(
    canvas: &C,
    before: NativeFaces<C>,
    face: RasterFace<'_>,
    after: NativeFaces<C>,
    outcome: Result<NativeFace<C>, NativeFaceError>,
) -> bool {
    if before.faces.contains_key(face.font_id.0) {
        after == before && outcome == Ok::<NativeFace<C>, NativeFaceError>(
            before.faces[face.font_id.0],
        )
    } else {
        exists|
            shared: C::Source,
            kept: C::Source,
            made: Result<(NativeFace<C>, bool), NativeFaceError>,
        |
            {
                &&& is_shared_source(canvas, before, face, shared)
                &&& #[trigger] call_ensures(C::share, (canvas, &shared), kept)
                &&& #[trigger] is_native_face(
                    canvas,
                    blob_bytes(*face.source),
                    face.face_index,
                    face.variations,
                    shared,
                    made,
                )
                &&& match made {
                    Err(error) => after == before && outcome == Err::<
                        NativeFace<C>,
                        NativeFaceError,
                    >(error),
                    Ok((native, is_shared)) => {
                        &&& outcome == Ok::<NativeFace<C>, NativeFaceError>(native)
                        &&& after.faces == before.faces.insert(face.font_id.0, native)
                        &&& after.sources == if is_shared && !before.sources.contains_key(
                            face.source_id,
                        ) {
                            before.sources.insert(face.source_id, kept)
                        } else {
                            before.sources
                        }
                    },
                }
            }
    }
}

/// `shared` is a handle to the bytes of a face's source: those that are held, or new ones.
pub open spec fn is_shared_source<C: NativeCanvas>(
    canvas: &C,
    held: NativeFaces<C>,
    face: RasterFace<'_>,
    shared: C::Source,
) -> bool {
    if held.sources.contains_key(face.source_id) {
        call_ensures(C::share, (canvas, &held.sources[face.source_id]), shared)
    } else {
        exists|bytes: Vec<u8>| #[trigger]
            call_ensures(C::source_from_bytes, (canvas, bytes), shared) && bytes@ == blob_bytes(
                *face.source,
            )
    }
}

/// The error for which a glyph is refused once its face is there, if there is one: the first of a
/// bad size, a bad scale and an identifier that is too large.
pub open spec fn glyph_refusal(params: RenderGlyphParams) -> Option<MacRasterError> {
    if !(params.font_size.0.finite() && params.font_size.0.at_least_zero()) {
        Some(MacRasterError::InvalidFontSize)
    } else if !(params.scale_factor.finite() && params.scale_factor.positive()) {
        Some(MacRasterError::InvalidScaleFactor)
    } else if params.glyph_id.0 > 0xffff {
        Some(MacRasterError::GlyphIdOutOfRange)
    } else {
        None
    }
}

/// The glyph that parameters ask for, in a face.
pub open spec fn native_glyph_of(face: RasterFace<'_>, params: RenderGlyphParams) -> NativeGlyph {
    NativeGlyph {
        glyph: params.glyph_id.0 as u16,
        font_size: params.font_size,
        scale_factor: params.scale_factor,
        subpixel_variant: params.subpixel_variant,
        skew_degrees: face.synthesis.skew_degrees,
        embolden: face.synthesis.embolden,
    }
}

/// The glyph that parameters ask for, in a face, unless they are refused.
fn check_glyph(face: &RasterFace<'_>, params: &RenderGlyphParams) -> (glyph: Result<
    NativeGlyph,
    MacRasterError,
>)
    ensures
        match glyph {
            Ok(glyph) => glyph_refusal(*params) is None && glyph == native_glyph_of(*face, *params),
            Err(error) => glyph_refusal(*params) == Some(error),
        },
{
    if !(params.font_size.0.is_finite() && params.font_size.0.is_at_least_zero()) {
        return Err(MacRasterError::InvalidFontSize);
    }
    if !(params.scale_factor.is_finite() && params.scale_factor.is_positive()) {
        return Err(MacRasterError::InvalidScaleFactor);
    }
    if params.glyph_id.0 > 0xffff {
        return Err(MacRasterError::GlyphIdOutOfRange);
    }
    Ok(
        NativeGlyph {
            glyph: params.glyph_id.0 as u16,
            font_size: params.font_size,
            scale_factor: params.scale_factor,
            subpixel_variant: params.subpixel_variant,
            skew_degrees: face.synthesis.skew_degrees,
            embolden: face.synthesis.embolden,
        },
    )
}

/// `result` is the raster of a glyph of a native face.
pub open spec fn is_rasterized<C: NativeCanvas>(
    canvas: &C,
    native: NativeFace<C>,
    face: RasterFace<'_>,
    params: RenderGlyphParams,
    style: PreparedRasterStyle,
    result: Result<RasterizedGlyph, MacRasterError>,
) -> bool {
    if let Some(error) = glyph_refusal(params) {
        result == Err::<RasterizedGlyph, MacRasterError>(error)
    } else {
        exists|
            frame: GlyphFrame,
            rect: GlyphRect,
            planned: Result<Option<BitmapPlan>, BitmapTooLarge>,
        |
            {
                &&& is_frame(canvas, native_glyph_of(face, params), frame)
                &&& #[trigger] call_ensures(
                    C::glyph_rect,
                    (
                        canvas,
                        &native.descriptor,
                        params.glyph_id.0 as u16,
                        frame.font_size,
                        frame.skew,
                    ),
                    rect,
                )
                &&& #[trigger] is_planned(
                    canvas,
                    rect,
                    frame,
                    params.subpixel_variant.x,
                    style.mode,
                    planned,
                )
                &&& match planned {
                    Err(_) => result == Err::<RasterizedGlyph, MacRasterError>(
                        MacRasterError::BitmapTooLarge,
                    ),
                    Ok(None) => result matches Ok(raster) && raster.is_blank(
                        mode_format(style.mode),
                    ),
                    Ok(Some(bitmap)) => result matches Ok(raster) && is_drawn(
                        canvas,
                        native.descriptor,
                        native_glyph_of(face, params),
                        frame,
                        settings_for(style, face.synthesis.embolden),
                        bitmap,
                        raster,
                    ),
                }
            }
    }
}

/// `raster` is what drawing a glyph into a bitmap becomes.
pub open spec fn is_drawn<C: NativeCanvas>(
    canvas: &C,
    face: C::Descriptor,
    glyph: NativeGlyph,
    frame: GlyphFrame,
    settings: ContextSettings,
    bitmap: BitmapPlan,
    raster: RasterizedGlyph,
) -> bool {
    exists|drawing: &GlyphDrawing, drawn: Vec<u8>|
        {
            &&& #[trigger] call_ensures(C::draw, (canvas, &face, drawing, &bitmap), drawn)
            &&& drawing.glyph == glyph.glyph
            &&& drawing.frame == frame
            &&& drawing.settings == settings
            &&& is_placement(canvas, glyph, frame, bitmap, drawing.placement)
            &&& is_drawn_raster(canvas, bitmap, drawn@, raster)
        }
}

/// Rasterizes a glyph of a native face.
fn rasterize_native<C: NativeCanvas>(
    canvas: &C,
    native: &NativeFace<C>,
    face: &RasterFace<'_>,
    params: &RenderGlyphParams,
    style: PreparedRasterStyle,
) -> (result: Result<RasterizedGlyph, MacRasterError>)
    ensures
        is_rasterized(canvas, *native, *face, *params, style, result),
{
    let glyph: NativeGlyph = match check_glyph(face, params) {
        Ok(glyph) => glyph,
        Err(error) => return Err(error),
    };
    let frame: GlyphFrame = frame_glyph(canvas, &glyph);
    let rect: GlyphRect = canvas.glyph_rect(
        &native.descriptor,
        glyph.glyph,
        frame.font_size,
        frame.skew,
    );
    let planned: Result<Option<BitmapPlan>, BitmapTooLarge> = plan_bitmap(
        canvas,
        &rect,
        &frame,
        params.subpixel_variant.x,
        style.mode,
    );
    match planned {
        Err(_) => Err(MacRasterError::BitmapTooLarge),
        Ok(None) => Ok(RasterizedGlyph::empty(format_for_mode(style.mode))),
        Ok(Some(bitmap)) => {
            let settings: ContextSettings = context_settings(style, face.synthesis.embolden);
            let placement: GlyphPlacement = place_glyph(canvas, &glyph, &frame, &bitmap);
            let drawing = GlyphDrawing { glyph: glyph.glyph, frame, placement, settings };
            let drawn: Vec<u8> = canvas.draw(&native.descriptor, &drawing, &bitmap);
            let raster: RasterizedGlyph = finish_bitmap(canvas, &bitmap, drawn);
            assert(is_drawn(
                canvas,
                native.descriptor,
                native_glyph_of(*face, *params),
                frame,
                settings_for(style, face.synthesis.embolden),
                bitmap,
                raster,
            ));
            Ok(raster)
        },
    }
}

impl<C: NativeCanvas> MacGlyphRasterizer<C> {
    /// The platform's drawing.
    pub closed spec fn canvas(&self) -> C {
        self.canvas
    }

    /// What the rasterizer holds.
    pub closed spec fn held(&self) -> NativeFaces<C> {
        NativeFaces { faces: self.faces@, sources: self.sources@ }
    }

    /// A rasterizer that holds no face yet.
    pub fn new(canvas: C) -> (rasterizer: Self)
        ensures
            rasterizer.canvas() == canvas,
            rasterizer.held().faces == Map::<usize, NativeFace<C>>::empty(),
            rasterizer.held().sources == Map::<u64, C::Source>::empty(),
    {
        MacGlyphRasterizer { canvas, faces: HashMap::new(), sources: HashMap::new() }
    }

    /// Makes sure that a font has a native face.
    fn ensure_native_face(&mut self, face: &RasterFace<'_>) -> (result: Result<
        (),
        NativeFaceError,
    >)
        ensures
            final(self).canvas() == old(self).canvas(),
            match result {
                Ok(()) => final(self).held().faces.contains_key(face.font_id.0) && is_looked_up(
                    &old(self).canvas(),
                    old(self).held(),
                    *face,
                    final(self).held(),
                    Ok::<NativeFace<C>, NativeFaceError>(
                        final(self).held().faces[face.font_id.0],
                    ),
                ),
                Err(error) => is_looked_up(
                    &old(self).canvas(),
                    old(self).held(),
                    *face,
                    final(self).held(),
                    Err::<NativeFace<C>, NativeFaceError>(error),
                ),
            },
    {
        if self.faces.contains_key(&face.font_id.0) {
            return Ok(());
        }
        let data: &[u8] = face.data();
        let known: bool = self.sources.contains_key(&face.source_id);
        let shared: C::Source = match self.sources.get(&face.source_id) {
            Some(source) => self.canvas.share(source),
            None => {
                let bytes: Vec<u8> = vstd::slice::slice_to_vec(data);
                self.canvas.source_from_bytes(bytes)
            },
        };
        let kept: C::Source = self.canvas.share(&shared);
        let ghost handle = shared;
        let made: Result<(NativeFace<C>, bool), NativeFaceError> = NativeFace::new(
            &self.canvas,
            data,
            face.face_index,
            face.variations,
            shared,
        );
        assert(is_shared_source(&self.canvas, self.held(), *face, handle));
        match made {
            Err(error) => Err(error),
            Ok((native, is_shared)) => {
                if is_shared && !known {
                    self.sources.insert(face.source_id, kept);
                }
                self.faces.insert(face.font_id.0, native);
                Ok(())
            },
        }
    }

    /// The native face of a font, made unless it is there.
    pub fn native_face(&mut self, face: &RasterFace<'_>) -> (result: Result<
        &NativeFace<C>,
        NativeFaceError,
    >)
        ensures
            final(self).canvas() == old(self).canvas(),
            is_looked_up(
                &old(self).canvas(),
                old(self).held(),
                *face,
                final(self).held(),
                match result {
                    Ok(native) => Ok(*native),
                    Err(error) => Err(error),
                },
            ),
    {
        match self.ensure_native_face(face) {
            Err(error) => Err(error),
            Ok(()) => Ok(self.faces.get(&face.font_id.0).unwrap()),
        }
    }
}

/// `style` is what a scene request comes down to. Text is never sampled per color channel; its
/// color shows as dilation, where the user allows font smoothing.
pub open spec fn is_mac_style<C: NativeCanvas>(
    canvas: &C,
    request: RasterStyleRequest,
    style: PreparedRasterStyle,
) -> bool {
    if request.requested_mode == GlyphRenderMode::Color {
        &&& style.mode == GlyphRenderMode::Color
        &&& style.color_effect matches RasterColorEffect::Preblend(color)
        &&& call_ensures(C::rounded, (canvas, request.scene_color), color)
    } else {
        &&& style.mode == GlyphRenderMode::Grayscale
        &&& style.color_effect matches RasterColorEffect::Dilation(level)
        &&& exists|preference: Option<Option<i64>>|
            {
                &&& #[trigger] call_ensures(C::smoothing_preference, (canvas,), preference)
                &&& if allows_smoothing(preference) {
                    is_dilation(canvas, request.scene_color, level)
                } else {
                    level == 0
                }
            }
    }
}

/// The pixels of a raster fill its dimensions, whatever the platform drew.
pub proof fn law_rasters_fill_their_dimensions<C: NativeCanvas>(
    canvas: &C,
    native: NativeFace<C>,
    face: RasterFace<'_>,
    params: RenderGlyphParams,
    style: PreparedRasterStyle,
    raster: RasterizedGlyph,
)
    requires
        is_rasterized(
            canvas,
            native,
            face,
            params,
            style,
            Ok::<RasterizedGlyph, MacRasterError>(raster),
        ),
    ensures
        raster.well_formed(),
        raster.format == mode_format(style.mode),
{
    let width = raster.size.width.0 as int;
    let height = raster.size.height.0 as int;
    let pixel = bytes_per_pixel(mode_format(style.mode));
    assert((width * pixel) * height == width * height * pixel) by (nonlinear_arith);
}

/// Whether the platform has one rectangle for each glyph.
pub open spec fn measures_once<C: NativeCanvas>(canvas: &C, face: C::Descriptor) -> bool {
    forall|glyph: u16, font_size: Double, skew: Double, first: GlyphRect, second: GlyphRect|
        #[trigger] call_ensures(C::glyph_rect, (canvas, &face, glyph, font_size, skew), first)
            && #[trigger] call_ensures(
            C::glyph_rect,
            (canvas, &face, glyph, font_size, skew),
            second,
        ) ==> first == second
}

/// The raster of a glyph that lies between pixels is one pixel wider than that of the aligned
/// glyph, at the same origin and of the same height.
///
/// This is where the host gives one answer to each question, and where one more than the right
/// edge of the aligned glyph is one more pixel.
pub proof fn law_shifted_rasters_are_one_pixel_wider<C: NativeCanvas>(
    canvas: &C,
    native: NativeFace<C>,
    face: RasterFace<'_>,
    params: RenderGlyphParams,
    shifted_params: RenderGlyphParams,
    style: PreparedRasterStyle,
    aligned: RasterizedGlyph,
    shifted: RasterizedGlyph,
)
    requires
        answers_once(canvas),
        measures_once(canvas, native.descriptor),
        forall|frame: GlyphFrame, rect: GlyphRect, edges: GlyphEdges|
            {
                &&& is_frame(canvas, native_glyph_of(face, params), frame)
                &&& call_ensures(
                    C::glyph_rect,
                    (
                        canvas,
                        &native.descriptor,
                        params.glyph_id.0 as u16,
                        frame.font_size,
                        frame.skew,
                    ),
                    rect,
                )
                &&& #[trigger] are_edges(canvas, rect, frame, 0, edges)
            } ==> next_edge_is_one_wider(canvas, edges),
        params.subpixel_variant.x == 0,
        shifted_params == (RenderGlyphParams {
            subpixel_variant: shifted_params.subpixel_variant,
            ..params
        }),
        shifted_params.subpixel_variant.x > 0,
        is_rasterized(
            canvas,
            native,
            face,
            params,
            style,
            Ok::<RasterizedGlyph, MacRasterError>(aligned),
        ),
        is_rasterized(
            canvas,
            native,
            face,
            shifted_params,
            style,
            Ok::<RasterizedGlyph, MacRasterError>(shifted),
        ),
        aligned.size.width.0 > 0,
    ensures
        shifted.bounds.origin == aligned.bounds.origin,
        shifted.size.width.0 == aligned.size.width.0 + 1,
        shifted.size.height == aligned.size.height,
        shifted.format == aligned.format,
{
    let (frame, rect, planned) = lemma_planned(
        canvas,
        native,
        face,
        params,
        style,
        aligned,
    );
    let (other_frame, other_rect, shifted_planned) = lemma_planned(
        canvas,
        native,
        face,
        shifted_params,
        style,
        shifted,
    );
    lemma_frames_are_equal(
        canvas,
        native_glyph_of(face, params),
        native_glyph_of(face, shifted_params),
        frame,
        other_frame,
    );
    let bitmap = planned->Ok_0->0;
    assert(are_edges(canvas, rect, frame, 0, bitmap.edges));
    law_shifted_glyphs_are_one_pixel_wider(
        canvas,
        rect,
        frame,
        shifted_params.subpixel_variant.x,
        style.mode,
        bitmap,
        shifted_planned,
    );
}

/// How the bitmap of a raster was planned.
proof fn lemma_planned<C: NativeCanvas>(
    canvas: &C,
    native: NativeFace<C>,
    face: RasterFace<'_>,
    params: RenderGlyphParams,
    style: PreparedRasterStyle,
    raster: RasterizedGlyph,
) -> (how: (GlyphFrame, GlyphRect, Result<Option<BitmapPlan>, BitmapTooLarge>))
    requires
        is_rasterized(
            canvas,
            native,
            face,
            params,
            style,
            Ok::<RasterizedGlyph, MacRasterError>(raster),
        ),
    ensures
        is_frame(canvas, native_glyph_of(face, params), how.0),
        call_ensures(
            C::glyph_rect,
            (
                canvas,
                &native.descriptor,
                params.glyph_id.0 as u16,
                how.0.font_size,
                how.0.skew,
            ),
            how.1,
        ),
        is_planned(canvas, how.1, how.0, params.subpixel_variant.x, style.mode, how.2),
        match how.2 {
            Ok(Some(bitmap)) => {
                &&& raster.bounds.origin.x.0 == bitmap.left
                &&& raster.bounds.origin.y.0 == bitmap.top
                &&& raster.size.width.0 == bitmap.width
                &&& raster.size.height.0 == bitmap.height
                &&& raster.format == bitmap.format
            },
            Ok(None) => raster.size.width.0 == 0,
            Err(_) => false,
        },
{
    choose|
        frame: GlyphFrame,
        rect: GlyphRect,
        planned: Result<Option<BitmapPlan>, BitmapTooLarge>,
    |
        {
            &&& is_frame(canvas, native_glyph_of(face, params), frame)
            &&& #[trigger] call_ensures(
                C::glyph_rect,
                (
                    canvas,
                    &native.descriptor,
                    params.glyph_id.0 as u16,
                    frame.font_size,
                    frame.skew,
                ),
                rect,
            )
            &&& #[trigger] is_planned(
                canvas,
                rect,
                frame,
                params.subpixel_variant.x,
                style.mode,
                planned,
            )
            &&& match planned {
                Err(_) => false,
                Ok(None) => raster.is_blank(mode_format(style.mode)),
                Ok(Some(bitmap)) => is_drawn(
                    canvas,
                    native.descriptor,
                    native_glyph_of(face, params),
                    frame,
                    settings_for(style, face.synthesis.embolden),
                    bitmap,
                    raster,
                ),
            }
        }
}

impl<C: NativeCanvas> GlyphRasterizer for MacGlyphRasterizer<C> {
    type Error = MacRasterError;

    fn prepare_style(&self, request: RasterStyleRequest) -> (style: PreparedRasterStyle)
        ensures
            is_mac_style(&self.canvas(), request, style),
    {
        if request.requested_mode == GlyphRenderMode::Color {
            return PreparedRasterStyle {
                mode: GlyphRenderMode::Color,
                color_effect: RasterColorEffect::Preblend(
                    self.canvas.rounded(request.scene_color),
                ),
            };
        }
        let preference: Option<Option<i64>> = self.canvas.smoothing_preference();
        let level: u8 = if font_smoothing_allowed(preference) {
            dilation_for_color(&self.canvas, request.scene_color)
        } else {
            0
        };
        PreparedRasterStyle {
            mode: GlyphRenderMode::Grayscale,
            color_effect: RasterColorEffect::Dilation(level),
        }
    }

    fn rasterize(
        &mut self,
        face: RasterFace<'_>,
        params: &RenderGlyphParams,
        style: PreparedRasterStyle,
    ) -> (result: Result<RasterizedGlyph, MacRasterError>)
        ensures
            final(self).canvas() == old(self).canvas(),
            exists|outcome: Result<NativeFace<C>, NativeFaceError>|
                {
                    &&& #[trigger] is_looked_up(
                        &old(self).canvas(),
                        old(self).held(),
                        face,
                        final(self).held(),
                        outcome,
                    )
                    &&& match outcome {
                        Err(error) => result == Err::<RasterizedGlyph, MacRasterError>(
                            MacRasterError::Face(error),
                        ),
                        Ok(native) => is_rasterized(
                            &old(self).canvas(),
                            native,
                            face,
                            *params,
                            style,
                            result,
                        ),
                    }
                },
            result matches Ok(raster) ==> raster.well_formed(),
    {
        match self.ensure_native_face(&face) {
            Err(error) => Err(MacRasterError::Face(error)),
            Ok(()) => {
                let native: &NativeFace<C> = self.faces.get(&face.font_id.0).unwrap();
                let result: Result<RasterizedGlyph, MacRasterError> = rasterize_native(
                    &self.canvas,
                    native,
                    &face,
                    params,
                    style,
                );
                proof {
                    if result is Ok {
                        law_rasters_fill_their_dimensions(
                            &self.canvas,
                            *native,
                            face,
                            *params,
                            style,
                            result->Ok_0,
                        );
                    }
                }
                result
            },
        }
    }

    fn recommended_mode(&self) -> (mode: TextRenderingMode)
        ensures
            mode == TextRenderingMode::Grayscale,
    {
        TextRenderingMode::Grayscale
    }
}

/// A font keeps the native face that it has, whatever other faces are looked up.
pub proof fn law_native_faces_are_kept<C: NativeCanvas>(
    canvas: &C,
    before: NativeFaces<C>,
    face: RasterFace<'_>,
    after: NativeFaces<C>,
    outcome: Result<NativeFace<C>, NativeFaceError>,
    font: usize,
)
    requires
        is_looked_up(canvas, before, face, after, outcome),
        before.faces.contains_key(font),
    ensures
        after.faces.contains_key(font),
        after.faces[font] == before.faces[font],
{
}

/// At most one copy of the bytes of each source is held: a lookup adds none for a source that has
/// one, and none for any source but the face's own.
pub proof fn law_sources_are_held_once<C: NativeCanvas>(
    canvas: &C,
    before: NativeFaces<C>,
    face: RasterFace<'_>,
    after: NativeFaces<C>,
    outcome: Result<NativeFace<C>, NativeFaceError>,
    source: u64,
)
    requires
        is_looked_up(canvas, before, face, after, outcome),
    ensures
        before.sources.contains_key(source) ==> after.sources.contains_key(source)
            && after.sources[source] == before.sources[source],
        after.sources.contains_key(source) ==> before.sources.contains_key(source) || source
            == face.source_id,
{
}

} // verus!
