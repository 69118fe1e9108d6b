//! The portable rasterizer, which draws through `swash`.
//!
//! A renderer that the host supplies computes with single-precision numbers and makes the drawing
//! call. This module plans the drawing, and turns what was drawn into a glyph raster.

use crate::blob::blob_bytes;
use crate::color_glyphs::ColorGlyphKind;
use crate::geometry::{Bounds, DevicePixels, Point, Size};
use crate::raster::{
    channels_swapped, convert_pixels, convert_subpixel_mask_to_bgra, pixel_at,
    pixels_mapped, swap_channels, GlyphRenderMode, Pixel, PreparedRasterStyle, RasterColorEffect,
    RasterStyleRequest, RasterizedGlyph, RasterizedGlyphFormat, Rgba8,
};
use crate::rasterizer::GlyphRasterizer;
use crate::scalar::{Arithmetic, Scalar};
use crate::sfnt::{be32, is_font_version, COLLECTION_TAG};
use crate::store::RasterFace;
use crate::text_run::Rgba;
use crate::text_system::{RenderGlyphParams, SUBPIXEL_VARIANTS_X, SUBPIXEL_VARIANTS_Y};
use std::collections::HashMap;
use swash::scale::ScaleContext;
use swash::CacheKey;
use vstd::prelude::*;

verus! {

broadcast use vstd::std_specs::hash::group_hash_axioms;

/// The key of a font in the caches of `swash`.
#[verifier::external_type_specification]
#[verifier::external_body]
pub struct ExCacheKey(swash::CacheKey);

/// The caches and scratch space of `swash`.
#[verifier::external_type_specification]
#[verifier::external_body]
pub struct ExScaleContext(swash::scale::ScaleContext);

/// Whether bytes hold the start of a table directory at `at`, by its version.
pub open spec fn is_font_at(data: Seq<u8>, at: int) -> bool {
    at + 4 <= data.len() && is_font_version(be32(data, at))
}

/// How many faces bytes say that they hold: one in a font, and in a collection as many as its
/// header says.
pub open spec fn face_count(data: Seq<u8>) -> int {
    if data.len() >= 4 && be32(data, 0) == COLLECTION_TAG {
        if data.len() >= 12 {
            be32(data, 8)
        } else {
            0
        }
    } else if is_font_at(data, 0) {
        1
    } else {
        0
    }
}

/// Where the table directory of a face starts, if `swash` can read the face: at the start of a
/// font, and in a collection where its header says, if a font starts there.
pub open spec fn swash_face_offset(data: Seq<u8>, index: u32) -> Option<u32> {
    let entry = 12 + 4 * index;
    if index >= face_count(data) {
        None
    } else if is_font_at(data, 0) {
        Some(0u32)
    } else if entry + 4 <= data.len() && is_font_at(data, be32(data, entry)) {
        Some(be32(data, entry) as u32)
    } else {
        None
    }
}

/// Calls `swash`'s `FontRef::from_index`, and hands out where the face's table directory starts.
#[verifier::external_body]
fn face_offset(data: &[u8], index: u32) -> (offset: Option<u32>)
    ensures
        offset == swash_face_offset(data@, index),
{
    swash::FontRef::from_index(data, index as usize).map(|font| font.offset)
}

/// Calls `CacheKey::new`, which takes the next key from a counter of the process: it is none of
/// the keys that are in use. Which one it is, is not said.
#[verifier::external_body]
#[allow(unused_variables)]
fn new_cache_key(used: &HashMap<usize, CacheKey>) -> (key: CacheKey)
    ensures
        forall|font: usize| #[trigger] used@.contains_key(font) ==> used@[font] != key,
{
    CacheKey::new()
}

/// Calls `ScaleContext::new`. A context holds caches and scratch space only, so nothing is said
/// of it.
#[verifier::external_body]
fn new_scale_context() -> (context: ScaleContext) {
    ScaleContext::new()
}

/// Why the portable rasterizer refuses a glyph.
#[derive(Clone, Copy, Debug, PartialEq, Eq, Structural)]
pub enum SwashError {
    /// The scale factor is not a positive finite number.
    InvalidScaleFactor,
    /// The stored font face could not be parsed.
    UnparsableFace,
    /// Glyph identifiers are 16-bit.
    GlyphIdOutOfRange,
    /// Color glyph rasterization cannot use a dilation style.
    DilatedColorGlyph,
    /// The image does not fit in device pixels.
    ImageOutOfRange,
}

/// A form in which a font may hold a glyph.
#[derive(Clone, Copy, Debug, PartialEq, Eq, Structural)]
pub enum GlyphSource {
    /// A color outline, in the first palette.
    ColorOutline,
    /// The color bitmap that fits best.
    ColorBitmapBestFit,
    /// A bitmap of exactly the size.
    BitmapExactSize,
    /// An outline.
    Outline,
}

/// How a renderer samples coverage.
#[derive(Clone, Copy, Debug, PartialEq, Eq, Structural)]
pub enum MaskFormat {
    /// One value per pixel.
    Alpha,
    /// One value per color channel.
    SubpixelBgra,
}

/// What a renderer is asked to draw. Outlines are hinted.
pub struct RenderPlan<'a> {
    /// The bytes of the font file.
    pub data: &'a [u8],
    /// Where the table directory of the face starts.
    pub offset: u32,
    /// The key of the font in the renderer's caches.
    pub key: CacheKey,
    /// The number of pixels per em.
    pub size: Scalar,
    /// Normalized variation coordinates in axis order, as 2.14 fixed-point numbers.
    pub normalized_coords: &'a [i16],
    /// The forms to look for, the preferred first.
    pub sources: Vec<GlyphSource>,
    /// How coverage is sampled.
    pub format: MaskFormat,
    /// The color for parts of an outline that ask for the current color.
    pub default_color: Option<Rgba8>,
    /// Where the glyph lies between pixels.
    pub subpixel_offset: Point<Scalar>,
    /// By how much the outline is made heavier.
    pub embolden: Option<Scalar>,
    /// By how many degrees the outline is skewed.
    pub skew_degrees: Option<Scalar>,
    /// The glyph.
    pub glyph_id: u16,
}

/// What the bytes of an image are.
#[derive(Clone, Copy, Debug, PartialEq, Eq, Structural)]
pub enum ImageContent {
    /// One coverage byte per pixel.
    Mask,
    /// Four bytes per pixel: coverage in red, green, blue order.
    SubpixelMask,
    /// Four bytes per pixel: red, green, blue, alpha.
    Color,
}

/// What a renderer drew.
#[derive(Clone, Debug)]
pub struct GlyphImage {
    /// The left edge, from the glyph's origin.
    pub left: i32,
    /// The top edge, from the glyph's origin upwards.
    pub top: i32,
    /// The number of columns.
    pub width: u32,
    /// The number of rows.
    pub height: u32,
    /// What the bytes are.
    pub content: ImageContent,
    /// Whether colors are multiplied by their alpha.
    pub premultiplied: bool,
    /// The bytes.
    pub data: Vec<u8>,
}

/// Draws a glyph as planned. The host supplies it, with the arithmetic of the plan's numbers.
pub trait GlyphImageRenderer: Arithmetic {
    /// Draws a glyph, if the font has it in one of the forms.
    fn render(&mut self, context: &mut ScaleContext, plan: &RenderPlan<'_>) -> Option<GlyphImage>;

    /// A color, with the nearest eight-bit value per channel.
    fn rounded(&self, color: Rgba) -> Rgba8;

    /// Turns a premultiplied pixel in red, green, blue order into a straight one in blue, green,
    /// red order.
    fn straighten(&self, pixel: Pixel) -> Pixel;
}

/// Swash raster state used by Linux, web, and explicit fallback construction.
pub struct SwashGlyphRasterizer<R> {
    scale_context: ScaleContext,
    cache_keys: HashMap<usize, CacheKey>,
    renderer: R,
}

/// The forms to look for in a mode.
pub open spec fn sources_for(mode: GlyphRenderMode) -> Seq<GlyphSource> {
    if mode == GlyphRenderMode::Color {
        seq![GlyphSource::ColorOutline, GlyphSource::ColorBitmapBestFit, GlyphSource::Outline]
    } else {
        seq![GlyphSource::BitmapExactSize, GlyphSource::Outline]
    }
}

/// `offset` is a subpixel variant over the number of variants, along both axes.
pub open spec fn is_subpixel_offset<A: Arithmetic>(
    arithmetic: &A,
    variant: Point<u8>,
    offset: Point<Scalar>,
) -> bool {
    &&& is_share(arithmetic, variant.x, SUBPIXEL_VARIANTS_X, offset.x)
    &&& is_share(arithmetic, variant.y, SUBPIXEL_VARIANTS_Y, offset.y)
}

/// `share` is one integer over another.
pub open spec fn is_share<A: Arithmetic>(
    arithmetic: &A,
    part: u8,
    whole: u8,
    share: Scalar,
) -> bool {
    exists|dividend: Scalar, divisor: Scalar|
        {
            &&& #[trigger] call_ensures(A::from_integer, (arithmetic, part as u32), dividend)
            &&& #[trigger] call_ensures(A::from_integer, (arithmetic, whole as u32), divisor)
            &&& call_ensures(A::quotient, (arithmetic, dividend, divisor), share)
        }
}

/// Where a glyph lies between pixels.
pub fn subpixel_offset<A: Arithmetic>(params: &RenderGlyphParams, arithmetic: &A) -> (offset: Point<
    Scalar,
>)
    ensures
        is_subpixel_offset(arithmetic, params.subpixel_variant, offset),
{
    let across: Scalar = arithmetic.from_integer(params.subpixel_variant.x as u32);
    let columns: Scalar = arithmetic.from_integer(SUBPIXEL_VARIANTS_X as u32);
    let down: Scalar = arithmetic.from_integer(params.subpixel_variant.y as u32);
    let rows: Scalar = arithmetic.from_integer(SUBPIXEL_VARIANTS_Y as u32);
    Point { x: arithmetic.quotient(across, columns), y: arithmetic.quotient(down, rows) }
}

/// `plan` is the drawing of a glyph: the face at its size with the style's settings.
pub open spec fn is_render_plan<A: Arithmetic>(
    arithmetic: &A,
    face: RasterFace<'_>,
    params: RenderGlyphParams,
    style: PreparedRasterStyle,
    key: CacheKey,
    plan: RenderPlan<'_>,
) -> bool {
    &&& plan.data@ == blob_bytes(*face.source)
    &&& Some(plan.offset) == swash_face_offset(blob_bytes(*face.source), face.face_index)
    &&& plan.key == key
    &&& call_ensures(
        A::product,
        (arithmetic, params.font_size.0, params.scale_factor),
        plan.size,
    )
    &&& plan.normalized_coords@ == face.normalized_coords@
    &&& plan.sources@ == sources_for(style.mode)
    &&& plan.format == if style.mode == GlyphRenderMode::Subpixel {
        MaskFormat::SubpixelBgra
    } else {
        MaskFormat::Alpha
    }
    &&& plan.default_color == match style.color_effect {
        RasterColorEffect::Preblend(color) => Some(color),
        _ => None,
    }
    &&& is_subpixel_offset(arithmetic, params.subpixel_variant, plan.subpixel_offset)
    &&& match plan.embolden {
        Some(amount) => face.synthesis.embolden && is_embolden_amount(
            arithmetic,
            params,
            amount,
        ),
        None => !face.synthesis.embolden,
    }
    &&& plan.skew_degrees == face.synthesis.skew_degrees
    &&& plan.glyph_id == params.glyph_id.0
}

/// The encoding of the number 48.
pub const FORTY_EIGHT_BITS: u32 = 0x4240_0000;

/// `amount` is the size in pixels over 48.
pub open spec fn is_embolden_amount<A: Arithmetic>(
    arithmetic: &A,
    params: RenderGlyphParams,
    amount: Scalar,
) -> bool {
    exists|size: Scalar| #[trigger]
        call_ensures(A::product, (arithmetic, params.font_size.0, params.scale_factor), size)
            && call_ensures(
            A::quotient,
            (arithmetic, size, (Scalar { bits: FORTY_EIGHT_BITS })),
            amount,
        )
}

/// The error for which a glyph is refused before it is drawn, if there is one: the first of a bad
/// scale, a face that cannot be read and an identifier that is too large.
pub open spec fn refusal(face: RasterFace<'_>, params: RenderGlyphParams) -> Option<SwashError> {
    if !(params.scale_factor.finite() && params.scale_factor.positive()) {
        Some(SwashError::InvalidScaleFactor)
    } else if swash_face_offset(blob_bytes(*face.source), face.face_index) is None {
        Some(SwashError::UnparsableFace)
    } else if params.glyph_id.0 > 0xffff {
        Some(SwashError::GlyphIdOutOfRange)
    } else {
        None
    }
}

/// `after` is `before` with a key for the font: the one that it has, or a new one that no other
/// font has.
pub open spec fn keys_with_font(
    before: Map<usize, CacheKey>,
    after: Map<usize, CacheKey>,
    font: usize,
) -> bool {
    &&& after.contains_key(font)
    &&& if before.contains_key(font) {
        after == before
    } else {
        &&& after == before.insert(font, after[font])
        &&& forall|other: usize| #[trigger]
            before.contains_key(other) ==> before[other] != after[font]
    }
}

/// No two fonts share a key.
pub open spec fn keys_differ(keys: Map<usize, CacheKey>) -> bool {
    forall|font: usize, other: usize|
        #[trigger] keys.contains_key(font) && #[trigger] keys.contains_key(other) && font != other
            ==> keys[font] != keys[other]
}

impl<R> SwashGlyphRasterizer<R> {
    /// The keys of fonts in the renderer's caches.
    pub closed spec fn keys(&self) -> Map<usize, CacheKey> {
        self.cache_keys@
    }

    /// The renderer's caches and scratch space.
    pub closed spec fn context(&self) -> ScaleContext {
        self.scale_context
    }

    /// The renderer.
    pub closed spec fn renderer(&self) -> R {
        self.renderer
    }
}

impl<R: GlyphImageRenderer> SwashGlyphRasterizer<R> {
    /// A rasterizer that knows no font yet.
    pub fn new(renderer: R) -> (rasterizer: Self)
        ensures
            rasterizer.keys() == Map::<usize, CacheKey>::empty(),
            keys_differ(rasterizer.keys()),
            rasterizer.renderer() == renderer,
    {
        SwashGlyphRasterizer {
            scale_context: new_scale_context(),
            cache_keys: HashMap::new(),
            renderer,
        }
    }

    /// The renderer's key for a font: the one that it has, or a new one.
    fn cache_key(&mut self, font: usize) -> (key: CacheKey)
        ensures
            keys_with_font(old(self).keys(), final(self).keys(), font),
            keys_differ(old(self).keys()) ==> keys_differ(final(self).keys()),
            key == final(self).keys()[font],
            final(self).context() == old(self).context(),
            final(self).renderer() == old(self).renderer(),
    {
        if let Some(key) = self.cache_keys.get(&font) {
            return *key;
        }
        let key: CacheKey = new_cache_key(&self.cache_keys);
        self.cache_keys.insert(font, key);
        assert(self.keys() =~= old(self).keys().insert(font, key));
        key
    }

    /// Plans the drawing of a glyph.
    ///
    /// A font gets its key before its face is read, so that a face that cannot be read has one.
    pub fn plan<'a>(
        &mut self,
        face: &RasterFace<'a>,
        params: &RenderGlyphParams,
        style: PreparedRasterStyle,
    ) -> (result: Result<RenderPlan<'a>, SwashError>)
        ensures
            final(self).context() == old(self).context(),
            final(self).renderer() == old(self).renderer(),
            refusal(*face, *params) == Some(SwashError::InvalidScaleFactor) ==> final(self).keys()
                == old(self).keys(),
            refusal(*face, *params) != Some(SwashError::InvalidScaleFactor) ==> keys_with_font(
                old(self).keys(),
                final(self).keys(),
                face.font_id.0,
            ),
            keys_differ(old(self).keys()) ==> keys_differ(final(self).keys()),
            match result {
                Ok(plan) => refusal(*face, *params) is None && is_render_plan(
                    &old(self).renderer(),
                    *face,
                    *params,
                    style,
                    final(self).keys()[face.font_id.0],
                    plan,
                ),
                Err(error) => refusal(*face, *params) == Some(error),
            },
    {
        if !(params.scale_factor.is_finite() && params.scale_factor.is_positive()) {
            return Err(SwashError::InvalidScaleFactor);
        }
        let key: CacheKey = self.cache_key(face.font_id.0);
        let data: &'a [u8] = face.data();
        let offset: u32 = match face_offset(data, face.face_index) {
            Some(offset) => offset,
            None => return Err(SwashError::UnparsableFace),
        };
        let subpixel_offset: Point<Scalar> = subpixel_offset(params, &self.renderer);
        let size: Scalar = self.renderer.product(params.font_size.0, params.scale_factor);
        let mut sources: Vec<GlyphSource> = Vec::new();
        if style.mode == GlyphRenderMode::Color {
            sources.push(GlyphSource::ColorOutline);
            sources.push(GlyphSource::ColorBitmapBestFit);
        } else {
            sources.push(GlyphSource::BitmapExactSize);
        }
        sources.push(GlyphSource::Outline);
        assert(sources@ =~= sources_for(style.mode));
        let format: MaskFormat = if style.mode == GlyphRenderMode::Subpixel {
            MaskFormat::SubpixelBgra
        } else {
            MaskFormat::Alpha
        };
        let default_color: Option<Rgba8> = match style.color_effect {
            RasterColorEffect::Preblend(color) => Some(color),
            _ => None,
        };
        let embolden: Option<Scalar> = if face.synthesis.embolden {
            let pixels: Scalar = self.renderer.product(params.font_size.0, params.scale_factor);
            Some(self.renderer.quotient(pixels, Scalar { bits: FORTY_EIGHT_BITS }))
        } else {
            None
        };
        if params.glyph_id.0 > 0xffff {
            return Err(SwashError::GlyphIdOutOfRange);
        }
        Ok(
            RenderPlan {
                data,
                offset,
                key,
                size,
                normalized_coords: face.normalized_coords,
                sources,
                format,
                default_color,
                subpixel_offset,
                embolden,
                skew_degrees: face.synthesis.skew_degrees,
                glyph_id: params.glyph_id.0 as u16,
            },
        )
    }
}

/// The format of a raster without ink.
pub open spec fn blank_format(mode: GlyphRenderMode) -> RasterizedGlyphFormat {
    match mode {
        GlyphRenderMode::Subpixel => RasterizedGlyphFormat::BgraSubpixelMask,
        GlyphRenderMode::Color => RasterizedGlyphFormat::BgraColor,
        GlyphRenderMode::Grayscale => RasterizedGlyphFormat::AlphaMask,
    }
}

/// The color that a mask is filled with. Dilation has none.
pub open spec fn mask_color(effect: RasterColorEffect) -> Option<Rgba8> {
    match effect {
        RasterColorEffect::Preblend(color) => Some(color),
        RasterColorEffect::Independent => Some(Rgba8 { red: 0, green: 0, blue: 0, alpha: 255 }),
        RasterColorEffect::Dilation(_) => None,
    }
}

/// The share of an opacity that a coverage leaves, rounded to the nearest.
pub open spec fn covered_alpha(coverage: u8, alpha: u8) -> u8 {
    ((coverage * alpha + 127) / 255) as u8
}

/// The pixel of a mask per color channel that covers all channels alike.
pub open spec fn gray_pixel(coverage: u8) -> Pixel {
    Pixel { first: coverage, second: coverage, third: coverage, alpha: 0 }
}

/// The pixel of a color that a coverage leaves, in blue, green, red order.
pub open spec fn tinted_pixel(coverage: u8, color: Rgba8) -> Pixel {
    Pixel {
        first: color.blue,
        second: color.green,
        third: color.red,
        alpha: covered_alpha(coverage, color.alpha),
    }
}

/// `pixels` has one pixel for each coverage byte, as `pixel` makes them.
pub open spec fn are_expanded(
    coverage: Seq<u8>,
    pixels: Seq<u8>,
    pixel: spec_fn(u8) -> Pixel,
) -> bool {
    &&& pixels.len() == 4 * coverage.len()
    &&& forall|i: int|
        0 <= i < coverage.len() ==> #[trigger] pixel_at(pixels, i) == pixel(coverage[i])
}

/// Appends the four bytes of a pixel.
fn push_pixel(pixels: &mut Vec<u8>, pixel: Pixel)
    requires
        old(pixels)@.len() % 4 == 0,
    ensures
        final(pixels)@.len() == old(pixels)@.len() + 4,
        pixel_at(final(pixels)@, old(pixels)@.len() as int / 4) == pixel,
        forall|i: int|
            0 <= i < old(pixels)@.len() / 4 ==> #[trigger] pixel_at(final(pixels)@, i) == pixel_at(
                old(pixels)@,
                i,
            ),
{
    pixels.push(pixel.first);
    pixels.push(pixel.second);
    pixels.push(pixel.third);
    pixels.push(pixel.alpha);
}

/// Widens a mask to one coverage value per color channel.
pub fn widen_mask(coverage: &Vec<u8>) -> (pixels: Vec<u8>)
    ensures
        are_expanded(coverage@, pixels@, |coverage: u8| gray_pixel(coverage)),
{
    let mut pixels: Vec<u8> = Vec::new();
    let mut index: usize = 0;
    while index < coverage.len()
        invariant
            index <= coverage@.len(),
            are_expanded(
                coverage@.take(index as int),
                pixels@,
                |coverage: u8| gray_pixel(coverage),
            ),
        decreases coverage@.len() - index,
    {
        let value: u8 = coverage[index];
        push_pixel(&mut pixels, Pixel { first: value, second: value, third: value, alpha: 0 });
        index += 1;
    }
    assert(coverage@.take(index as int) =~= coverage@);
    pixels
}

/// The share of an opacity that a coverage leaves, rounded to the nearest.
pub fn cover_alpha(coverage: u8, alpha: u8) -> (covered: u8)
    ensures
        covered == covered_alpha(coverage, alpha),
        coverage == 255 ==> covered == alpha,
        coverage == 0 ==> covered == 0,
{
    assert(0 <= coverage * alpha <= 255 * 255) by (nonlinear_arith)
        requires
            coverage <= 255,
            alpha <= 255,
    ;
    ((coverage as u16 * alpha as u16 + 127) / 255) as u8
}

/// Fills a mask with a color.
pub fn tint_mask(coverage: &Vec<u8>, color: Rgba8) -> (pixels: Vec<u8>)
    ensures
        are_expanded(coverage@, pixels@, |coverage: u8| tinted_pixel(coverage, color)),
{
    let mut pixels: Vec<u8> = Vec::new();
    let mut index: usize = 0;
    while index < coverage.len()
        invariant
            index <= coverage@.len(),
            are_expanded(
                coverage@.take(index as int),
                pixels@,
                |coverage: u8| tinted_pixel(coverage, color),
            ),
        decreases coverage@.len() - index,
    {
        let alpha: u8 = cover_alpha(coverage[index], color.alpha);
        push_pixel(
            &mut pixels,
            Pixel { first: color.blue, second: color.green, third: color.red, alpha },
        );
        index += 1;
    }
    assert(coverage@.take(index as int) =~= coverage@);
    pixels
}

impl GlyphImage {
    /// Whether the image has no pixel.
    pub open spec fn is_empty(self) -> bool {
        self.width == 0 || self.height == 0
    }

    /// Whether the image's placement can be told in device pixels, with the vertical axis
    /// pointing down.
    pub open spec fn in_range(self) -> bool {
        self.top > i32::MIN && self.width <= i32::MAX && self.height <= i32::MAX
    }

    /// Whether the bytes fill the image's dimensions.
    pub open spec fn well_formed(self) -> bool {
        self.data@.len() == self.width * self.height * if self.content == ImageContent::Mask {
            1int
        } else {
            4int
        }
    }

    /// Where the image lies, with the vertical axis pointing down.
    pub open spec fn bounds(self) -> Bounds<DevicePixels> {
        Bounds {
            origin: Point { x: DevicePixels(self.left), y: DevicePixels((-self.top) as i32) },
            size: Size {
                width: DevicePixels(self.width as i32),
                height: DevicePixels(self.height as i32),
            },
        }
    }
}

/// The format of the raster that an image becomes.
pub open spec fn finished_format(
    content: ImageContent,
    mode: GlyphRenderMode,
) -> RasterizedGlyphFormat {
    match content {
        ImageContent::Color => RasterizedGlyphFormat::BgraColor,
        ImageContent::SubpixelMask => RasterizedGlyphFormat::BgraSubpixelMask,
        ImageContent::Mask => blank_format(mode),
    }
}

/// `pixels` are the pixels of the raster that an image becomes.
pub open spec fn are_finished_pixels<R: GlyphImageRenderer>(
    renderer: &R,
    image: GlyphImage,
    style: PreparedRasterStyle,
    pixels: Seq<u8>,
) -> bool {
    match image.content {
        ImageContent::Color => pixels_mapped(
            image.data@,
            pixels,
            |before: Pixel, after: Pixel|
                if image.premultiplied {
                    call_ensures(R::straighten, (renderer, before), after)
                } else {
                    after == channels_swapped(before)
                },
        ),
        ImageContent::SubpixelMask => pixels_mapped(
            image.data@,
            pixels,
            |before: Pixel, after: Pixel| after == channels_swapped(before),
        ),
        ImageContent::Mask => match style.mode {
            GlyphRenderMode::Subpixel => are_expanded(
                image.data@,
                pixels,
                |coverage: u8| gray_pixel(coverage),
            ),
            GlyphRenderMode::Color => mask_color(style.color_effect) matches Some(color)
                && are_expanded(
                image.data@,
                pixels,
                |coverage: u8| tinted_pixel(coverage, color),
            ),
            GlyphRenderMode::Grayscale => pixels == image.data@,
        },
    }
}

/// `result` is the raster that what was drawn becomes. Nothing, or an image with a zero
/// dimension, becomes a raster with both dimensions zero.
pub open spec fn is_finished<R: GlyphImageRenderer>(
    renderer: &R,
    image: Option<GlyphImage>,
    style: PreparedRasterStyle,
    result: Result<RasterizedGlyph, SwashError>,
) -> bool {
    match image {
        Some(image) if !image.is_empty() => if !image.in_range() {
            result == Err::<RasterizedGlyph, SwashError>(SwashError::ImageOutOfRange)
        } else if image.content == ImageContent::Mask && style.mode == GlyphRenderMode::Color
            && mask_color(style.color_effect) is None {
            result == Err::<RasterizedGlyph, SwashError>(SwashError::DilatedColorGlyph)
        } else {
            &&& result matches Ok(glyph)
            &&& glyph.bounds == image.bounds()
            &&& glyph.size == image.bounds().size
            &&& glyph.format == finished_format(image.content, style.mode)
            &&& are_finished_pixels(renderer, image, style, glyph.pixels@)
        },
        _ => result matches Ok(glyph) && glyph.is_blank(blank_format(style.mode)),
    }
}

/// Turns the pixels of a color image into straight ones in blue, green, red order.
fn finish_color<R: GlyphImageRenderer>(renderer: &R, pixels: &mut Vec<u8>, premultiplied: bool)
    ensures
        pixels_mapped(
            old(pixels)@,
            final(pixels)@,
            |before: Pixel, after: Pixel|
                if premultiplied {
                    call_ensures(R::straighten, (renderer, before), after)
                } else {
                    after == channels_swapped(before)
                },
        ),
{
    let convert = |pixel: Pixel| -> (converted: Pixel)
        ensures
            if premultiplied {
                call_ensures(R::straighten, (renderer, pixel), converted)
            } else {
                converted == channels_swapped(pixel)
            },
        {
            if premultiplied {
                renderer.straighten(pixel)
            } else {
                swap_channels(pixel)
            }
        };
    convert_pixels(pixels, convert);
}

/// Turns what was drawn into a glyph raster.
pub fn finish_image<R: GlyphImageRenderer>(
    renderer: &R,
    image: Option<GlyphImage>,
    style: PreparedRasterStyle,
) -> (result: Result<RasterizedGlyph, SwashError>)
    ensures
        is_finished(renderer, image, style, result),
{
    let blank: RasterizedGlyphFormat = match style.mode {
        GlyphRenderMode::Subpixel => RasterizedGlyphFormat::BgraSubpixelMask,
        GlyphRenderMode::Color => RasterizedGlyphFormat::BgraColor,
        GlyphRenderMode::Grayscale => RasterizedGlyphFormat::AlphaMask,
    };
    let image: GlyphImage = match image {
        Some(image) => image,
        None => return Ok(RasterizedGlyph::empty(blank)),
    };
    if image.width == 0 || image.height == 0 {
        return Ok(RasterizedGlyph::empty(blank));
    }
    if image.top == i32::MIN || image.width > i32::MAX as u32 || image.height > i32::MAX as u32 {
        return Err(SwashError::ImageOutOfRange);
    }
    let size = Size {
        width: DevicePixels(image.width as i32),
        height: DevicePixels(image.height as i32),
    };
    let bounds = Bounds {
        origin: Point { x: DevicePixels(image.left), y: DevicePixels(-image.top) },
        size,
    };
    let (format, pixels): (RasterizedGlyphFormat, Vec<u8>) = match image.content {
        ImageContent::Color => {
            let mut pixels: Vec<u8> = image.data;
            finish_color(renderer, &mut pixels, image.premultiplied);
            (RasterizedGlyphFormat::BgraColor, pixels)
        },
        ImageContent::SubpixelMask => {
            let mut pixels: Vec<u8> = image.data;
            convert_subpixel_mask_to_bgra(&mut pixels);
            (RasterizedGlyphFormat::BgraSubpixelMask, pixels)
        },
        ImageContent::Mask => match style.mode {
            GlyphRenderMode::Subpixel => (blank, widen_mask(&image.data)),
            GlyphRenderMode::Color => {
                let color: Rgba8 = match style.color_effect {
                    RasterColorEffect::Preblend(color) => color,
                    RasterColorEffect::Independent => Rgba8 {
                        red: 0,
                        green: 0,
                        blue: 0,
                        alpha: 255,
                    },
                    RasterColorEffect::Dilation(_) => return Err(SwashError::DilatedColorGlyph),
                };
                (blank, tint_mask(&image.data, color))
            },
            GlyphRenderMode::Grayscale => (blank, image.data),
        },
    };
    Ok(RasterizedGlyph { bounds, size, format, pixels })
}

/// `style` is what a scene request comes down to: only colored glyphs depend on the color.
pub open spec fn is_prepared<R: GlyphImageRenderer>(
    renderer: &R,
    request: RasterStyleRequest,
    style: PreparedRasterStyle,
) -> bool {
    &&& style.mode == request.requested_mode
    &&& if request.requested_mode == GlyphRenderMode::Color {
        style.color_effect matches RasterColorEffect::Preblend(color) && call_ensures(
            R::rounded,
            (renderer, request.scene_color),
            color,
        )
    } else {
        style.color_effect == RasterColorEffect::Independent
    }
}

impl<R: GlyphImageRenderer> GlyphRasterizer for SwashGlyphRasterizer<R> {
    type Error = SwashError;

    fn supports_color_glyph(&self, kind: ColorGlyphKind) -> (supported: bool)
        ensures
            supported == (kind == ColorGlyphKind::ColrV0 || kind == ColorGlyphKind::Bitmap),
    {
        matches!(kind, ColorGlyphKind::ColrV0 | ColorGlyphKind::Bitmap)
    }

    fn prepare_style(&self, request: RasterStyleRequest) -> (style: PreparedRasterStyle)
        ensures
            is_prepared(&self.renderer(), request, style),
    {
        if request.requested_mode == GlyphRenderMode::Color {
            PreparedRasterStyle {
                mode: GlyphRenderMode::Color,
                color_effect: RasterColorEffect::Preblend(
                    self.renderer.rounded(request.scene_color),
                ),
            }
        } else {
            PreparedRasterStyle::independent(request.requested_mode)
        }
    }

    fn rasterize(
        &mut self,
        face: RasterFace<'_>,
        params: &RenderGlyphParams,
        style: PreparedRasterStyle,
    ) -> (result: Result<RasterizedGlyph, SwashError>)
        ensures
            refusal(face, *params) == Some(SwashError::InvalidScaleFactor) ==> final(self).keys()
                == old(self).keys(),
            refusal(face, *params) != Some(SwashError::InvalidScaleFactor) ==> keys_with_font(
                old(self).keys(),
                final(self).keys(),
                face.font_id.0,
            ),
            keys_differ(old(self).keys()) ==> keys_differ(final(self).keys()),
            refusal(face, *params) matches Some(error) ==> result == Err::<
                RasterizedGlyph,
                SwashError,
            >(error) && final(self).renderer() == old(self).renderer() && final(self).context()
                == old(self).context(),
            refusal(face, *params) is None ==> exists|
                renderer: &mut R,
                context: &mut ScaleContext,
                plan: &RenderPlan<'_>,
                image: Option<GlyphImage>,
            | {
                &&& #[trigger] call_ensures(R::render, (renderer, context, plan), image)
                &&& *renderer == old(self).renderer()
                &&& *context == old(self).context()
                &&& is_render_plan(
                    &old(self).renderer(),
                    face,
                    *params,
                    style,
                    final(self).keys()[face.font_id.0],
                    *plan,
                )
                &&& *final(renderer) == final(self).renderer()
                &&& *final(context) == final(self).context()
                &&& is_finished(&final(self).renderer(), image, style, result)
            },
    {
        let plan: RenderPlan<'_> = match self.plan(&face, params, style) {
            Ok(plan) => plan,
            Err(error) => return Err(error),
        };
        let image: Option<GlyphImage> = self.renderer.render(&mut self.scale_context, &plan);
        finish_image(&self.renderer, image, style)
    }
}

/// A font keeps the key that it has, and no two fonts share one, whatever is rasterized.
pub proof fn law_fonts_keep_keys_of_their_own(
    before: Map<usize, CacheKey>,
    after: Map<usize, CacheKey>,
    rasterized: usize,
    font: usize,
)
    requires
        keys_differ(before),
        keys_with_font(before, after, rasterized),
    ensures
        keys_differ(after),
        before.contains_key(font) ==> after.contains_key(font) && after[font] == before[font],
{
}

/// An image whose bytes fill its dimensions becomes a raster whose pixels fill its dimensions,
/// with four bytes per pixel unless the raster is a mask.
pub proof fn law_rasters_fill_their_dimensions<R: GlyphImageRenderer>(
    renderer: &R,
    image: GlyphImage,
    style: PreparedRasterStyle,
    glyph: RasterizedGlyph,
)
    requires
        image.well_formed(),
        is_finished(renderer, Some(image), style, Ok::<RasterizedGlyph, SwashError>(glyph)),
    ensures
        glyph.well_formed(),
{
    if !image.is_empty() {
        let count = image.width * image.height;
        assert(count * 1 * 4 == count * 4) by (nonlinear_arith);
        assert(image.width as i32 == image.width);
        assert(image.height as i32 == image.height);
    }
}

/// A style that the rasterizer prepares is never one that it refuses.
pub proof fn law_prepared_styles_are_never_refused<R: GlyphImageRenderer>(
    renderer: &R,
    image: Option<GlyphImage>,
    request: RasterStyleRequest,
    style: PreparedRasterStyle,
    result: Result<RasterizedGlyph, SwashError>,
)
    requires
        is_prepared(renderer, request, style),
        is_finished(renderer, image, style, result),
    ensures
        result != Err::<RasterizedGlyph, SwashError>(SwashError::DilatedColorGlyph),
{
}

} // verus!
