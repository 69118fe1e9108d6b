//! Glyph rasters and the styles that they are made in.

use crate::geometry::{Bounds, DevicePixels, Point, Size};
use crate::text_run::Rgba;
use vstd::prelude::*;

verus! {

/// How the coverage of a glyph is sampled.
#[derive(Clone, Copy, Debug, PartialEq, Eq, Hash, Structural)]
pub enum GlyphRenderMode {
    /// One coverage value per pixel.
    Grayscale,
    /// One coverage value per color channel.
    Subpixel,
    /// The glyph's own colors.
    Color,
}

/// The layout of a glyph raster's pixels.
#[derive(Clone, Copy, Debug, PartialEq, Eq, Hash, Structural)]
pub enum RasterizedGlyphFormat {
    /// One coverage byte per pixel.
    AlphaMask,
    /// Three coverage bytes per pixel, in blue, green, red order, and one unused byte.
    BgraSubpixelMask,
    /// Blue, green, red and alpha bytes, not premultiplied.
    BgraColor,
}

/// A color with eight bits per channel, not premultiplied.
#[derive(Clone, Copy, Debug, PartialEq, Eq, Hash, Structural)]
pub struct Rgba8 {
    /// Red.
    pub red: u8,
    /// Green.
    pub green: u8,
    /// Blue.
    pub blue: u8,
    /// Opacity.
    pub alpha: u8,
}

/// How the color of a glyph changes its raster.
#[derive(Clone, Copy, Debug, PartialEq, Eq, Hash, Structural)]
pub enum RasterColorEffect {
    /// Not at all.
    Independent,
    /// The raster holds this color.
    Preblend(Rgba8),
    /// The raster is dilated by a number of steps.
    Dilation(u8),
}

/// The settings that alter the pixels of a cached raster.
#[derive(Clone, Copy, Debug, PartialEq, Eq, Hash, Structural)]
pub struct PreparedRasterStyle {
    /// How coverage is sampled.
    pub mode: GlyphRenderMode,
    /// How the color shows in the raster.
    pub color_effect: RasterColorEffect,
}

/// What a scene asks of a glyph raster.
#[derive(Clone, Copy, Debug)]
pub struct RasterStyleRequest {
    /// The color that the glyph is painted in.
    pub scene_color: Rgba,
    /// How coverage should be sampled.
    pub requested_mode: GlyphRenderMode,
}

/// How text is rendered.
#[derive(Clone, Copy, Debug, PartialEq, Eq, Hash, Structural)]
pub enum TextRenderingMode {
    /// As the platform recommends.
    PlatformDefault,
    /// With one coverage value per color channel.
    Subpixel,
    /// With one coverage value per pixel.
    Grayscale,
}

/// A glyph raster ready for insertion into a renderer atlas.
#[derive(Clone, Debug, PartialEq, Eq)]
pub struct RasterizedGlyph {
    /// Placement relative to the glyph origin.
    pub bounds: Bounds<DevicePixels>,
    /// Pixel dimensions of the raster data.
    pub size: Size<DevicePixels>,
    /// The layout of `pixels`.
    pub format: RasterizedGlyphFormat,
    /// Alpha, subpixel BGRA, or color BGRA pixels.
    pub pixels: Vec<u8>,
}

/// The number of bytes that one pixel takes.
pub open spec fn bytes_per_pixel(format: RasterizedGlyphFormat) -> int {
    match format {
        RasterizedGlyphFormat::AlphaMask => 1,
        RasterizedGlyphFormat::BgraSubpixelMask | RasterizedGlyphFormat::BgraColor => 4,
    }
}

/// The rectangle without extent at the origin.
pub open spec fn no_bounds() -> Bounds<DevicePixels> {
    Bounds {
        origin: Point { x: DevicePixels(0), y: DevicePixels(0) },
        size: Size { width: DevicePixels(0), height: DevicePixels(0) },
    }
}

impl RasterizedGlyph {
    /// Whether the pixels fill the raster's dimensions, and the bounds have those dimensions.
    pub open spec fn well_formed(&self) -> bool {
        &&& self.bounds.size == self.size
        &&& self.size.width.0 >= 0
        &&& self.size.height.0 >= 0
        &&& self.pixels@.len() == self.size.width.0 * self.size.height.0 * bytes_per_pixel(
            self.format,
        )
    }

    /// Whether this is the raster of a glyph without ink.
    pub open spec fn is_blank(&self, format: RasterizedGlyphFormat) -> bool {
        &&& self.bounds == no_bounds()
        &&& self.size == no_bounds().size
        &&& self.format == format
        &&& self.pixels@.len() == 0
    }

    /// The raster of a glyph without ink: both dimensions are zero.
    pub fn empty(format: RasterizedGlyphFormat) -> (glyph: RasterizedGlyph)
        ensures
            glyph.is_blank(format),
            glyph.well_formed(),
    {
        let size = Size { width: DevicePixels(0), height: DevicePixels(0) };
        RasterizedGlyph {
            bounds: Bounds {
                origin: Point { x: DevicePixels(0), y: DevicePixels(0) },
                size: Size { width: DevicePixels(0), height: DevicePixels(0) },
            },
            size,
            format,
            pixels: Vec::new(),
        }
    }
}

impl PreparedRasterStyle {
    /// A style whose raster does not depend on the color.
    pub fn independent(mode: GlyphRenderMode) -> (style: PreparedRasterStyle)
        ensures
            style == (PreparedRasterStyle { mode, color_effect: RasterColorEffect::Independent }),
    {
        PreparedRasterStyle { mode, color_effect: RasterColorEffect::Independent }
    }
}

/// Four bytes of a raster.
#[derive(Clone, Copy, Debug, PartialEq, Eq, Hash, Structural)]
pub struct Pixel {
    /// The first byte: red before a conversion to BGRA, blue after it.
    pub first: u8,
    /// The second byte: green.
    pub second: u8,
    /// The third byte: blue before a conversion to BGRA, red after it.
    pub third: u8,
    /// The fourth byte: alpha.
    pub alpha: u8,
}

/// The pixel at `index` in a raster of four bytes per pixel.
pub open spec fn pixel_at(pixels: Seq<u8>, index: int) -> Pixel {
    Pixel {
        first: pixels[4 * index],
        second: pixels[4 * index + 1],
        third: pixels[4 * index + 2],
        alpha: pixels[4 * index + 3],
    }
}

/// `after` is `before` with every complete pixel replaced as `relation` says; bytes behind the
/// last complete pixel stay.
pub open spec fn pixels_mapped(
    before: Seq<u8>,
    after: Seq<u8>,
    relation: spec_fn(Pixel, Pixel) -> bool,
) -> bool {
    &&& after.len() == before.len()
    &&& forall|index: int|
        0 <= index < before.len() / 4 ==> relation(
            #[trigger] pixel_at(before, index),
            pixel_at(after, index),
        )
    &&& forall|at: int|
        before.len() / 4 * 4 <= at < before.len() ==> #[trigger] after[at] == before[at]
}

/// Replaces every complete pixel by what `convert` makes of it.
pub fn convert_pixels<F: Fn(Pixel) -> Pixel>(pixels: &mut Vec<u8>, convert: F)
    requires
        forall|pixel: Pixel| #[trigger] convert.requires((pixel,)),
    ensures
        pixels_mapped(
            old(pixels)@,
            final(pixels)@,
            |before: Pixel, after: Pixel| convert.ensures((before,), after),
        ),
{
    let ghost start = pixels@;
    let len: usize = pixels.len();
    let count: usize = len / 4;
    let mut index: usize = 0;
    while index < count
        invariant
            len == start.len(),
            count == len / 4,
            index <= count,
            pixels@.len() == len,
            forall|pixel: Pixel| #[trigger] convert.requires((pixel,)),
            forall|done: int|
                0 <= done < index ==> convert.ensures(
                    (#[trigger] pixel_at(start, done),),
                    pixel_at(pixels@, done),
                ),
            forall|at: int| 4 * index <= at < len ==> #[trigger] pixels@[at] == start[at],
        decreases count - index,
    {
        let at: usize = index * 4;
        let before = Pixel {
            first: pixels[at],
            second: pixels[at + 1],
            third: pixels[at + 2],
            alpha: pixels[at + 3],
        };
        assert(before == pixel_at(start, index as int));
        let after = convert(before);
        let ghost held = pixels@;
        pixels.set(at, after.first);
        pixels.set(at + 1, after.second);
        pixels.set(at + 2, after.third);
        pixels.set(at + 3, after.alpha);
        assert(pixel_at(pixels@, index as int) == after);
        assert forall|done: int| 0 <= done < index implies convert.ensures(
            (#[trigger] pixel_at(start, done),),
            pixel_at(pixels@, done),
        ) by {
            assert(pixel_at(pixels@, done) == pixel_at(held, done));
        }
        index += 1;
    }
}

/// Swaps the first and the third channel of a pixel.
pub open spec fn channels_swapped(pixel: Pixel) -> Pixel {
    Pixel { first: pixel.third, second: pixel.second, third: pixel.first, alpha: pixel.alpha }
}

/// Swaps the first and the third channel of a pixel.
pub fn swap_channels(pixel: Pixel) -> (swapped: Pixel)
    ensures
        swapped == channels_swapped(pixel),
{
    Pixel { first: pixel.third, second: pixel.second, third: pixel.first, alpha: pixel.alpha }
}

/// Turns a mask with red coverage first into the atlas order, with blue coverage first.
pub fn convert_subpixel_mask_to_bgra(pixels: &mut Vec<u8>)
    ensures
        pixels_mapped(
            old(pixels)@,
            final(pixels)@,
            |before: Pixel, after: Pixel| after == channels_swapped(before),
        ),
{
    convert_pixels(pixels, swap_channels);
}

/// Swapping channels twice gives back the pixels, the bytes of an incomplete one included.
pub proof fn law_swapping_channels_twice_restores(before: Seq<u8>, between: Seq<u8>, after: Seq<u8>)
    requires
        pixels_mapped(
            before,
            between,
            |before: Pixel, after: Pixel| after == channels_swapped(before),
        ),
        pixels_mapped(
            between,
            after,
            |before: Pixel, after: Pixel| after == channels_swapped(before),
        ),
    ensures
        after == before,
{
    assert forall|at: int| 0 <= at < before.len() implies after[at] == before[at] by {
        if at < before.len() / 4 * 4 {
            let index = at / 4;
            let first = pixel_at(before, index);
            let second = pixel_at(between, index);
            let third = pixel_at(after, index);
            assert(second == channels_swapped(first));
            assert(third == channels_swapped(second));
            assert(third == first);
        } else {
            assert(between[at] == before[at]);
        }
    }
}

/// The pixels of a raster fill its dimensions: a mask has one byte for each pixel, and a raster with
/// channels four.
pub proof fn law_pixels_fill_the_raster(glyph: RasterizedGlyph)
    requires
        glyph.well_formed(),
    ensures
        glyph.bounds.size.width.0 == glyph.size.width.0,
        glyph.bounds.size.height.0 == glyph.size.height.0,
        0 <= glyph.size.width.0,
        0 <= glyph.size.height.0,
        glyph.format == RasterizedGlyphFormat::AlphaMask ==> glyph.pixels@.len()
            == glyph.size.width.0 * glyph.size.height.0,
        glyph.format == RasterizedGlyphFormat::BgraSubpixelMask || glyph.format
            == RasterizedGlyphFormat::BgraColor ==> glyph.pixels@.len() == glyph.size.width.0
            * glyph.size.height.0 * 4,
{
    let count = glyph.size.width.0 * glyph.size.height.0;
    assert(count * 1 == count);
}

/// A raster of a glyph without ink lies at the origin, with no extent and no pixels.
pub proof fn law_blank_rasters_are_empty(glyph: RasterizedGlyph, format: RasterizedGlyphFormat)
    requires
        glyph.is_blank(format),
    ensures
        glyph.bounds.origin.x.0 == 0,
        glyph.bounds.origin.y.0 == 0,
        glyph.bounds.size.width.0 == 0,
        glyph.bounds.size.height.0 == 0,
        glyph.size.width.0 == 0,
        glyph.size.height.0 == 0,
        glyph.pixels@.len() == 0,
        glyph.format == format,
{
}

/// Swapping channels exchanges the first and the third byte of every pixel, and no others.
pub proof fn law_swapped_channels_by_their_bytes(before: Seq<u8>, after: Seq<u8>, pixel: int)
    requires
        pixels_mapped(
            before,
            after,
            |before: Pixel, after: Pixel| after == channels_swapped(before),
        ),
        0 <= 4 * pixel,
        4 * pixel + 3 < before.len(),
    ensures
        after.len() == before.len(),
        after[4 * pixel] == before[4 * pixel + 2],
        after[4 * pixel + 1] == before[4 * pixel + 1],
        after[4 * pixel + 2] == before[4 * pixel],
        after[4 * pixel + 3] == before[4 * pixel + 3],
{
    let first = pixel_at(before, pixel);
    let second = pixel_at(after, pixel);
    assert(second == channels_swapped(first));
}

} // verus!
