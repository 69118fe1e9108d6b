use gpui_text::geometry::{DevicePixels, Size};
use gpui_text::raster::{
    convert_pixels, convert_subpixel_mask_to_bgra, swap_channels, GlyphRenderMode, Pixel,
    PreparedRasterStyle, RasterColorEffect, RasterizedGlyph, RasterizedGlyphFormat,
};

#[test]
fn subpixel_coverage_is_converted_from_swash_to_atlas_channel_order() {
    let mut pixels = vec![204, 127, 51, 0];
    convert_subpixel_mask_to_bgra(&mut pixels);

    assert_eq!(pixels, [51, 127, 204, 0]);
}

#[test]
fn swapping_channels_twice_restores_them() {
    let pixel = Pixel { first: 1, second: 2, third: 3, alpha: 4 };
    let swapped = swap_channels(pixel);
    assert_eq!((swapped.first, swapped.second, swapped.third, swapped.alpha), (3, 2, 1, 4));
    let restored = swap_channels(swapped);
    assert_eq!((restored.first, restored.third), (1, 3));

    let mut pixels = vec![1, 2, 3, 4, 5, 6, 7, 8, 9];
    convert_subpixel_mask_to_bgra(&mut pixels);
    // Bytes that make no whole pixel stay.
    assert_eq!(pixels, [3, 2, 1, 4, 7, 6, 5, 8, 9]);
    convert_pixels(&mut pixels, |pixel| Pixel { alpha: 0, ..pixel });
    assert_eq!(pixels, [3, 2, 1, 0, 7, 6, 5, 0, 9]);
}

#[test]
fn empty_rasters_have_no_pixels() {
    let glyph = RasterizedGlyph::empty(RasterizedGlyphFormat::BgraColor);
    assert_eq!(glyph.format, RasterizedGlyphFormat::BgraColor);
    assert_eq!(glyph.size, Size { width: DevicePixels(0), height: DevicePixels(0) });
    assert!(glyph.pixels.is_empty());
    let style = PreparedRasterStyle::independent(GlyphRenderMode::Subpixel);
    assert_eq!(style.mode, GlyphRenderMode::Subpixel);
    assert_eq!(style.color_effect, RasterColorEffect::Independent);
}
