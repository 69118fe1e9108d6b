use font_test_data::{AHEM, COLRV0V1, MATERIAL_SYMBOLS_SUBSET};
use gpui_text::blob::FontSynthesis;
use gpui_text::color_glyphs::ColorGlyphKind;
use gpui_text::geometry::{Bounds, DevicePixels, Pixels, Point, Size};
use gpui_text::raster::{
    GlyphRenderMode, Pixel, PreparedRasterStyle, RasterColorEffect, RasterStyleRequest,
    RasterizedGlyphFormat, Rgba8, TextRenderingMode,
};
use gpui_text::rasterizer::GlyphRasterizer;
use gpui_text::scalar::{Arithmetic, Scalar};
use gpui_text::store::RasterFace;
use gpui_text::swash_rasterizer::{
    cover_alpha, finish_image, subpixel_offset, tint_mask, widen_mask, GlyphImage,
    GlyphImageRenderer, GlyphSource, ImageContent, MaskFormat, RenderPlan, SwashError,
    SwashGlyphRasterizer,
};
use gpui_text::text_run::Rgba;
use gpui_text::text_system::{FontId, GlyphId, RenderGlyphParams, SUBPIXEL_VARIANTS_X};
use skrifa::MetadataProvider;
use swash::scale::image::Content;
use swash::scale::{Render, ScaleContext, Source, StrikeWith};
use swash::zeno::{Angle, Format, Transform, Vector};

fn scalar(value: f32) -> Scalar {
    Scalar { bits: value.to_bits() }
}

fn float(value: Scalar) -> f32 {
    f32::from_bits(value.bits)
}

/// The color with a number in red, green, blue, alpha order.
fn rgba(hex: u32) -> Rgba {
    let [red, green, blue, alpha] =
        hex.to_be_bytes().map(|channel| scalar(f32::from(channel) / 255.0));
    Rgba { red, green, blue, alpha }
}

struct Host;

impl Arithmetic for Host {
    fn from_integer(&self, value: u32) -> Scalar {
        scalar(value as f32)
    }
    fn sum(&self, left: Scalar, right: Scalar) -> Scalar {
        scalar(float(left) + float(right))
    }
    fn difference(&self, left: Scalar, right: Scalar) -> Scalar {
        scalar(float(left) - float(right))
    }
    fn product(&self, left: Scalar, right: Scalar) -> Scalar {
        scalar(float(left) * float(right))
    }
    fn quotient(&self, left: Scalar, right: Scalar) -> Scalar {
        scalar(float(left) / float(right))
    }
}

impl GlyphImageRenderer for Host {
    fn render(&mut self, context: &mut ScaleContext, plan: &RenderPlan<'_>) -> Option<GlyphImage> {
        let font = swash::FontRef { data: plan.data, offset: plan.offset, key: plan.key };
        let mut scaler = context
            .builder(font)
            .size(float(plan.size))
            .normalized_coords(plan.normalized_coords)
            .hint(true)
            .build();
        let sources: Vec<Source> = plan
            .sources
            .iter()
            .map(|source| match source {
                GlyphSource::ColorOutline => Source::ColorOutline(0),
                GlyphSource::ColorBitmapBestFit => Source::ColorBitmap(StrikeWith::BestFit),
                GlyphSource::BitmapExactSize => Source::Bitmap(StrikeWith::ExactSize),
                GlyphSource::Outline => Source::Outline,
            })
            .collect();
        let mut render = Render::new(&sources);
        render.format(match plan.format {
            MaskFormat::Alpha => Format::Alpha,
            MaskFormat::SubpixelBgra => Format::subpixel_bgra(),
        });
        if let Some(color) = plan.default_color {
            render.default_color([color.red, color.green, color.blue, color.alpha]);
        }
        render.offset(Vector::new(
            float(plan.subpixel_offset.x),
            float(plan.subpixel_offset.y),
        ));
        if let Some(strength) = plan.embolden {
            render.embolden(float(strength));
        }
        if let Some(degrees) = plan.skew_degrees {
            render.transform(Some(Transform::skew(
                Angle::from_degrees(float(degrees)),
                Angle::ZERO,
            )));
        }
        let image = render.render(&mut scaler, plan.glyph_id)?;
        Some(GlyphImage {
            left: image.placement.left,
            top: image.placement.top,
            width: image.placement.width,
            height: image.placement.height,
            content: match image.content {
                Content::Mask => ImageContent::Mask,
                Content::SubpixelMask => ImageContent::SubpixelMask,
                Content::Color => ImageContent::Color,
            },
            premultiplied: matches!(image.source, Source::ColorOutline(_)),
            data: image.data,
        })
    }

    fn rounded(&self, color: Rgba) -> Rgba8 {
        let round = |channel: Scalar| (float(channel) * 255.0).round() as u8;
        Rgba8 {
            red: round(color.red),
            green: round(color.green),
            blue: round(color.blue),
            alpha: round(color.alpha),
        }
    }

    fn straighten(&self, pixel: Pixel) -> Pixel {
        if pixel.alpha == 0 {
            return Pixel { first: pixel.third, third: pixel.first, ..pixel };
        }
        let alpha = f32::from(pixel.alpha) / 255.0;
        let straight = |channel: u8| (f32::from(channel) / alpha) as u8;
        Pixel {
            first: straight(pixel.third),
            second: straight(pixel.second),
            third: straight(pixel.first),
            alpha: pixel.alpha,
        }
    }
}

#[test]
fn portable_rasterization_preserves_current_color_and_device_pixel_offsets() {
    let rasterizer = SwashGlyphRasterizer::new(Host);
    let style = rasterizer.prepare_style(RasterStyleRequest {
        scene_color: rgba(0xe02010cc),
        requested_mode: GlyphRenderMode::Color,
    });

    assert_eq!(style.mode, GlyphRenderMode::Color);
    assert_eq!(
        style.color_effect,
        RasterColorEffect::Preblend(Rgba8 { red: 0xe0, green: 0x20, blue: 0x10, alpha: 0xcc })
    );

    for scale_factor in [1.0, 2.0] {
        let params = RenderGlyphParams {
            font_id: FontId(1),
            glyph_id: GlyphId(1),
            font_size: Pixels(scalar(16.0)),
            subpixel_variant: Point { x: SUBPIXEL_VARIANTS_X - 1, y: 0 },
            scale_factor: scalar(scale_factor),
            is_emoji: false,
            subpixel_rendering: false,
        };

        let offset = subpixel_offset(&params, &Host);
        assert_eq!((float(offset.x), float(offset.y)), (0.75, 0.0));
    }
}

fn params(font: usize, glyph: u32, font_size: f32) -> RenderGlyphParams {
    RenderGlyphParams {
        font_id: FontId(font),
        glyph_id: GlyphId(glyph),
        font_size: Pixels(scalar(font_size)),
        subpixel_variant: Point { x: 0, y: 0 },
        scale_factor: scalar(1.0),
        is_emoji: false,
        subpixel_rendering: false,
    }
}

#[test]
fn portable_rasterization_uses_parleys_normalized_coordinates() {
    let source = MATERIAL_SYMBOLS_SUBSET.to_vec().into();
    let font = skrifa::FontRef::new(MATERIAL_SYMBOLS_SUBSET).unwrap();
    let default_coords = vec![0i16; font.axes().len()];
    let mut heavy_coords = default_coords.clone();
    heavy_coords[3] = 1 << 14;
    let default_face = RasterFace {
        font_id: FontId(1),
        source_id: 1,
        source: &source,
        face_index: 0,
        normalized_coords: &default_coords,
        variations: &[],
        synthesis: FontSynthesis::default(),
        has_color_glyphs: false,
    };
    let heavy_face = RasterFace {
        font_id: FontId(2),
        normalized_coords: &heavy_coords,
        ..default_face
    };
    let glyph = font
        .charmap()
        .mappings()
        .find(|(character, _)| *character >= 0xe000)
        .unwrap()
        .1
        .to_u32();
    let style = PreparedRasterStyle::independent(GlyphRenderMode::Grayscale);
    let mut rasterizer = SwashGlyphRasterizer::new(Host);
    let default = rasterizer.rasterize(default_face, &params(1, glyph, 48.0), style).unwrap();
    let heavy = rasterizer.rasterize(heavy_face, &params(2, glyph, 48.0), style).unwrap();

    assert!(!default.pixels.is_empty());
    assert_ne!(heavy.pixels, default.pixels);
}

fn ahem_face(source: &fontique::Blob<u8>) -> RasterFace<'_> {
    RasterFace {
        font_id: FontId(1),
        source_id: 1,
        source,
        face_index: 0,
        normalized_coords: &[],
        variations: &[],
        synthesis: FontSynthesis::default(),
        has_color_glyphs: false,
    }
}

#[test]
fn outlines_are_rasterized_in_every_mode() {
    let source = AHEM.to_vec().into();
    let font = skrifa::FontRef::new(AHEM).unwrap();
    let glyph = font.charmap().map('m').unwrap().to_u32();
    let face = ahem_face(&source);
    let mut rasterizer = SwashGlyphRasterizer::new(Host);

    // The glyph is a full square from 0.2 em below the baseline to 0.8 em above it.
    let gray = PreparedRasterStyle::independent(GlyphRenderMode::Grayscale);
    let mask = rasterizer.rasterize(face, &params(1, glyph, 10.0), gray).unwrap();
    assert_eq!(mask.format, RasterizedGlyphFormat::AlphaMask);
    assert_eq!(
        mask.bounds,
        Bounds {
            origin: Point { x: DevicePixels(0), y: DevicePixels(-8) },
            size: Size { width: DevicePixels(10), height: DevicePixels(10) },
        }
    );
    assert_eq!(mask.pixels, [255; 100]);

    let subpixel = PreparedRasterStyle::independent(GlyphRenderMode::Subpixel);
    let wide = rasterizer.rasterize(face, &params(1, glyph, 10.0), subpixel).unwrap();
    assert_eq!(wide.format, RasterizedGlyphFormat::BgraSubpixelMask);
    assert_eq!(
        wide.pixels.len(),
        4 * wide.size.width.0 as usize * wide.size.height.0 as usize
    );

    let color = Rgba8 { red: 10, green: 20, blue: 30, alpha: 128 };
    let colored = PreparedRasterStyle {
        mode: GlyphRenderMode::Color,
        color_effect: RasterColorEffect::Preblend(color),
    };
    let bitmap = rasterizer.rasterize(face, &params(1, glyph, 10.0), colored).unwrap();
    assert_eq!(bitmap.format, RasterizedGlyphFormat::BgraColor);
    assert_eq!(bitmap.pixels[..4], [30, 20, 10, 128]);

    let space = font.charmap().map(' ').unwrap().to_u32();
    let empty = rasterizer.rasterize(face, &params(1, space, 10.0), gray).unwrap();
    assert_eq!(empty.size, Size { width: DevicePixels(0), height: DevicePixels(0) });
    assert!(empty.pixels.is_empty());
}

#[test]
fn color_layers_come_out_straight() {
    let source = COLRV0V1.to_vec().into();
    let font = skrifa::FontRef::new(COLRV0V1).unwrap();
    let glyph = font.charmap().map('\u{f0e00}').unwrap().to_u32();
    let face = ahem_face(&source);
    let style = PreparedRasterStyle::independent(GlyphRenderMode::Color);
    let mut rasterizer = SwashGlyphRasterizer::new(Host);
    let glyph = rasterizer.rasterize(face, &params(1, glyph, 24.0), style).unwrap();
    assert_eq!(glyph.format, RasterizedGlyphFormat::BgraColor);
    assert_eq!(
        glyph.pixels.len(),
        4 * glyph.size.width.0 as usize * glyph.size.height.0 as usize
    );
    assert!(glyph.pixels.chunks_exact(4).any(|pixel| pixel[3] > 0));
}

#[test]
fn glyphs_are_refused_with_their_cause() {
    let source = AHEM.to_vec().into();
    let unreadable = b"not a font".to_vec().into();
    let face = ahem_face(&source);
    let style = PreparedRasterStyle::independent(GlyphRenderMode::Grayscale);
    let mut rasterizer = SwashGlyphRasterizer::new(Host);
    for scale_factor in [0.0, -1.0, f32::NAN, f32::INFINITY] {
        let mut bad = params(1, 1, 16.0);
        bad.scale_factor = scalar(scale_factor);
        assert_eq!(
            rasterizer.rasterize(face, &bad, style).err(),
            Some(SwashError::InvalidScaleFactor)
        );
    }
    assert_eq!(
        rasterizer.rasterize(ahem_face(&unreadable), &params(1, 1, 16.0), style).err(),
        Some(SwashError::UnparsableFace)
    );
    assert_eq!(
        rasterizer.rasterize(face, &params(1, 0x1_0000, 16.0), style).err(),
        Some(SwashError::GlyphIdOutOfRange)
    );
    let dilated = PreparedRasterStyle {
        mode: GlyphRenderMode::Color,
        color_effect: RasterColorEffect::Dilation(1),
    };
    let font = skrifa::FontRef::new(AHEM).unwrap();
    let glyph = font.charmap().map('m').unwrap().to_u32();
    assert_eq!(
        rasterizer.rasterize(face, &params(1, glyph, 16.0), dilated).err(),
        Some(SwashError::DilatedColorGlyph)
    );
    let oversized = GlyphImage {
        left: 0,
        top: i32::MIN,
        width: 1,
        height: 1,
        content: ImageContent::Mask,
        premultiplied: false,
        data: vec![0],
    };
    assert_eq!(
        finish_image(&Host, Some(oversized), style).err(),
        Some(SwashError::ImageOutOfRange)
    );
}

#[test]
fn plans_carry_face_size_and_styling() {
    let source = AHEM.to_vec().into();
    let face = RasterFace {
        synthesis: FontSynthesis { embolden: true, skew_degrees: Some(scalar(14.0)) },
        ..ahem_face(&source)
    };
    let mut rasterizer = SwashGlyphRasterizer::new(Host);
    let mut request = params(1, 7, 12.0);
    request.scale_factor = scalar(2.0);
    let style = PreparedRasterStyle::independent(GlyphRenderMode::Subpixel);
    let plan = rasterizer.plan(&face, &request, style).unwrap();
    assert_eq!(plan.data, AHEM);
    assert_eq!(plan.offset, 0);
    assert_eq!(float(plan.size), 24.0);
    assert_eq!(plan.embolden.map(float), Some(0.5));
    assert_eq!(plan.skew_degrees.map(float), Some(14.0));
    assert_eq!(plan.glyph_id, 7);
    assert_eq!(plan.format, MaskFormat::SubpixelBgra);
    assert_eq!(plan.sources, [GlyphSource::BitmapExactSize, GlyphSource::Outline]);
    let first_key = plan.key;

    let color = PreparedRasterStyle::independent(GlyphRenderMode::Color);
    let plan = rasterizer.plan(&ahem_face(&source), &request, color).unwrap();
    assert!(plan.key == first_key);
    assert!(plan.embolden.is_none());
    assert!(plan.default_color.is_none());
    assert_eq!(
        plan.sources,
        [
            GlyphSource::ColorOutline,
            GlyphSource::ColorBitmapBestFit,
            GlyphSource::Outline,
        ]
    );
    let other = RasterFace { font_id: FontId(2), ..face };
    let mut request = request;
    request.font_id = FontId(2);
    assert!(rasterizer.plan(&other, &request, color).unwrap().key != first_key);
}

#[test]
fn masks_become_pixels() {
    assert_eq!(widen_mask(&vec![0, 7]), [0, 0, 0, 0, 7, 7, 7, 0]);
    assert_eq!(cover_alpha(255, 128), 128);
    assert_eq!(cover_alpha(128, 128), 64);
    assert_eq!(cover_alpha(0, 255), 0);
    let color = Rgba8 { red: 1, green: 2, blue: 3, alpha: 255 };
    assert_eq!(tint_mask(&vec![9], color), [3, 2, 1, 9]);

    let image = |content: ImageContent, premultiplied: bool, data: Vec<u8>| GlyphImage {
        left: 2,
        top: 5,
        width: 1,
        height: 1,
        content,
        premultiplied,
        data,
    };
    let subpixel = PreparedRasterStyle::independent(GlyphRenderMode::Subpixel);
    let finish = |image: GlyphImage, style: PreparedRasterStyle| {
        finish_image(&Host, Some(image), style).unwrap()
    };
    let mask = finish(image(ImageContent::SubpixelMask, false, vec![1, 2, 3, 0]), subpixel);
    assert_eq!(mask.pixels, [3, 2, 1, 0]);
    assert_eq!(mask.bounds.origin, Point { x: DevicePixels(2), y: DevicePixels(-5) });
    let wide = finish(image(ImageContent::Mask, false, vec![8]), subpixel);
    assert_eq!(wide.pixels, [8, 8, 8, 0]);
    let color = PreparedRasterStyle::independent(GlyphRenderMode::Color);
    let straight = finish(image(ImageContent::Color, false, vec![1, 2, 3, 4]), color);
    assert_eq!(straight.pixels, [3, 2, 1, 4]);
    let divided = finish(image(ImageContent::Color, true, vec![64, 0, 32, 128]), color);
    assert_eq!(divided.pixels, [63, 0, 127, 128]);
    let black = finish(image(ImageContent::Mask, false, vec![200]), color);
    assert_eq!(black.pixels, [0, 0, 0, 200]);
    let missing = finish_image(&Host, None, color).unwrap();
    assert_eq!(missing.format, RasterizedGlyphFormat::BgraColor);
    assert!(missing.pixels.is_empty());
}

#[test]
fn swash_supports_layers_and_bitmaps() {
    let rasterizer = SwashGlyphRasterizer::new(Host);
    for (kind, supported) in [
        (ColorGlyphKind::ColrV0, true),
        (ColorGlyphKind::ColrV1, false),
        (ColorGlyphKind::Bitmap, true),
        (ColorGlyphKind::Svg, false),
    ] {
        assert_eq!(rasterizer.supports_color_glyph(kind), supported);
    }
    assert_eq!(rasterizer.recommended_mode(), TextRenderingMode::Subpixel);
    let style = rasterizer.prepare_style(RasterStyleRequest {
        scene_color: rgba(0x102030ff),
        requested_mode: GlyphRenderMode::Subpixel,
    });
    assert_eq!(style, PreparedRasterStyle::independent(GlyphRenderMode::Subpixel));
}

#[test]
fn prepared_styles_are_never_refused() {
    let rasterizer = SwashGlyphRasterizer::new(Host);
    for mode in [
        GlyphRenderMode::Grayscale,
        GlyphRenderMode::Subpixel,
        GlyphRenderMode::Color,
    ] {
        let style = rasterizer.prepare_style(RasterStyleRequest {
            scene_color: rgba(0x10203040),
            requested_mode: mode,
        });
        let image = GlyphImage {
            left: 0,
            top: 1,
            width: 1,
            height: 1,
            content: ImageContent::Mask,
            premultiplied: false,
            data: vec![255],
        };
        let glyph = finish_image(&Host, Some(image), style).unwrap();
        let bytes = match glyph.format {
            RasterizedGlyphFormat::AlphaMask => 1,
            RasterizedGlyphFormat::BgraSubpixelMask | RasterizedGlyphFormat::BgraColor => 4,
        };
        assert_eq!(glyph.pixels.len(), bytes);
    }
}

#[test]
fn fonts_have_keys_of_their_own() {
    let source = MATERIAL_SYMBOLS_SUBSET.to_vec().into();
    let style = PreparedRasterStyle::independent(GlyphRenderMode::Grayscale);
    let mut rasterizer = SwashGlyphRasterizer::new(Host);
    let mut key = |font: usize| {
        let face = RasterFace {
            font_id: FontId(font),
            source_id: 1,
            source: &source,
            face_index: 0,
            normalized_coords: &[],
            variations: &[],
            synthesis: FontSynthesis::default(),
            has_color_glyphs: false,
        };
        rasterizer.plan(&face, &params(font, 1, 16.0), style).unwrap().key
    };
    let keys: Vec<_> = (0..4).map(&mut key).collect();
    for font in 0..4 {
        assert!(key(font) == keys[font]);
        assert_eq!(keys.iter().filter(|other| **other == keys[font]).count(), 1);
    }
}

#[test]
fn faces_are_read_where_their_bytes_say() {
    let style = PreparedRasterStyle::independent(GlyphRenderMode::Grayscale);
    let mut rasterizer = SwashGlyphRasterizer::new(Host);
    let mut offset = |data: &[u8], face_index: u32| {
        let source = data.to_vec().into();
        let face = RasterFace {
            font_id: FontId(1),
            source_id: 1,
            source: &source,
            face_index,
            normalized_coords: &[],
            variations: &[],
            synthesis: FontSynthesis::default(),
            has_color_glyphs: false,
        };
        rasterizer.plan(&face, &params(1, 1, 16.0), style).map(|plan| plan.offset).ok()
    };
    for version in [*b"OTTO", *b"true", [0, 1, 0, 0]] {
        assert_eq!(offset(&version, 0), Some(0));
        assert_eq!(offset(&version, 1), None);
    }
    assert_eq!(offset(b"wOFF", 0), None);
    assert_eq!(offset(b"tru", 0), None);

    // Three faces are listed: one that is there, one that is none, and one beyond the bytes.
    let mut collection = b"ttcf\0\x01\0\0\0\0\0\x03".to_vec();
    for entry in [20u32, 8] {
        collection.extend_from_slice(&entry.to_be_bytes());
    }
    collection.extend_from_slice(b"true");
    assert_eq!(offset(&collection, 0), Some(20));
    assert_eq!(offset(&collection, 1), None);
    assert_eq!(offset(&collection, 2), None);
    assert_eq!(offset(&collection, 3), None);
    assert_eq!(offset(&collection[..10], 0), None);
}
