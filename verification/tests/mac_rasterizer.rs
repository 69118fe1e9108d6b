use font_test_data::{AHEM, COUSINE_HINT_SUBSET, TINOS_SUBSET};
use gpui_text::blob::FontSynthesis;
use gpui_text::color_glyphs::ColorGlyphKind;
use gpui_text::design::FontVariation;
use gpui_text::geometry::{Bounds, DevicePixels, Pixels, Point, Size};
use gpui_text::double::{Double, DoubleArithmetic};
use gpui_text::mac_geometry::{
    format_for_mode, frame_glyph, place_glyph, plan_bitmap, BitmapPlan, GlyphFrame, GlyphRect,
    NativeGlyph,
};
use gpui_text::mac_rasterizer::{
    context_settings, dilation_for_color, font_smoothing_allowed, ContextPaint, ContextSettings,
    GlyphDrawing, MacGlyphRasterizer, MacRasterError, NativeCanvas,
};
use gpui_text::native_face::{
    collection_descriptor, native_source, DescriptorTables, NativeFaceError, NativeFonts,
    NativeSource,
};
use gpui_text::raster::{
    GlyphRenderMode, Pixel, PreparedRasterStyle, RasterColorEffect, RasterStyleRequest,
    RasterizedGlyphFormat, Rgba8, TextRenderingMode,
};
use gpui_text::rasterizer::GlyphRasterizer;
use gpui_text::scalar::{Arithmetic, Scalar};
use gpui_text::sfnt::{
    compact_sfnt_for_face, face_table, read_u16, read_u32, sfnt_checksum, SfntError,
    CHECKSUM_MAGIC,
};
use gpui_text::store::RasterFace;
use gpui_text::text_run::Rgba;
use gpui_text::text_system::{FontId, GlyphId, RenderGlyphParams};
use skrifa::MetadataProvider;
use std::cell::Cell;
use std::rc::Rc;
use std::sync::Arc;

fn scalar(value: f32) -> Scalar {
    Scalar { bits: value.to_bits() }
}

fn float(value: Scalar) -> f32 {
    f32::from_bits(value.bits)
}

fn double(value: f64) -> Double {
    Double { bits: value.to_bits() }
}

fn wide(value: Double) -> f64 {
    f64::from_bits(value.bits)
}

fn gray(value: f32) -> Rgba {
    Rgba {
        red: scalar(value),
        green: scalar(value),
        blue: scalar(value),
        alpha: scalar(1.0),
    }
}

/// A platform whose fonts are read here and whose glyphs are boxes.
#[derive(Default)]
struct Host {
    reads_collections: bool,
    refuses_variations: bool,
    smoothing: Option<Option<i64>>,
    drawn_bytes: Option<usize>,
    sources_made: Rc<Cell<u32>>,
}

fn tables(data: &[u8], face_offset: usize) -> DescriptorTables {
    let read = |tag: &[u8; 4]| face_table(data, face_offset, tag).unwrap().map(<[u8]>::to_vec);
    DescriptorTables { name: read(b"name"), head: read(b"head"), maxp: read(b"maxp") }
}

impl Arithmetic for Host {
    fn from_integer(&self, value: u32) -> Scalar {
        scalar(value as f32)
    }
    fn sum(&self, left: Scalar, right: Scalar) -> Scalar {
        scalar(float(left) + float(right))
    }
    fn difference(&self, left: Scalar, right: Scalar) -> Scalar {
        scalar(float(left) - float(right))
    }
    fn product(&self, left: Scalar, right: Scalar) -> Scalar {
        scalar(float(left) * float(right))
    }
    fn quotient(&self, left: Scalar, right: Scalar) -> Scalar {
        scalar(float(left) / float(right))
    }
}

impl DoubleArithmetic for Host {
    fn widened(&self, value: Scalar) -> Double {
        double(f64::from(float(value)))
    }
    fn whole(&self, value: i32) -> Double {
        double(f64::from(value))
    }
    fn double_sum(&self, left: Double, right: Double) -> Double {
        double(wide(left) + wide(right))
    }
    fn double_difference(&self, left: Double, right: Double) -> Double {
        double(wide(left) - wide(right))
    }
    fn double_product(&self, left: Double, right: Double) -> Double {
        double(wide(left) * wide(right))
    }
    fn double_quotient(&self, left: Double, right: Double) -> Double {
        double(wide(left) / wide(right))
    }
    fn floor(&self, value: Double) -> Double {
        double(wide(value).floor())
    }
    fn ceiling(&self, value: Double) -> Double {
        double(wide(value).ceil())
    }
    fn tangent(&self, radians: Double) -> Double {
        double(wide(radians).tan())
    }
    fn truncated(&self, value: Double) -> i32 {
        wide(value) as i32
    }
}

impl NativeFonts for Host {
    type Source = Arc<Vec<u8>>;
    type Descriptor = String;
    type Listing = Vec<String>;

    fn source_from_bytes(&self, bytes: Vec<u8>) -> Arc<Vec<u8>> {
        self.sources_made.set(self.sources_made.get() + 1);
        Arc::new(bytes)
    }

    fn share(&self, source: &Arc<Vec<u8>>) -> Arc<Vec<u8>> {
        source.clone()
    }

    fn collection_tables(
        &self,
        source: &Arc<Vec<u8>>,
    ) -> Option<(Vec<String>, Vec<DescriptorTables>)> {
        if !self.reads_collections {
            return None;
        }
        let count = read_u32(source, 8)?;
        // The platform lists faces in an order of its own.
        let listing = (0..count).rev().map(|index| family(source, index).unwrap()).collect();
        let offered = (0..count as usize)
            .rev()
            .map(|index| tables(source, read_u32(source, 12 + 4 * index).unwrap() as usize))
            .collect();
        Some((listing, offered))
    }

    fn collection_descriptor(&self, listing: &Vec<String>, index: usize) -> String {
        listing[index].clone()
    }

    fn single_descriptor(&self, source: &Arc<Vec<u8>>) -> Option<String> {
        if source.starts_with(b"ttcf") {
            return None;
        }
        family(source, 0)
    }

    fn vary(&self, descriptor: String, variations: &[FontVariation]) -> Option<String> {
        if self.refuses_variations {
            return None;
        }
        Some(format!("{descriptor}+{}", variations.len()))
    }
}

fn family(data: &[u8], index: u32) -> Option<String> {
    let font = skrifa::FontRef::from_index(data, index).ok()?;
    let name = font
        .localized_strings(skrifa::string::StringId::FAMILY_NAME)
        .english_or_first()?;
    Some(name.chars().collect())
}

impl NativeCanvas for Host {
    fn glyph_rect(&self, _face: &String, glyph: u16, _size: Double, _skew: Double) -> GlyphRect {
        GlyphRect {
            empty: glyph == 0,
            x: double(0.0),
            y: double(0.0),
            width: double(1.0),
            height: double(3.0),
        }
    }

    fn draw(&self, _face: &String, drawing: &GlyphDrawing, bitmap: &BitmapPlan) -> Vec<u8> {
        let mut bytes = vec![0; bitmap.byte_count];
        match drawing.settings.paint {
            ContextPaint::Gray { quarters } => bytes.fill(quarters),
            ContextPaint::Color(color) => {
                for pixel in bytes.chunks_exact_mut(4) {
                    pixel.copy_from_slice(&[color.red, color.green, color.blue, color.alpha]);
                }
            }
        }
        if let Some(count) = self.drawn_bytes {
            bytes.resize(count, 9);
        }
        bytes
    }

    fn straighten(&self, pixel: Pixel) -> Pixel {
        Pixel { first: pixel.third, third: pixel.first, ..pixel }
    }

    fn rounded(&self, color: Rgba) -> Rgba8 {
        let round = |channel: Scalar| (float(channel) * 255.0).round() as u8;
        Rgba8 {
            red: round(color.red),
            green: round(color.green),
            blue: round(color.blue),
            alpha: round(color.alpha),
        }
    }

    fn smoothing_preference(&self) -> Option<Option<i64>> {
        self.smoothing
    }
}

fn test_collection(faces: &[&[u8]]) -> Vec<u8> {
    let header_len = 12 + faces.len() * 4;
    let mut collection = vec![0; header_len];
    collection[..4].copy_from_slice(b"ttcf");
    collection[4..8].copy_from_slice(&0x0001_0000u32.to_be_bytes());
    collection[8..12].copy_from_slice(&(faces.len() as u32).to_be_bytes());

    for (face_idx, face) in faces.iter().enumerate() {
        while collection.len() % 4 != 0 {
            collection.push(0);
        }

        let face_offset = collection.len();
        let offset_position = 12 + face_idx * 4;
        collection[offset_position..offset_position + 4]
            .copy_from_slice(&(face_offset as u32).to_be_bytes());
        collection.extend_from_slice(face);

        let table_count = read_u16(face, 4).unwrap() as usize;
        for table_idx in 0..table_count {
            let table_offset_position = face_offset + 12 + table_idx * 16 + 8;
            let table_offset = read_u32(&collection, table_offset_position).unwrap();
            let collection_offset = table_offset + face_offset as u32;
            collection[table_offset_position..table_offset_position + 4]
                .copy_from_slice(&collection_offset.to_be_bytes());
        }
    }

    collection
}

#[test]
fn collection_faces_are_selected_and_compacted_by_physical_index() {
    let collection = test_collection(&[TINOS_SUBSET, AHEM, COUSINE_HINT_SUBSET]);
    let host = Host { reads_collections: true, ..Host::default() };
    let source = host.source_from_bytes(collection.clone());
    let (listing, descriptors) = host.collection_tables(&source).unwrap();
    let selected = collection_descriptor(&descriptors, &collection, 1).unwrap();
    assert_eq!(host.collection_descriptor(&listing, selected), "Ahem");

    let sfnt = compact_sfnt_for_face(&collection, 1).unwrap();
    assert!(sfnt.len() < collection.len());
    assert_eq!(sfnt_checksum(&sfnt), CHECKSUM_MAGIC);

    let descriptor = host.single_descriptor(&Arc::new(sfnt)).unwrap();
    assert_eq!(descriptor, "Ahem");

    let data = collection.into();
    let sources_made = Rc::new(Cell::new(0));
    let mut rasterizer = MacGlyphRasterizer::new(Host {
        reads_collections: true,
        sources_made: sources_made.clone(),
        ..Host::default()
    });
    let mut sources = Vec::new();
    for (font_id, face_index) in [(FontId(1), 1), (FontId(2), 2)] {
        let native = rasterizer
            .native_face(&RasterFace {
                font_id,
                source_id: 1,
                source: &data,
                face_index,
                normalized_coords: &[],
                variations: &[],
                synthesis: FontSynthesis::default(),
                has_color_glyphs: false,
            })
            .unwrap();
        sources.push(native.source_data.clone());
    }

    assert!(Arc::ptr_eq(&sources[0], &sources[1]));
    assert_eq!(sources_made.get(), 1);
}

#[test]
fn native_sources_follow_what_the_platform_reads() {
    let collection = test_collection(&[TINOS_SUBSET, AHEM]);
    let listed = Some(vec![
        tables(&collection, read_u32(&collection, 16).unwrap() as usize),
        tables(&collection, read_u32(&collection, 12).unwrap() as usize),
    ]);
    assert_eq!(native_source(AHEM, 0, &None), Ok(NativeSource::WholeFont));
    assert_eq!(
        native_source(AHEM, 2, &None),
        Err(SfntError::SingleFontFace { face_index: 2 })
    );
    assert_eq!(
        native_source(&collection, 1, &listed),
        Ok(NativeSource::Descriptor(0))
    );
    assert_eq!(
        native_source(&collection, 0, &listed),
        Ok(NativeSource::Descriptor(1))
    );
    assert_eq!(
        native_source(&collection, 1, &None),
        Ok(NativeSource::Extracted(compact_sfnt_for_face(&collection, 1).unwrap()))
    );
    let other = vec![tables(COUSINE_HINT_SUBSET, 0)];
    assert_eq!(
        collection_descriptor(&other, &collection, 1),
        Err(SfntError::NoMatchingDescriptor { descriptor_count: 1, face_index: 1 })
    );
}

fn params(glyph: u32, font_size: f32, scale_factor: f32) -> RenderGlyphParams {
    RenderGlyphParams {
        font_id: FontId(1),
        glyph_id: GlyphId(glyph),
        font_size: Pixels(scalar(font_size)),
        subpixel_variant: Point { x: 0, y: 0 },
        scale_factor: scalar(scale_factor),
        is_emoji: false,
        subpixel_rendering: false,
    }
}

#[test]
fn native_faces_fail_with_their_cause() {
    let unreadable = b"not a font".to_vec().into();
    let ahem = AHEM.to_vec().into();
    let face = RasterFace {
        font_id: FontId(1),
        source_id: 1,
        source: &unreadable,
        face_index: 0,
        normalized_coords: &[],
        variations: &[],
        synthesis: FontSynthesis::default(),
        has_color_glyphs: false,
    };
    let mut rasterizer = MacGlyphRasterizer::new(Host::default());
    assert_eq!(rasterizer.native_face(&face).err(), Some(NativeFaceError::FaceRejected));
    let second = RasterFace { source: &ahem, face_index: 1, ..face };
    assert_eq!(
        rasterizer.native_face(&second).err(),
        Some(NativeFaceError::Sfnt(SfntError::SingleFontFace { face_index: 1 }))
    );

    let variations = [FontVariation::new(*b"wght", scalar(700.0))];
    let varied = RasterFace { source: &ahem, variations: &variations, ..face };
    let mut strict =
        MacGlyphRasterizer::new(Host { refuses_variations: true, ..Host::default() });
    assert_eq!(
        strict.native_face(&varied).err(),
        Some(NativeFaceError::VariationsRejected)
    );
    let native = rasterizer.native_face(&varied).unwrap();
    assert_eq!(native.descriptor, "Ahem+1");
}

#[test]
fn glyphs_are_checked_before_they_are_drawn() {
    let ahem = AHEM.to_vec().into();
    let face = RasterFace {
        font_id: FontId(1),
        source_id: 1,
        source: &ahem,
        face_index: 0,
        normalized_coords: &[],
        variations: &[],
        synthesis: FontSynthesis::default(),
        has_color_glyphs: false,
    };
    let style = PreparedRasterStyle::independent(GlyphRenderMode::Grayscale);
    let mut rasterizer = MacGlyphRasterizer::new(Host::default());
    for (params, expected) in [
        (params(1, -1.0, 1.0), MacRasterError::InvalidFontSize),
        (params(1, f32::NAN, 1.0), MacRasterError::InvalidFontSize),
        (params(1, 16.0, 0.0), MacRasterError::InvalidScaleFactor),
        (params(1, 16.0, f32::INFINITY), MacRasterError::InvalidScaleFactor),
        (params(0x1_0000, 16.0, 1.0), MacRasterError::GlyphIdOutOfRange),
    ] {
        assert_eq!(rasterizer.rasterize(face, &params, style).err(), Some(expected));
    }
    let empty = rasterizer.rasterize(face, &params(0, 16.0, 1.0), style).unwrap();
    assert_eq!(empty.size, Size { width: DevicePixels(0), height: DevicePixels(0) });
    assert!(empty.pixels.is_empty());
}

#[test]
fn drawn_glyphs_fill_their_bounds() {
    let ahem = AHEM.to_vec().into();
    let face = RasterFace {
        font_id: FontId(1),
        source_id: 1,
        source: &ahem,
        face_index: 0,
        normalized_coords: &[],
        variations: &[],
        synthesis: FontSynthesis::default(),
        has_color_glyphs: false,
    };
    let mut rasterizer = MacGlyphRasterizer::new(Host::default());
    let dilated = PreparedRasterStyle {
        mode: GlyphRenderMode::Grayscale,
        color_effect: RasterColorEffect::Dilation(3),
    };
    let mask = rasterizer.rasterize(face, &params(1, 16.0, 1.0), dilated).unwrap();
    assert_eq!(mask.format, RasterizedGlyphFormat::AlphaMask);
    assert_eq!(
        mask.bounds,
        Bounds {
            origin: Point { x: DevicePixels(-1), y: DevicePixels(-4) },
            size: Size { width: DevicePixels(3), height: DevicePixels(5) },
        }
    );
    assert_eq!(mask.pixels, [3; 15]);

    let color = Rgba8 { red: 1, green: 2, blue: 3, alpha: 4 };
    let colored = PreparedRasterStyle {
        mode: GlyphRenderMode::Color,
        color_effect: RasterColorEffect::Preblend(color),
    };
    let mut shifted = params(1, 16.0, 1.0);
    shifted.subpixel_variant.x = 2;
    let bitmap = rasterizer.rasterize(face, &shifted, colored).unwrap();
    assert_eq!(bitmap.format, RasterizedGlyphFormat::BgraColor);
    assert_eq!(bitmap.bounds.origin, mask.bounds.origin);
    assert_eq!(bitmap.size, Size { width: DevicePixels(4), height: DevicePixels(5) });
    assert_eq!(bitmap.pixels.len(), 4 * 5 * 4);
    assert_eq!(bitmap.pixels[..4], [3, 2, 1, 4]);
}

#[test]
fn drawings_are_cut_or_filled_to_their_bitmap() {
    let ahem = AHEM.to_vec().into();
    let face = RasterFace {
        font_id: FontId(1),
        source_id: 1,
        source: &ahem,
        face_index: 0,
        normalized_coords: &[],
        variations: &[],
        synthesis: FontSynthesis::default(),
        has_color_glyphs: false,
    };
    let style = PreparedRasterStyle {
        mode: GlyphRenderMode::Grayscale,
        color_effect: RasterColorEffect::Dilation(3),
    };
    let short = [[3; 5].as_slice(), &[0; 10]].concat();
    for (drawn, expected) in [(5, short), (15, vec![3; 15]), (20, vec![3; 15])] {
        let mut rasterizer =
            MacGlyphRasterizer::new(Host { drawn_bytes: Some(drawn), ..Host::default() });
        let raster = rasterizer.rasterize(face, &params(1, 16.0, 1.0), style).unwrap();
        assert_eq!(raster.pixels, expected);
    }
}

fn frame(scale: f64, embolden: f64) -> GlyphFrame {
    GlyphFrame {
        font_size: double(16.0),
        scale: double(scale),
        skew: double(0.0),
        embolden: double(embolden),
    }
}

fn rect(x: f64, y: f64, width: f64, height: f64) -> GlyphRect {
    GlyphRect {
        empty: false,
        x: double(x),
        y: double(y),
        width: double(width),
        height: double(height),
    }
}

#[test]
fn bitmaps_are_planned_around_glyphs() {
    let host = Host::default();
    let glyph = rect(0.25, -1.0, 2.0, 4.5);
    let aligned = plan_bitmap(&host, &glyph, &frame(2.0, 0.0), 0, GlyphRenderMode::Color)
        .unwrap()
        .unwrap();
    // From 0.5 - 1 to 4.5 + 1 across, and from -7 - 1 to 2 + 1 down.
    assert_eq!((aligned.left, aligned.top), (-1, -8));
    assert_eq!((aligned.width, aligned.height), (7, 11));
    assert_eq!(aligned.format, RasterizedGlyphFormat::BgraColor);
    assert_eq!((aligned.bytes_per_row, aligned.byte_count), (28, 308));
    assert_eq!(wide(aligned.edges.right), 6.0);

    let shifted = plan_bitmap(&host, &glyph, &frame(2.0, 0.0), 1, GlyphRenderMode::Subpixel)
        .unwrap()
        .unwrap();
    assert_eq!((shifted.left, shifted.width), (aligned.left, aligned.width + 1));
    assert_eq!((shifted.top, shifted.height), (aligned.top, aligned.height));
    assert_eq!(shifted.bytes_per_row, 8);

    let heavier = plan_bitmap(&host, &glyph, &frame(2.0, 0.75), 0, GlyphRenderMode::Grayscale)
        .unwrap()
        .unwrap();
    assert_eq!((heavier.left, heavier.width), (-3, 11));
}

#[test]
fn glyphs_without_ink_need_no_bitmap() {
    let host = Host::default();
    let plain = frame(1.0, 0.0);
    let blank = GlyphRect { empty: true, ..rect(0.0, 0.0, 1.0, 1.0) };
    for glyph in [
        blank,
        rect(0.0, 0.0, 0.0, 1.0),
        rect(0.0, 0.0, 1.0, -1.0),
        rect(f64::NAN, 0.0, 1.0, 1.0),
    ] {
        let planned = plan_bitmap(&host, &glyph, &plain, 0, GlyphRenderMode::Color);
        assert!(matches!(planned, Ok(None)));
    }
}

#[test]
fn drawings_are_placed_in_their_bitmap() {
    let host = Host::default();
    let glyph = NativeGlyph {
        glyph: 1,
        font_size: Pixels(scalar(24.0)),
        scale_factor: scalar(2.0),
        subpixel_variant: Point { x: 3, y: 0 },
        skew_degrees: Some(scalar(45.0)),
        embolden: true,
    };
    let frame = frame_glyph(&host, &glyph);
    assert_eq!((wide(frame.font_size), wide(frame.scale)), (24.0, 2.0));
    assert_eq!(wide(frame.skew), (45.0 * std::f64::consts::PI / 180.0).tan());
    assert_eq!(wide(frame.embolden), 0.5);
    let upright = NativeGlyph { skew_degrees: None, embolden: false, ..glyph };
    let plain = frame_glyph(&host, &upright);
    assert_eq!((wide(plain.skew), wide(plain.embolden)), (0.0, 0.0));

    let bitmap = plan_bitmap(&host, &rect(0.0, 0.0, 1.0, 3.0), &frame, 3, GlyphRenderMode::Color)
        .unwrap()
        .unwrap();
    let placement = place_glyph(&host, &glyph, &frame, &bitmap);
    assert_eq!(wide(placement.line_width), 1.0);
    assert_eq!(wide(placement.translation.x), -f64::from(bitmap.left));
    assert_eq!(
        wide(placement.translation.y),
        f64::from(bitmap.top) + f64::from(bitmap.height)
    );
    assert_eq!(wide(placement.offset.x), 3.0 / 4.0 / 2.0);
    assert_eq!(wide(placement.offset.y), 0.0);
}

#[test]
fn styles_follow_color_and_preference() {
    for (value, level) in [(0.0, 0), (0.1, 0), (0.13, 1), (0.5, 2), (0.7, 3), (1.0, 4)] {
        assert_eq!(dilation_for_color(&Host::default(), gray(value)), level);
    }
    for (preference, allowed) in [
        (None, true),
        (Some(None), true),
        (Some(Some(0)), false),
        (Some(Some(2)), true),
    ] {
        assert_eq!(font_smoothing_allowed(preference), allowed);
    }
    assert_eq!(
        format_for_mode(GlyphRenderMode::Subpixel),
        RasterizedGlyphFormat::AlphaMask
    );
    assert_eq!(
        format_for_mode(GlyphRenderMode::Color),
        RasterizedGlyphFormat::BgraColor
    );

    let rasterizer = MacGlyphRasterizer::new(Host::default());
    let style = rasterizer.prepare_style(RasterStyleRequest {
        scene_color: gray(1.0),
        requested_mode: GlyphRenderMode::Color,
    });
    assert_eq!(
        style.color_effect,
        RasterColorEffect::Preblend(Rgba8 { red: 255, green: 255, blue: 255, alpha: 255 })
    );
    assert!(rasterizer.supports_color_glyph(ColorGlyphKind::Svg));
    assert_eq!(rasterizer.recommended_mode(), TextRenderingMode::Grayscale);
    let unsmoothed = MacGlyphRasterizer::new(Host { smoothing: Some(Some(0)), ..Host::default() });
    for (rasterizer, level) in [(&rasterizer, 4), (&unsmoothed, 0)] {
        let style = rasterizer.prepare_style(RasterStyleRequest {
            scene_color: gray(1.0),
            requested_mode: GlyphRenderMode::Subpixel,
        });
        assert_eq!(
            style,
            PreparedRasterStyle {
                mode: GlyphRenderMode::Grayscale,
                color_effect: RasterColorEffect::Dilation(level),
            }
        );
    }
    assert_eq!(
        context_settings(style, true),
        ContextSettings {
            stroke: true,
            smooth_fonts: None,
            paint: ContextPaint::Color(Rgba8 { red: 255, green: 255, blue: 255, alpha: 255 }),
        }
    );
    assert_eq!(
        context_settings(PreparedRasterStyle::independent(GlyphRenderMode::Grayscale), false),
        ContextSettings {
            stroke: false,
            smooth_fonts: None,
            paint: ContextPaint::Gray { quarters: 0 },
        }
    );
}
