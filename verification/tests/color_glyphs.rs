use font_test_data::{AHEM, CBDT, COLRV0V1, NOTO_HANDWRITING_SBIX};
use gpui_text::bitmap_location::is_cut_off;
use gpui_text::blob::FontSynthesis;
use gpui_text::color_glyphs::{
    available_in_order, first_supported_color_kind, ranges_have_glyph, sbix_has_glyph,
    ColorGlyphClassifier, ColorGlyphKind,
};
use gpui_text::store::{FaceError, RasterFace};
use gpui_text::text_system::{FontId, GlyphId};
use skrifa::raw::FontRead;
use skrifa::{FontRef, MetadataProvider};

#[test]
fn supported_color_artwork_is_selected_when_a_preferred_format_is_unsupported() {
    let available = [ColorGlyphKind::ColrV1, ColorGlyphKind::ColrV0];
    let selected = first_supported_color_kind(&available, |kind| kind == ColorGlyphKind::ColrV0);

    assert_eq!(selected, Some(ColorGlyphKind::ColrV0));
}

#[test]
fn sbix_records_are_artwork_even_when_their_payload_is_a_native_reference() {
    for graphic_type in [*b"flip", *b"dupe"] {
        let mut table = Vec::new();
        table.extend_from_slice(&1u16.to_be_bytes());
        table.extend_from_slice(&1u16.to_be_bytes());
        table.extend_from_slice(&1u32.to_be_bytes());
        table.extend_from_slice(&12u32.to_be_bytes());
        table.extend_from_slice(&20u16.to_be_bytes());
        table.extend_from_slice(&72u16.to_be_bytes());
        table.extend_from_slice(&16u32.to_be_bytes());
        table.extend_from_slice(&16u32.to_be_bytes());
        table.extend_from_slice(&26u32.to_be_bytes());
        table.extend_from_slice(&0i16.to_be_bytes());
        table.extend_from_slice(&0i16.to_be_bytes());
        table.extend_from_slice(&graphic_type);
        table.extend_from_slice(&0u16.to_be_bytes());

        let sbix =
            skrifa::raw::tables::sbix::Sbix::read(skrifa::raw::FontData::new(&table), 2).unwrap();

        assert!(!sbix_has_glyph(&sbix, GlyphId(0)));
        assert!(sbix_has_glyph(&sbix, GlyphId(1)));
    }
}

fn glyph(data: &[u8], character: char) -> GlyphId {
    let font = FontRef::new(data).unwrap();
    GlyphId(font.charmap().map(character).unwrap().to_u32())
}

fn kinds(data: &[u8], glyph_id: GlyphId) -> Vec<ColorGlyphKind> {
    ColorGlyphClassifier::new(FontRef::new(data).unwrap()).available_kinds(glyph_id)
}

#[test]
fn no_kind_is_selected_where_none_is_supported() {
    let available = [ColorGlyphKind::Bitmap, ColorGlyphKind::Svg];
    assert_eq!(first_supported_color_kind(&available, |_| false), None);
    assert_eq!(first_supported_color_kind(&[], |_| true), None);
    assert_eq!(
        first_supported_color_kind(&available, |_| true),
        Some(ColorGlyphKind::Bitmap)
    );
}

#[test]
fn kinds_are_listed_in_preference_order() {
    assert_eq!(
        available_in_order(true, true, true, true),
        [
            ColorGlyphKind::ColrV1,
            ColorGlyphKind::ColrV0,
            ColorGlyphKind::Bitmap,
            ColorGlyphKind::Svg,
        ]
    );
    assert_eq!(
        available_in_order(false, true, false, true),
        [ColorGlyphKind::ColrV0, ColorGlyphKind::Svg]
    );
    assert!(available_in_order(false, false, false, false).is_empty());
}

#[test]
fn svg_ranges_hold_their_ends() {
    let ranges = vec![(3, 5), (9, 9)];
    for (glyph_id, expected) in [(2, false), (3, true), (5, true), (6, false), (9, true), (10, false)]
    {
        assert_eq!(ranges_have_glyph(&ranges, GlyphId(glyph_id)), expected);
    }
}

#[test]
fn color_glyphs_are_found_in_their_tables() {
    // A glyph with layers, and one with a paint graph.
    assert_eq!(
        kinds(COLRV0V1, glyph(COLRV0V1, '\u{f0e00}')),
        [ColorGlyphKind::ColrV0]
    );
    assert_eq!(
        kinds(COLRV0V1, glyph(COLRV0V1, '\u{f0100}')),
        [ColorGlyphKind::ColrV1]
    );
    assert!(kinds(COLRV0V1, GlyphId(0)).is_empty());
    assert!(kinds(AHEM, glyph(AHEM, 'm')).is_empty());

    let sbix = FontRef::new(NOTO_HANDWRITING_SBIX).unwrap();
    let with_strike = sbix
        .charmap()
        .mappings()
        .map(|(_, glyph_id)| GlyphId(glyph_id.to_u32()))
        .find(|glyph_id| !kinds(NOTO_HANDWRITING_SBIX, *glyph_id).is_empty())
        .unwrap();
    assert_eq!(
        kinds(NOTO_HANDWRITING_SBIX, with_strike),
        [ColorGlyphKind::Bitmap]
    );

    let cbdt = FontRef::new(CBDT).unwrap();
    let mapped: Vec<GlyphId> = cbdt
        .charmap()
        .mappings()
        .map(|(_, glyph_id)| GlyphId(glyph_id.to_u32()))
        .collect();
    assert!(mapped
        .iter()
        .any(|glyph_id| kinds(CBDT, *glyph_id) == [ColorGlyphKind::Bitmap]));
    assert!(kinds(CBDT, GlyphId(60_000)).is_empty());
}

#[test]
fn faces_offer_the_first_kind_that_a_rasterizer_supports() {
    let source = COLRV0V1.to_vec().into();
    let face = RasterFace {
        font_id: FontId(1),
        source_id: 1,
        source: &source,
        face_index: 0,
        normalized_coords: &[],
        variations: &[],
        synthesis: FontSynthesis::default(),
        has_color_glyphs: true,
    };
    let layered = glyph(COLRV0V1, '\u{f0e00}');
    assert_eq!(
        face.supported_color_glyph_kind(layered, |_| true),
        Ok(Some(ColorGlyphKind::ColrV0))
    );
    assert_eq!(
        face.supported_color_glyph_kind(layered, |kind| kind == ColorGlyphKind::Bitmap),
        Ok(None)
    );
    assert_eq!(
        face.supported_color_glyph_kind(GlyphId(0), |_| true),
        Ok(None)
    );

    let unreadable = b"not a font".to_vec().into();
    let broken = RasterFace { source: &unreadable, ..face };
    assert_eq!(
        broken.supported_color_glyph_kind(layered, |_| true),
        Err(FaceError::ColorGlyphs)
    );
}

/// The location table of one strike with bitmaps for glyphs 1 and 2, in a subtable whose glyphs
/// share their metrics. The list of subtables is told to be shorter by `missing` bytes.
fn bitmap_location(missing: u32) -> Vec<u8> {
    let mut table = Vec::new();
    table.extend_from_slice(&3u16.to_be_bytes());
    table.extend_from_slice(&0u16.to_be_bytes());
    table.extend_from_slice(&1u32.to_be_bytes());
    table.extend_from_slice(&56u32.to_be_bytes());
    table.extend_from_slice(&(28 - missing).to_be_bytes());
    table.extend_from_slice(&1u32.to_be_bytes());
    table.extend_from_slice(&[0; 28]);
    table.extend_from_slice(&1u16.to_be_bytes());
    table.extend_from_slice(&2u16.to_be_bytes());
    table.extend_from_slice(&[16, 16, 32, 1]);
    table.extend_from_slice(&1u16.to_be_bytes());
    table.extend_from_slice(&2u16.to_be_bytes());
    table.extend_from_slice(&8u32.to_be_bytes());
    table.extend_from_slice(&2u16.to_be_bytes());
    table.extend_from_slice(&17u16.to_be_bytes());
    table.extend_from_slice(&4u32.to_be_bytes());
    table.extend_from_slice(&10u32.to_be_bytes());
    table.extend_from_slice(&[1, 1, 0, 0, 1, 0, 0, 1]);
    table
}

fn bitmap_font(location: &[u8]) -> Vec<u8> {
    let mut images = vec![0, 3, 0, 0];
    for _ in 0..2 {
        images.extend_from_slice(&[1, 1, 0, 0, 1, 0, 0, 0, 1, 7]);
    }
    let mut font = Vec::new();
    font.extend_from_slice(&0x0001_0000u32.to_be_bytes());
    font.extend_from_slice(&2u16.to_be_bytes());
    font.extend_from_slice(&[0; 6]);
    for (tag, offset, len) in [
        (b"CBDT", 44, images.len()),
        (b"CBLC", 44 + images.len(), location.len()),
    ] {
        font.extend_from_slice(tag);
        font.extend_from_slice(&[0; 4]);
        font.extend_from_slice(&(offset as u32).to_be_bytes());
        font.extend_from_slice(&(len as u32).to_be_bytes());
    }
    font.extend_from_slice(&images);
    font.extend_from_slice(location);
    font
}

#[test]
fn subtables_that_end_before_their_metrics_lead_to_no_bitmap() {
    let whole = bitmap_location(0);
    let font = bitmap_font(&whole);
    for (glyph_id, expected) in [(0, false), (1, true), (2, true), (3, false)] {
        assert!(!is_cut_off(&whole, 0, glyph_id));
        assert_eq!(!kinds(&font, GlyphId(glyph_id)).is_empty(), expected);
    }

    for missing in 1..=8 {
        let cut = bitmap_location(missing);
        let font = bitmap_font(&cut);
        assert!(!is_cut_off(&cut, 0, 0));
        assert!(is_cut_off(&cut, 0, 1));
        assert!(is_cut_off(&cut, 0, 2));
        assert!(!is_cut_off(&cut, 1, 1));
        for glyph_id in 0..4 {
            assert!(kinds(&font, GlyphId(glyph_id)).is_empty());
        }
    }

    // Without its fixed fields the subtable is not read at all.
    let unread = bitmap_location(9);
    assert!(!is_cut_off(&unread, 0, 1));
    assert!(kinds(&bitmap_font(&unread), GlyphId(1)).is_empty());
}
