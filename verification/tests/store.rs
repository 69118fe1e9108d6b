use font_test_data::{AHEM, CANTARELL_VF_TRIMMED, COLRV0V1};
use gpui_text::blob::FontSynthesis;
use gpui_text::design::DesignSpace;
use gpui_text::face::{FaceMetrics, GlyphExtent};
use gpui_text::scalar::{Arithmetic, Scalar};
use gpui_text::store::{
    canonical_index, font_metrics_from, glyph_bounds_from, FaceError, FontStore,
    CANONICAL_FONT_ID_BIT,
};
use gpui_text::text_system::{FontId, GlyphId};
use fontique::{Blob, Synthesis};
use skrifa::instance::NormalizedCoord;
use skrifa::raw::types::Tag;
use skrifa::setting::VariationSetting;

struct Host;

fn scalar(value: f32) -> Scalar {
    Scalar { bits: value.to_bits() }
}

fn float(value: Scalar) -> f32 {
    f32::from_bits(value.bits)
}

impl Arithmetic for Host {
    fn from_integer(&self, value: u32) -> Scalar {
        scalar(value as f32)
    }
    fn sum(&self, left: Scalar, right: Scalar) -> Scalar {
        scalar(float(left) + float(right))
    }
    fn difference(&self, left: Scalar, right: Scalar) -> Scalar {
        scalar(float(left) - float(right))
    }
    fn product(&self, left: Scalar, right: Scalar) -> Scalar {
        scalar(float(left) * float(right))
    }
    fn quotient(&self, left: Scalar, right: Scalar) -> Scalar {
        scalar(float(left) / float(right))
    }
}

impl DesignSpace for Host {
    fn coordinate(&self, bits: i16) -> Scalar {
        scalar(NormalizedCoord::from_bits(bits).to_f32())
    }
    fn setting(&self, tag: u32, value: Scalar) -> VariationSetting {
        VariationSetting::new(Tag::from_u32(tag), float(value))
    }
}

#[test]
fn interning_deduplicates_only_equivalent_font_instances() {
    let data: Blob<u8> = Blob::from(AHEM.to_vec());
    let mut store = FontStore::default();
    let first = store
        .intern(data.clone(), 0, &[], Synthesis::default(), &Host)
        .unwrap();
    let duplicate = store
        .intern(data.clone(), 0, &[], Synthesis::default(), &Host)
        .unwrap();
    assert_eq!(first, duplicate);

    let varied = store
        .intern(
            data,
            0,
            &[NormalizedCoord::from_f32(0.5).to_bits()],
            Synthesis::default(),
            &Host,
        )
        .unwrap();
    assert_ne!(first, varied);

    let copied_source = store
        .intern(Blob::from(AHEM.to_vec()), 0, &[], Synthesis::default(), &Host)
        .unwrap();
    assert_ne!(first, copied_source);
    assert!(store.get(first).is_some());
    assert!(store.get(FontId(0)).is_none());
}

#[test]
fn instances_are_told_apart_whatever_was_interned_in_between() {
    let data: Blob<u8> = Blob::from(AHEM.to_vec());
    let mut store = FontStore::default();
    let ids: Vec<FontId> = (0..4)
        .map(|coordinate| {
            store
                .intern(data.clone(), 0, &[coordinate], Synthesis::default(), &Host)
                .unwrap()
        })
        .collect();
    for (coordinate, id) in ids.iter().enumerate().rev() {
        let again = store
            .intern(data.clone(), 0, &[coordinate as i16], Synthesis::default(), &Host)
            .unwrap();
        assert_eq!(again, *id);
        assert_eq!(ids.iter().filter(|other| **other == again).count(), 1);
        assert!(store.get(again).unwrap().normalized_coords == [coordinate as i16]);
    }
}

#[test]
fn stored_fonts_keep_what_was_interned() {
    let data: Blob<u8> = Blob::from(COLRV0V1.to_vec());
    let mut store = FontStore::default();
    let font_id = store
        .intern(data.clone(), 0, &[], Synthesis::default(), &Host)
        .unwrap();
    assert_eq!(font_id, FontId(CANONICAL_FONT_ID_BIT));
    let other = store
        .intern(Blob::from(AHEM.to_vec()), 0, &[], Synthesis::default(), &Host)
        .unwrap();
    assert_eq!(other, FontId(CANONICAL_FONT_ID_BIT + 1));

    let font = store.get(font_id).unwrap();
    assert_eq!(font.data.as_ref(), COLRV0V1);
    assert_eq!(font.data_identity(), data.id());
    assert!(font.has_color_glyphs);
    assert!(!store.get(other).unwrap().has_color_glyphs);
    let face = font.raster_face(font_id);
    assert_eq!(face.font_id, font_id);
    assert_eq!(face.source_id, data.id());
    assert_eq!(face.data(), COLRV0V1);
    assert!(store.get(FontId(CANONICAL_FONT_ID_BIT + 2)).is_none());
}

#[test]
fn faces_that_cannot_be_parsed_are_not_interned() {
    let mut store = FontStore::default();
    let broken: Blob<u8> = Blob::from(b"not a font".to_vec());
    assert_eq!(
        store.intern(broken.clone(), 0, &[], Synthesis::default(), &Host),
        Err(FaceError::InternedFace)
    );
    assert_eq!(
        store.intern_synthesized(broken, 0, Synthesis::default(), &Host),
        Err(FaceError::InternedFace)
    );
    assert!(store.get(FontId(CANONICAL_FONT_ID_BIT)).is_none());
}

#[test]
fn synthesized_instances_are_placed_by_their_settings() {
    let data: Blob<u8> = Blob::from(CANTARELL_VF_TRIMMED.to_vec());
    let mut store = FontStore::default();
    let plain = store
        .intern_synthesized(data.clone(), 0, Synthesis::default(), &Host)
        .unwrap();
    assert_eq!(store.get(plain).unwrap().normalized_coords, [0]);
    let again = store
        .intern(data, 0, &[0], Synthesis::default(), &Host)
        .unwrap();
    assert_eq!(plain, again);
    let synthesis = store.get(plain).unwrap().synthesis;
    assert!(!synthesis.embolden);
    assert!(synthesis.skew_degrees.is_none());
    assert!(FontSynthesis::default().skew_degrees.is_none());
}

#[test]
fn canonical_identifiers_carry_their_index() {
    assert_eq!(canonical_index(FontId(0)), None);
    assert_eq!(canonical_index(FontId(CANONICAL_FONT_ID_BIT - 1)), None);
    assert_eq!(canonical_index(FontId(CANONICAL_FONT_ID_BIT)), Some(0));
    assert_eq!(canonical_index(FontId(CANONICAL_FONT_ID_BIT + 7)), Some(7));
}

#[test]
fn glyphs_are_mapped_and_measured() {
    let mut store = FontStore::default();
    let font_id = store
        .intern(Blob::from(AHEM.to_vec()), 0, &[], Synthesis::default(), &Host)
        .unwrap();
    let font = store.get(font_id).unwrap();
    let metrics = font.metrics(&Host).unwrap();
    assert_eq!(metrics.units_per_em, 1000);
    assert_eq!(float(metrics.ascent), 800.0);
    assert_eq!(float(metrics.descent), 200.0);

    let glyph = font.glyph_for_char('m').unwrap().unwrap();
    assert_eq!(font.glyph_for_char('\u{1F9A5}'), Ok(None));
    let advance = font.advance(glyph).unwrap();
    assert_eq!(float(advance.width), 1000.0);
    assert_eq!(float(advance.height), 0.0);
    let bounds = font.glyph_bounds(glyph, &Host).unwrap();
    assert_eq!(float(bounds.origin.x), 0.0);
    assert_eq!(float(bounds.origin.y), -200.0);
    assert_eq!(float(bounds.size.width), 1000.0);
    assert_eq!(float(bounds.size.height), 1000.0);
    assert!(font.color_glyphs().unwrap().available_kinds(GlyphId(1)).is_empty());
}

#[test]
fn metrics_that_a_face_does_not_tell_are_derived() {
    let face = FaceMetrics {
        units_per_em: 1000,
        ascent: 800f32.to_bits(),
        descent: (-200f32).to_bits(),
        leading: 50f32.to_bits(),
        underline_offset: None,
        underline_thickness: None,
        cap_height: None,
        x_height: None,
        max_width: None,
    };
    let metrics = font_metrics_from(face, &Host);
    assert_eq!(metrics.units_per_em, 1000);
    assert_eq!(float(metrics.line_gap), 50.0);
    assert_eq!(float(metrics.cap_height), 800.0);
    assert_eq!(float(metrics.x_height), 800.0);
    assert_eq!(float(metrics.underline_thickness), 0.0);
    assert_eq!(float(metrics.bounding_box.size.width), 0.0);
    assert_eq!(float(metrics.bounding_box.size.height), 1000.0);
}

#[test]
fn glyphs_without_an_extent_are_empty() {
    let empty = glyph_bounds_from(None, &Host);
    assert_eq!(float(empty.size.width), 0.0);
    assert_eq!(float(empty.size.height), 0.0);
    let extent = GlyphExtent {
        x_min: scalar(-5.0),
        y_min: scalar(10.0),
        x_max: scalar(20.0),
        y_max: scalar(110.0),
    };
    let bounds = glyph_bounds_from(Some(extent), &Host);
    assert_eq!(float(bounds.origin.x), -5.0);
    assert_eq!(float(bounds.origin.y), 10.0);
    assert_eq!(float(bounds.size.width), 25.0);
    assert_eq!(float(bounds.size.height), 100.0);
}

#[test]
fn faces_are_parsed_where_their_bytes_say() {
    let mut store = FontStore::default();
    let mut parses = |data: &[u8], index: u32| {
        store
            .intern(Blob::from(data.to_vec()), index, &[], Synthesis::default(), &Host)
            .is_ok()
    };
    let directory = [b"OTTO".as_slice(), &[0; 8]].concat();
    assert!(parses(&directory, 0));
    assert!(!parses(&directory, 1));
    assert!(!parses(&directory[..11], 0));
    assert!(!parses(&[b"wOFF".as_slice(), &[0; 8]].concat(), 0));

    let listing = |count: u32, offset: u32| {
        let mut collection = b"ttcf\0\x01\0\0".to_vec();
        collection.extend_from_slice(&count.to_be_bytes());
        collection.extend_from_slice(&offset.to_be_bytes());
        collection.extend_from_slice(&directory);
        collection
    };
    assert!(parses(&listing(1, 16), 0));
    assert!(!parses(&listing(1, 16), 1));
    assert!(!parses(&listing(1, 17), 0));
    // A header that lists more than the bytes hold lists nothing.
    assert!(!parses(&listing(9, 16), 0));
}
