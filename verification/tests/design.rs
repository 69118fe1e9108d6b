use font_test_data::{AHEM, CANTARELL_VF_TRIMMED, MATERIAL_SYMBOLS_SUBSET};
use gpui_text::blob::FontSynthesis;
use gpui_text::design::{design_variations, DesignSpace, FontVariation};
use gpui_text::scalar::{Arithmetic, Scalar};
use gpui_text::store::{FaceError, RasterFace};
use gpui_text::text_system::FontId;
use skrifa::instance::NormalizedCoord;
use skrifa::raw::types::Tag;
use skrifa::setting::VariationSetting;
use skrifa::{FontRef, MetadataProvider};

struct Host;

fn scalar(value: f32) -> Scalar {
    Scalar { bits: value.to_bits() }
}

fn float(value: Scalar) -> f32 {
    f32::from_bits(value.bits)
}

impl Arithmetic for Host {
    fn from_integer(&self, value: u32) -> Scalar {
        scalar(value as f32)
    }
    fn sum(&self, left: Scalar, right: Scalar) -> Scalar {
        scalar(float(left) + float(right))
    }
    fn difference(&self, left: Scalar, right: Scalar) -> Scalar {
        scalar(float(left) - float(right))
    }
    fn product(&self, left: Scalar, right: Scalar) -> Scalar {
        scalar(float(left) * float(right))
    }
    fn quotient(&self, left: Scalar, right: Scalar) -> Scalar {
        scalar(float(left) / float(right))
    }
}

impl DesignSpace for Host {
    fn coordinate(&self, bits: i16) -> Scalar {
        scalar(NormalizedCoord::from_bits(bits).to_f32())
    }
    fn setting(&self, tag: u32, value: Scalar) -> VariationSetting {
        VariationSetting::new(Tag::from_u32(tag), float(value))
    }
}

fn location(font: &FontRef<'_>, variations: &[FontVariation]) -> Vec<i16> {
    font.axes()
        .location(
            variations
                .iter()
                .map(|variation| (Tag::from_u32(variation.tag), float(variation.value))),
        )
        .coords()
        .iter()
        .map(|coordinate| coordinate.to_bits())
        .collect()
}

fn bits(coordinates: &[f32]) -> Vec<i16> {
    coordinates
        .iter()
        .map(|coordinate| NormalizedCoord::from_f32(*coordinate).to_bits())
        .collect()
}

#[test]
fn design_variations_round_trip_normalized_coordinates() {
    for data in [CANTARELL_VF_TRIMMED, MATERIAL_SYMBOLS_SUBSET] {
        let font = FontRef::new(data).unwrap();
        let count = font.axes().len();
        let source = data.to_vec().into();

        let mut targets = vec![bits(&vec![0.0; count])];
        if count == 1 {
            targets.push(bits(&[-0.35]));
            targets.push(bits(&[0.625]));
        } else {
            targets.push(bits(&[0.5, -0.35, 0.25, 0.625]));
        }
        for target in targets {
            let variations = design_variations(&font, &target, &Host);
            assert_eq!(location(&font, &variations), target);
            let face = RasterFace {
                font_id: FontId(1),
                source_id: 1,
                source: &source,
                face_index: 0,
                normalized_coords: &target,
                variations: &variations,
                synthesis: FontSynthesis::default(),
                has_color_glyphs: false,
            };
            assert_eq!(
                face.has_default_variations().unwrap(),
                target.iter().all(|coordinate| *coordinate == 0)
            );
        }
    }
}

#[test]
fn unvaried_faces_stand_at_the_defaults_of_their_axes() {
    let font = FontRef::new(MATERIAL_SYMBOLS_SUBSET).unwrap();
    let variations = design_variations(&font, &[], &Host);
    let expected: Vec<(u32, f32)> = font
        .axes()
        .iter()
        .map(|axis| (u32::from_be_bytes(axis.tag().to_be_bytes()), axis.default_value()))
        .collect();
    let actual: Vec<(u32, f32)> = variations
        .iter()
        .map(|variation| (variation.tag, float(variation.value)))
        .collect();
    assert_eq!(actual, expected);
    assert_eq!(actual.len(), 4);
}

#[test]
fn static_faces_have_no_variations() {
    let font = FontRef::new(AHEM).unwrap();
    assert!(design_variations(&font, &[8192], &Host).is_empty());
}

#[test]
fn variation_tags_are_big_endian_numbers() {
    let variation = FontVariation::new(*b"wght", scalar(650.0));
    assert_eq!(variation.tag, 0x7767_6874);
    assert_eq!(float(variation.value), 650.0);
}

#[test]
fn unreadable_faces_have_no_axes_to_inspect() {
    let source = b"not a font".to_vec().into();
    let face = RasterFace {
        font_id: FontId(1),
        source_id: 1,
        source: &source,
        face_index: 0,
        normalized_coords: &[],
        variations: &[],
        synthesis: FontSynthesis::default(),
        has_color_glyphs: true,
    };
    assert_eq!(face.has_default_variations(), Err(FaceError::VariationAxes));
    assert_eq!(face.data(), b"not a font");
}

#[test]
fn coordinates_and_stylings_compare_as_numbers_do() {
    let weight = FontVariation::new(*b"wght", scalar(0.0));
    assert!(weight == FontVariation::new(*b"wght", scalar(-0.0)));
    assert!(weight != FontVariation::new(*b"wdth", scalar(0.0)));
    assert!(weight != FontVariation::new(*b"wght", scalar(1.0)));
    let undefined = FontVariation::new(*b"wght", scalar(f32::NAN));
    assert!(undefined != undefined);

    let skewed = |degrees: f32| FontSynthesis {
        embolden: false,
        skew_degrees: Some(scalar(degrees)),
    };
    assert!(FontSynthesis::default() == FontSynthesis::default());
    assert!(skewed(0.0) == skewed(-0.0));
    assert!(skewed(14.0) != skewed(0.0));
    assert!(skewed(14.0) != FontSynthesis::default());
    assert!(FontSynthesis { embolden: true, ..skewed(14.0) } != skewed(14.0));
}
