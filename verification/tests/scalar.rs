use gpui_text::double::Double;
use gpui_text::geometry::{Bounds, Pixels, Point, Size};
use gpui_text::scalar::Scalar;
use gpui_text::style_transitions::StyleTransitionContext;

fn scalar(value: f32) -> Scalar {
    Scalar { bits: value.to_bits() }
}

fn float(value: Scalar) -> f32 {
    f32::from_bits(value.bits)
}

const NUMBERS: [f32; 12] = [
    0.0,
    -0.0,
    1.0,
    -1.0,
    0.5,
    3.25,
    -1e-40,
    f32::MIN_POSITIVE,
    f32::MAX,
    f32::INFINITY,
    f32::NEG_INFINITY,
    f32::NAN,
];

#[test]
fn encodings_are_classified_as_the_numbers_are() {
    assert_eq!(float(Scalar::zero()), 0.0);
    for number in NUMBERS {
        let value = scalar(number);
        assert_eq!(value.is_finite(), number.is_finite(), "{number}");
        assert_eq!(value.is_nan(), number.is_nan(), "{number}");
        assert_eq!(value.is_positive(), number > 0.0, "{number}");
        assert_eq!(value.is_at_least_zero(), number >= 0.0, "{number}");
        assert_eq!(value.is_in_unit_interval(), (0.0..=1.0).contains(&number), "{number}");
        assert_eq!(value.negate().bits, (-number).to_bits(), "{number}");
        assert_eq!(value == value, !number.is_nan(), "{number}");
        for other in NUMBERS {
            assert_eq!(value == scalar(other), number == other, "{number} {other}");
            if !number.is_nan() && !other.is_nan() {
                assert_eq!(value.is_at_most(scalar(other)), number <= other, "{number} {other}");
            }
        }
    }
}

#[test]
fn equal_numbers_have_one_canonical_encoding() {
    assert_eq!(scalar(-0.0).canonical_bits(), scalar(0.0).canonical_bits());
    assert_ne!(scalar(1.0).canonical_bits(), scalar(2.0).canonical_bits());
    assert_eq!(scalar(1.5).canonical_bits(), 1.5f32.to_bits());
}

#[test]
fn halves_are_exact() {
    for number in [0.0, 1.0, -3.5, 1e-38, 3e-45, 7e-45, f32::MAX, f32::INFINITY] {
        assert_eq!(float(scalar(number).halve()), number / 2.0, "{number:e}");
    }
}

#[test]
fn corners_are_no_rounder_than_half_of_the_shorter_side() {
    let pixels = |value: f32| Pixels(scalar(value));
    for (width, height, radius) in [(10.0, 4.0, 2.0), (3.0, 8.0, 1.5), (0.0, 5.0, 0.0)] {
        let context = StyleTransitionContext::new(
            Bounds {
                origin: Point { x: pixels(7.0), y: pixels(9.0) },
                size: Size { width: pixels(width), height: pixels(height) },
            },
            pixels(16.0),
        );
        assert_eq!(float(context.max_corner_radius.0), radius);
        assert_eq!(float(context.rem_size.0), 16.0);
    }
    // Of a side that is not a number, half of one of the sides is taken.
    let context = StyleTransitionContext::new(
        Bounds {
            origin: Point { x: pixels(0.0), y: pixels(0.0) },
            size: Size { width: pixels(f32::NAN), height: pixels(6.0) },
        },
        pixels(16.0),
    );
    let radius = float(context.max_corner_radius.0);
    assert!(radius.is_nan() || radius == 3.0);
}

#[test]
fn whole_parts_fit_in_a_byte() {
    for number in NUMBERS {
        assert_eq!(scalar(number).to_byte(), number.clamp(0.0, 255.0) as u8, "{number}");
    }
    for step in 0..=1040u16 {
        let number = f32::from(step) / 4.0 - 1.0;
        assert_eq!(scalar(number).to_byte(), number.clamp(0.0, 255.0) as u8, "{number}");
    }
    assert_eq!(scalar(254.99998).to_byte(), 254);
}

#[test]
fn doubles_turn_their_sign_and_compare_with_zero() {
    for number in [0.0, -0.0, 1.5, -1.5, f64::INFINITY, f64::NEG_INFINITY, f64::NAN, 5e-324] {
        let value = Double { bits: number.to_bits() };
        assert_eq!(value.negate().bits, (-number).to_bits(), "{number}");
        assert_eq!(value.negate().negate().bits, number.to_bits(), "{number}");
        assert_eq!(value.is_at_most_zero(), number <= 0.0, "{number}");
    }
}
