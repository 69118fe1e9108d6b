use gpui_text::font::{
    font, scale_length, Font, FontFallbacks, FontFeatures, FontMetrics, FontStyle, FontWeight,
};
use gpui_text::geometry::{Bounds, Pixels, Point, Size};
use gpui_text::hashing::HashWrite;
use gpui_text::scalar::{Arithmetic, Scalar};
use gpui_text::text_run::{
    Hsla, PaintStyle, Rgba, StrikethroughStyle, TextRun, UnderlineStyle,
};
use palette::{FromColor, RgbHue, Srgba};

fn scalar(value: f32) -> Scalar {
    Scalar { bits: value.to_bits() }
}

fn float(value: Scalar) -> f32 {
    f32::from_bits(value.bits)
}

fn pixels(value: f32) -> Pixels {
    Pixels(scalar(value))
}

struct Host;

impl Arithmetic for Host {
    fn from_integer(&self, value: u32) -> Scalar {
        scalar(value as f32)
    }
    fn sum(&self, left: Scalar, right: Scalar) -> Scalar {
        scalar(float(left) + float(right))
    }
    fn difference(&self, left: Scalar, right: Scalar) -> Scalar {
        scalar(float(left) - float(right))
    }
    fn product(&self, left: Scalar, right: Scalar) -> Scalar {
        scalar(float(left) * float(right))
    }
    fn quotient(&self, left: Scalar, right: Scalar) -> Scalar {
        scalar(float(left) / float(right))
    }
}

#[test]
fn weights_run_from_thin_to_black() {
    let values: Vec<f32> = FontWeight::all().iter().map(|weight| float(weight.0)).collect();
    assert_eq!(values, [100.0, 200.0, 300.0, 400.0, 500.0, 600.0, 700.0, 800.0, 900.0]);
    assert!(FontWeight::default() == FontWeight::normal());
    assert!(FontWeight::thin() != FontWeight::black());
    assert_eq!(float(FontWeight::extra_light().0), 200.0);
    assert_eq!(float(FontWeight::light().0), 300.0);
    assert_eq!(float(FontWeight::medium().0), 500.0);
    assert_eq!(float(FontWeight::semibold().0), 600.0);
    assert_eq!(float(FontWeight::extra_bold().0), 800.0);
    assert_eq!(FontStyle::default(), FontStyle::Normal);
    assert_eq!(
        [FontStyle::Normal, FontStyle::Italic, FontStyle::Oblique].map(FontStyle::name),
        ["Normal", "Italic", "Oblique"]
    );
}

#[test]
fn fonts_are_told_apart_by_every_part() {
    let plain = font("Lilex");
    assert_eq!(Font::default().family, ".SystemUIFont");
    assert!(plain.clone() == plain);
    assert!(plain.shares_key(&font("Lilex")));
    assert!(plain != font("Lilex Mono"));
    let bold = font("Lilex").bold();
    assert!(plain != bold && !plain.shares_key(&bold));
    assert_eq!(float(bold.weight.0), 700.0);
    let italic = font("Lilex").italic();
    assert!(plain != italic && italic.style == FontStyle::Italic);
    let mut featured = font("Lilex");
    featured.features = FontFeatures { entries: vec![("liga".to_owned(), 0)] };
    assert!(plain != featured && featured.clone() == featured);
    let mut fallen = font("Lilex");
    fallen.fallbacks = Some(FontFallbacks { families: vec!["Ahem".to_owned()] });
    assert!(plain != fallen && fallen.clone() == fallen);
}

#[test]
fn fonts_with_one_key_hash_alike() {
    let plain = font("Lilex");
    assert_eq!(plain.hash_writes(), font("Lilex").hash_writes());
    assert_ne!(plain.hash_writes(), plain.clone().bold().hash_writes());
    let writes = plain.hash_writes();
    assert_eq!(writes[0], HashWrite::Text("Lilex".to_owned()));
    assert!(writes.contains(&HashWrite::Word(400f32.to_bits())));
}

#[test]
fn lengths_scale_with_the_font_size() {
    let metrics = FontMetrics {
        units_per_em: 1000,
        ascent: scalar(800.0),
        descent: scalar(-200.0),
        line_gap: scalar(100.0),
        underline_position: scalar(-50.0),
        underline_thickness: scalar(25.0),
        cap_height: scalar(700.0),
        x_height: scalar(500.0),
        bounding_box: Bounds {
            origin: Point { x: scalar(-10.0), y: scalar(-200.0) },
            size: Size { width: scalar(1000.0), height: scalar(1000.0) },
        },
    };
    let size = pixels(16.0);
    let expect = |value: f32| (value / 1000.0) * 16.0;
    assert_eq!(float(metrics.ascent(size, &Host).0), expect(800.0));
    assert_eq!(float(metrics.descent(size, &Host).0), expect(-200.0));
    assert_eq!(float(metrics.line_gap(size, &Host).0), expect(100.0));
    assert_eq!(float(metrics.underline_position(size, &Host).0), expect(-50.0));
    assert_eq!(float(metrics.underline_thickness(size, &Host).0), expect(25.0));
    assert_eq!(float(metrics.cap_height(size, &Host).0), expect(700.0));
    assert_eq!(float(metrics.x_height(size, &Host).0), expect(500.0));
    let bounds = metrics.bounding_box(size, &Host);
    assert_eq!(float(bounds.origin.y.0), expect(-200.0));
    assert_eq!(float(bounds.size.width.0), 16.0);
    assert_eq!(float(scale_length(&Host, scalar(250.0), 1000, size).0), 4.0);
}

fn hsla(hue: f32, alpha: f32) -> Hsla {
    Hsla {
        hue: scalar(hue),
        saturation: scalar(1.0),
        lightness: scalar(0.5),
        alpha: scalar(alpha),
    }
}

fn run() -> TextRun {
    TextRun {
        len: 5,
        font: font("Lilex"),
        color: hsla(0.5, 1.0),
        background_color: Some(hsla(0.25, 1.0)),
        underline: Some(UnderlineStyle { thickness: pixels(1.0), color: None, wavy: true }),
        strikethrough: Some(StrikethroughStyle {
            thickness: pixels(2.0),
            color: Some(hsla(0.75, 1.0)),
        }),
        letter_spacing: Some(pixels(0.0)),
    }
}

/// Not a true conversion, but one that keeps colors apart.
fn convert(color: Hsla) -> Rgba {
    Rgba {
        red: color.hue,
        green: color.saturation,
        blue: color.lightness,
        alpha: color.alpha,
    }
}

fn same_hue(left: Scalar, right: Scalar) -> bool {
    RgbHue::from_degrees(float(left)) == RgbHue::from_degrees(float(right))
}

fn palette_convert(color: Hsla) -> Rgba {
    let color: Srgba = Srgba::from_color(palette::Hsla::new(
        RgbHue::from_degrees(float(color.hue)),
        float(color.saturation),
        float(color.lightness),
        float(color.alpha),
    ));
    Rgba {
        red: scalar(color.color.red),
        green: scalar(color.color.green),
        blue: scalar(color.color.blue),
        alpha: scalar(color.alpha),
    }
}

fn color_bits(color: Hsla) -> [u32; 4] {
    [
        color.hue.bits,
        color.saturation.bits,
        color.lightness.bits,
        color.alpha.bits,
    ]
}

#[test]
fn hues_a_full_turn_apart_are_one() {
    let colored = |hue: f32| TextRun {
        color: hsla(hue, 1.0),
        background_color: Some(hsla(hue, 0.5)),
        underline: Some(UnderlineStyle {
            thickness: pixels(1.0),
            color: Some(hsla(hue, 1.0)),
            wavy: false,
        }),
        ..run()
    };
    for (left, right) in [(0.0, 360.0), (-90.0, 270.0), (30.0, 390.0)] {
        assert!(colored(left).same_as(&colored(right), same_hue));
        assert_eq!(
            colored(left).hash_writes(palette_convert),
            colored(right).hash_writes(palette_convert)
        );
    }
    assert!(!colored(0.0).same_as(&colored(180.0), same_hue));
    assert_ne!(
        colored(0.0).hash_writes(palette_convert),
        colored(180.0).hash_writes(palette_convert)
    );
    let backless = TextRun { background_color: None, ..colored(0.0) };
    assert!(!backless.same_as(&colored(0.0), same_hue));
    let other_back = TextRun { background_color: Some(hsla(60.0, 0.5)), ..colored(0.0) };
    assert!(!other_back.same_as(&colored(0.0), same_hue));
}

#[test]
fn equal_runs_hash_alike() {
    assert!(run().same_as(&run(), same_hue));
    assert_eq!(run().hash_writes(convert), run().hash_writes(convert));
    let mut negative = run();
    negative.letter_spacing = Some(pixels(-0.0));
    assert!(negative.same_as(&run(), same_hue));
    assert_eq!(negative.hash_writes(convert), run().hash_writes(convert));

    let mut longer = run();
    longer.len = 6;
    let mut plain = run();
    plain.underline = None;
    let mut struck = run();
    struck.strikethrough = Some(StrikethroughStyle { thickness: pixels(2.0), color: None });
    let mut spaced = run();
    spaced.letter_spacing = None;
    let mut tinted = run();
    tinted.color = hsla(0.5, 0.5);
    for other in [longer, plain, struck, spaced, tinted] {
        assert!(!other.same_as(&run(), same_hue));
        assert_ne!(other.hash_writes(convert), run().hash_writes(convert));
        assert!(other.clone().same_as(&other, same_hue));
    }
}

#[test]
fn runs_without_style_write_only_flags() {
    let writes = TextRun::default().hash_writes(convert);
    assert_eq!(writes[0], HashWrite::Length(0));
    let tail = &writes[writes.len() - 4..];
    assert!(tail.iter().all(|write| *write == HashWrite::Flag(false)));
    let default = TextRun::default();
    assert_eq!(color_bits(default.color), color_bits(Hsla::default()));
    assert_eq!(float(default.color.alpha), 1.0);
}

#[test]
fn paint_takes_the_colors_and_lines_of_a_run() {
    let run = run();
    let paint = PaintStyle::from(&run);
    assert_eq!(color_bits(paint.color), color_bits(run.color));
    assert_eq!(color_bits(paint.background_color.unwrap()), color_bits(hsla(0.25, 1.0)));
    assert!(paint.underline.unwrap().wavy);
    assert_eq!(float(paint.strikethrough.unwrap().thickness.0), 2.0);
}
