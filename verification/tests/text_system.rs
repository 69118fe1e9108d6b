use gpui_text::font::{font, Font, FontMetrics};
use gpui_text::geometry::{Bounds, DevicePixels, Pixels, Point, Size};
use gpui_text::hashing::HashWrite;
use gpui_text::parley_text_system::{BackingTextSystem, ParleyTextSystem};
use gpui_text::raster::{RasterizedGlyph, RasterizedGlyphFormat, TextRenderingMode};
use gpui_text::scalar::{Arithmetic, Scalar};
use gpui_text::text_order::ordered_texts;
use gpui_text::text_run::{Hsla, TextRun};
use gpui_text::text_system::{
    FontId, FontResolveError, GlyphError, GlyphId, PlatformTextSystem, RenderGlyphParams,
    TextSystem, SUBPIXEL_VARIANTS_X, SUBPIXEL_VARIANTS_Y,
};
use gpui_text::window_text_system::{LineLayoutCache, SharedPlatform, WindowTextSystem};
use std::cell::RefCell;
use std::ops::Range;
use std::sync::Arc;

fn scalar(value: f32) -> Scalar {
    Scalar { bits: value.to_bits() }
}

fn float(value: Scalar) -> f32 {
    f32::from_bits(value.bits)
}

fn pixels(value: f32) -> Pixels {
    Pixels(scalar(value))
}

struct Host;

impl Arithmetic for Host {
    fn from_integer(&self, value: u32) -> Scalar {
        scalar(value as f32)
    }
    fn sum(&self, left: Scalar, right: Scalar) -> Scalar {
        scalar(float(left) + float(right))
    }
    fn difference(&self, left: Scalar, right: Scalar) -> Scalar {
        scalar(float(left) - float(right))
    }
    fn product(&self, left: Scalar, right: Scalar) -> Scalar {
        scalar(float(left) * float(right))
    }
    fn quotient(&self, left: Scalar, right: Scalar) -> Scalar {
        scalar(float(left) / float(right))
    }
}

fn metrics() -> FontMetrics {
    FontMetrics {
        units_per_em: 100,
        ascent: scalar(80.0),
        descent: scalar(20.0),
        line_gap: scalar(0.0),
        underline_position: scalar(0.0),
        underline_thickness: scalar(0.0),
        cap_height: scalar(70.0),
        x_height: scalar(50.0),
        bounding_box: Bounds {
            origin: Point { x: scalar(0.0), y: scalar(0.0) },
            size: Size { width: scalar(100.0), height: scalar(200.0) },
        },
    }
}

/// A platform that counts what it is asked.
#[derive(Default)]
struct Platform {
    asked: RefCell<Vec<&'static str>>,
    installed: RefCell<Vec<String>>,
}

impl Platform {
    fn ask(&self, what: &'static str) {
        self.asked.borrow_mut().push(what);
    }

    fn count(&self, what: &str) -> usize {
        self.asked.borrow().iter().filter(|asked| **asked == what).count()
    }
}

impl PlatformTextSystem for Platform {
    fn add_fonts(&self, fonts: Vec<Vec<u8>>) -> Result<(), String> {
        for name in fonts {
            if name.is_empty() {
                return Err("empty".to_owned());
            }
            self.installed.borrow_mut().push(String::from_utf8(name).unwrap());
        }
        Ok(())
    }

    fn all_font_names(&self) -> Vec<String> {
        self.installed.borrow().clone()
    }

    fn font_id(&self, font: &Font) -> Result<FontId, String> {
        self.ask("font_id");
        self.installed
            .borrow()
            .iter()
            .position(|name| *name == font.family)
            .map(FontId)
            .ok_or_else(|| "no such family".to_owned())
    }

    fn font_metrics(&self, _font_id: FontId) -> FontMetrics {
        self.ask("metrics");
        metrics()
    }

    fn typographic_bounds(
        &self,
        _font_id: FontId,
        glyph_id: GlyphId,
    ) -> Result<Bounds<Scalar>, String> {
        if glyph_id.0 == 2 {
            return Err("no bounds".to_owned());
        }
        Ok(metrics().bounding_box)
    }

    fn advance(&self, _font_id: FontId, glyph_id: GlyphId) -> Result<Size<Scalar>, String> {
        if glyph_id.0 == 2 {
            return Err("no advance".to_owned());
        }
        Ok(Size { width: scalar(50.0), height: scalar(0.0) })
    }

    fn glyph_for_char(&self, _font_id: FontId, character: char) -> Option<GlyphId> {
        match character {
            'a' => Some(GlyphId(1)),
            'b' => Some(GlyphId(2)),
            _ => None,
        }
    }

    fn rasterize_glyph(&self, params: &RenderGlyphParams) -> Result<RasterizedGlyph, String> {
        self.ask("raster");
        if params.glyph_id.0 == 0 {
            return Err("no glyph".to_owned());
        }
        let mut glyph = RasterizedGlyph::empty(RasterizedGlyphFormat::AlphaMask);
        glyph.pixels.push(params.glyph_id.0 as u8);
        Ok(glyph)
    }

    fn recommended_rendering_mode(&self, _font_id: FontId, _font_size: Pixels) -> TextRenderingMode {
        TextRenderingMode::Grayscale
    }
}

#[test]
fn lookups_are_remembered_until_fonts_are_added() {
    let platform = Arc::new(Platform::default());
    let mut system = TextSystem::new(platform.clone());
    let wanted = font("Lilex");
    assert_eq!(system.font_id(&wanted), Err("no such family".to_owned()));
    assert_eq!(
        system.try_resolve_font(&wanted),
        Err(FontResolveError {
            family: "Lilex".to_owned(),
            message: "no such family".to_owned(),
        })
    );
    assert_eq!(platform.count("font_id"), 1);

    // Refused fonts do not make the system ask again.
    assert_eq!(system.add_fonts(vec![Vec::new()]), Err("empty".to_owned()));
    assert!(system.font_id(&wanted).is_err());
    assert_eq!(platform.count("font_id"), 1);

    assert_eq!(system.add_fonts(vec![b"Lilex".to_vec()]), Ok(()));
    assert_eq!(system.all_font_names(), ["Lilex"]);
    assert_eq!(system.try_resolve_font(&wanted), Ok(FontId(0)));
    assert_eq!(system.resolve_font(&wanted), FontId(0));
    assert_eq!(system.font_id(&wanted), Ok(FontId(0)));
    assert_eq!(platform.count("font_id"), 2);
    assert!(system.font_id(&wanted.bold()).is_ok());
    assert_eq!(platform.count("font_id"), 3);
}

#[test]
fn measurements_are_asked_for_once() {
    let platform = Arc::new(Platform::default());
    let mut system = TextSystem::new(platform.clone());
    let (font_id, size) = (FontId(3), pixels(10.0));
    assert_eq!(system.units_per_em(font_id), 100);
    assert_eq!(float(system.ascent(font_id, size, &Host).0), 8.0);
    assert_eq!(float(system.descent(font_id, size, &Host).0), 2.0);
    assert_eq!(float(system.bounding_box(font_id, size, &Host).size.height.0), 20.0);
    assert_eq!(system.read_metrics(font_id, |metrics| metrics.units_per_em + 1), 101);
    // The line's spare height is shared between top and bottom.
    let offset = system.baseline_offset(font_id, size, pixels(14.0), &Host);
    assert_eq!(float(offset.0), 10.0);
    assert_eq!(platform.count("metrics"), 1);
    assert_eq!(system.units_per_em(FontId(4)), 100);
    assert_eq!(platform.count("metrics"), 2);
    assert_eq!(
        system.recommended_rendering_mode(font_id, size),
        TextRenderingMode::Grayscale
    );
}

#[test]
fn characters_are_measured_through_their_glyphs() {
    let mut system = TextSystem::new(Arc::new(Platform::default()));
    let (font_id, size) = (FontId(0), pixels(10.0));
    let bounds = system.typographic_bounds(font_id, size, 'a', &Host).unwrap();
    assert_eq!(float(bounds.size.height.0), 20.0);
    let advance = system.advance(font_id, size, 'a', &Host).unwrap();
    assert_eq!(float(advance.width.0), 5.0);
    assert_eq!(
        system.typographic_bounds(font_id, size, 'z', &Host),
        Err(GlyphError::GlyphNotFound('z'))
    );
    assert_eq!(
        system.advance(font_id, size, 'z', &Host),
        Err(GlyphError::GlyphNotFound('z'))
    );
    assert_eq!(
        system.typographic_bounds(font_id, size, 'b', &Host),
        Err(GlyphError::Platform("no bounds".to_owned()))
    );
    assert_eq!(
        system.advance(font_id, size, 'b', &Host),
        Err(GlyphError::Platform("no advance".to_owned()))
    );
}

fn params(glyph: u32) -> RenderGlyphParams {
    RenderGlyphParams {
        font_id: FontId(1),
        glyph_id: GlyphId(glyph),
        font_size: pixels(16.0),
        subpixel_variant: Point { x: 1, y: 0 },
        scale_factor: scalar(2.0),
        is_emoji: false,
        subpixel_rendering: true,
    }
}

#[test]
fn rasters_are_made_once() {
    let platform = Arc::new(Platform::default());
    let mut system = TextSystem::new(platform.clone());
    let first = system.rasterize_glyph(&params(5)).unwrap();
    assert!(system.rasterize_glyph(&params(6)).is_ok());
    assert!(Arc::ptr_eq(&first, &system.rasterize_glyph(&params(5)).unwrap()));
    for _ in 0..2 {
        assert_eq!(system.rasterize_glyph(&params(5)).unwrap().pixels, [5]);
        assert_eq!(system.rasterize_glyph(&params(6)).unwrap().pixels, [6]);
    }
    assert_eq!(platform.count("raster"), 2);
    // A failure is not remembered.
    for _ in 0..2 {
        assert_eq!(system.rasterize_glyph(&params(0)).err(), Some("no glyph".to_owned()));
    }
    assert_eq!(platform.count("raster"), 4);
}

#[test]
fn raster_parameters_are_cache_keys() {
    assert_eq!((SUBPIXEL_VARIANTS_X, SUBPIXEL_VARIANTS_Y), (4, 1));
    assert!(params(1) == params(1) && params(1).shares_key(&params(1)));
    assert!(params(1) != params(2));
    let mut emoji = params(1);
    emoji.is_emoji = true;
    assert!(params(1) != emoji && !params(1).shares_key(&emoji));
    assert_eq!(
        params(7).hash_writes(),
        [
            HashWrite::Length(1),
            HashWrite::Word(7),
            HashWrite::Word(16f32.to_bits()),
            HashWrite::Byte(1),
            HashWrite::Byte(0),
            HashWrite::Word(2f32.to_bits()),
            HashWrite::Flag(false),
            HashWrite::Flag(true),
        ]
    );
}

struct Cache {
    platform: Arc<Platform>,
    calls: RefCell<Vec<String>>,
}

impl LineLayoutCache for Cache {
    type Platform = Platform;
    type Layout = String;
    type WrappedLayout = (String, Option<usize>);
    type Index = usize;

    fn new(platform_text_system: Arc<Platform>) -> Cache {
        Cache { platform: platform_text_system, calls: RefCell::new(Vec::new()) }
    }

    fn layout_index(&self) -> usize {
        self.calls.borrow().len()
    }

    fn reuse_layouts(&self, index: Range<usize>) {
        self.calls.borrow_mut().push(format!("reuse {index:?}"));
    }

    fn truncate_layouts(&self, index: usize) {
        self.calls.borrow_mut().truncate(index);
    }

    fn finish_frame(&self) {
        self.calls.borrow_mut().clear();
    }

    fn layout_line(&self, text: &str, _font_size: Pixels, runs: &[TextRun]) -> String {
        self.platform.ask("layout");
        format!("{text}/{}", runs.len())
    }

    fn layout_wrapped_line(
        &self,
        text: &str,
        _font_size: Pixels,
        _runs: &[TextRun],
        _wrap_width: Option<Pixels>,
        line_clamp: Option<usize>,
    ) -> (String, Option<usize>) {
        (text.to_owned(), line_clamp)
    }
}

#[test]
fn windows_lay_text_out_in_their_cache() {
    let platform = Arc::new(Platform::default());
    let shared = Arc::new(TextSystem::new(platform.clone()));
    let window: WindowTextSystem<Cache, TextSystem<Platform>> =
        WindowTextSystem::new(shared.clone());
    assert!(std::ptr::eq(window.text_system(), &*shared));
    assert!(Arc::ptr_eq(&shared.platform_text_system(), &platform));
    let runs = [TextRun::default()];
    let line = window.shape_line("one line".to_owned(), pixels(16.0), &runs);
    assert_eq!((line.text.as_str(), line.layout.as_str()), ("one line", "one line/1"));
    assert_eq!(window.layout_line("x", pixels(16.0), &[]), "x/0");
    let wrapped = window
        .shape_text("two\nlines".to_owned(), pixels(16.0), &runs, None, Some(3))
        .unwrap();
    assert_eq!(wrapped.layout, ("two\nlines".to_owned(), Some(3)));
    assert_eq!(wrapped.text, "two\nlines");
    window.reuse_layouts(0..2);
    window.reuse_layouts(2..4);
    assert_eq!(window.layout_index(), 2);
    window.truncate_layouts(1);
    assert_eq!(window.layout_index(), 1);
    window.finish_frame();
    assert_eq!(window.layout_index(), 0);
    assert_eq!(platform.count("layout"), 2);
}

impl BackingTextSystem for Platform {
    type FontRun = u8;
    type LineLayout = usize;

    fn add_fonts(&self, fonts: Vec<Vec<u8>>) -> Result<(), String> {
        PlatformTextSystem::add_fonts(self, fonts)
    }

    fn font_id(&self, descriptor: &Font) -> Result<FontId, String> {
        PlatformTextSystem::font_id(self, descriptor)
    }

    fn font_metrics(&self, font_id: FontId) -> FontMetrics {
        PlatformTextSystem::font_metrics(self, font_id)
    }

    fn typographic_bounds(
        &self,
        font_id: FontId,
        glyph_id: GlyphId,
    ) -> Result<Bounds<Scalar>, String> {
        PlatformTextSystem::typographic_bounds(self, font_id, glyph_id)
    }

    fn advance(&self, font_id: FontId, glyph_id: GlyphId) -> Result<Size<Scalar>, String> {
        PlatformTextSystem::advance(self, font_id, glyph_id)
    }

    fn glyph_for_char(&self, font_id: FontId, ch: char) -> Option<GlyphId> {
        PlatformTextSystem::glyph_for_char(self, font_id, ch)
    }

    fn glyph_raster_bounds(
        &self,
        _params: &RenderGlyphParams,
    ) -> Result<Bounds<DevicePixels>, String> {
        Err("no bounds".to_owned())
    }

    fn rasterize_glyph(
        &self,
        _params: &RenderGlyphParams,
        raster_bounds: Bounds<DevicePixels>,
    ) -> Result<(Size<DevicePixels>, Vec<u8>), String> {
        Ok((raster_bounds.size, vec![1]))
    }

    fn layout_line(&self, text: &str, _font_size: Pixels, runs: &[u8]) -> usize {
        text.len() + runs.len()
    }

    fn recommended_rendering_mode(&self, _font_id: FontId, _font_size: Pixels) -> TextRenderingMode {
        TextRenderingMode::Subpixel
    }

    fn glyph_dilation_for_color(&self, _color: Hsla) -> u8 {
        3
    }
}

#[test]
fn the_fallback_family_is_listed_with_system_fonts_only() {
    let system = ParleyTextSystem::new("Lilex", Platform::default());
    assert_eq!(system.all_font_names(), ["Lilex"]);
    let bare = ParleyTextSystem::new_without_system_fonts("Lilex", Platform::default());
    assert!(bare.all_font_names().is_empty());
}

#[test]
fn the_backing_text_system_answers_the_rest() {
    let system = ParleyTextSystem::new("Lilex", Platform::default());
    assert_eq!(system.add_fonts(vec![b"Ahem".to_vec()]), Ok(()));
    assert_eq!(system.font_id(&font("Ahem")), Ok(FontId(0)));
    assert_eq!(system.font_metrics(FontId(0)).units_per_em, 100);
    assert!(system.typographic_bounds(FontId(0), GlyphId(2)).is_err());
    assert!(system.advance(FontId(0), GlyphId(1)).is_ok());
    assert_eq!(system.glyph_for_char(FontId(0), 'a'), Some(GlyphId(1)));
    assert!(system.glyph_raster_bounds(&params(1)).is_err());
    let bounds = Bounds {
        origin: Point { x: DevicePixels(0), y: DevicePixels(0) },
        size: Size { width: DevicePixels(1), height: DevicePixels(1) },
    };
    assert_eq!(
        system.rasterize_glyph(&params(1), bounds),
        Ok((bounds.size, vec![1]))
    );
    assert_eq!(system.layout_line("abc", pixels(16.0), &[1, 2]), 5);
    assert_eq!(
        system.recommended_rendering_mode(FontId(0), pixels(16.0)),
        TextRenderingMode::Subpixel
    );
    assert_eq!(system.glyph_dilation_for_color(Hsla::default()), 3);
}

#[test]
fn texts_are_ordered_by_character_and_listed_once() {
    let texts = |names: &[&str]| names.iter().map(|name| (*name).to_owned()).collect::<Vec<_>>();
    assert_eq!(
        ordered_texts(texts(&["b", "a", "", "ab", "é", "b", "Z", "\u{1F600}", "a"])),
        texts(&["", "Z", "a", "ab", "b", "é", "\u{1F600}"])
    );
    assert!(ordered_texts(Vec::new()).is_empty());
}
