//! A text system that lists one family and leaves everything else to another.

use crate::font::{Font, FontMetrics};
use crate::geometry::{Bounds, DevicePixels, Pixels, Size};
use crate::raster::TextRenderingMode;
use crate::scalar::Scalar;
use crate::text_run::Hsla;
use crate::text_system::{FontId, GlyphId, RenderGlyphParams};
use vstd::prelude::*;

verus! {

/// The text system that answers what is not answered here. Errors are messages.
pub trait BackingTextSystem {
    /// A run of text in one font.
    type FontRun;

    /// The layout of a line.
    type LineLayout;

    /// Adds font data.
    fn add_fonts(&self, fonts: Vec<Vec<u8>>) -> Result<(), String>;

    /// The font for a description.
    fn font_id(&self, descriptor: &Font) -> Result<FontId, String>;

    /// The measurements of a font.
    fn font_metrics(&self, font_id: FontId) -> FontMetrics;

    /// The bounds of a glyph, in font units.
    fn typographic_bounds(&self, font_id: FontId, glyph_id: GlyphId) -> Result<
        Bounds<Scalar>,
        String,
    >;

    /// The advance of a glyph, in font units.
    fn advance(&self, font_id: FontId, glyph_id: GlyphId) -> Result<Size<Scalar>, String>;

    /// The glyph for a character, if the font has one.
    fn glyph_for_char(&self, font_id: FontId, ch: char) -> Option<GlyphId>;

    /// Where the raster of a glyph lies.
    fn glyph_raster_bounds(&self, params: &RenderGlyphParams) -> Result<
        Bounds<DevicePixels>,
        String,
    >;

    /// The raster of a glyph.
    fn rasterize_glyph(
        &self,
        params: &RenderGlyphParams,
        raster_bounds: Bounds<DevicePixels>,
    ) -> Result<(Size<DevicePixels>, Vec<u8>), String>;

    /// The layout of a line.
    fn layout_line(
        &self,
        text: &str,
        font_size: Pixels,
        runs: &[Self::FontRun],
    ) -> Self::LineLayout;

    /// The rendering mode for a font and size, which is a definite one.
    fn recommended_rendering_mode(&self, font_id: FontId, font_size: Pixels) -> (mode:
        TextRenderingMode)
        ensures
            mode != TextRenderingMode::PlatformDefault,
    ;

    /// By how many steps glyphs of a color are dilated.
    fn glyph_dilation_for_color(&self, color: Hsla) -> u8;
}

/// A text system with a system font to fall back to.
pub struct ParleyTextSystem<N> {
    fallback_family: String,
    use_system_fonts: bool,
    noop: N,
}

impl<N: BackingTextSystem> ParleyTextSystem<N> {
    /// The family to fall back to.
    pub closed spec fn family(&self) -> Seq<char> {
        self.fallback_family@
    }

    /// Whether the system's fonts are used.
    pub closed spec fn uses_system_fonts(&self) -> bool {
        self.use_system_fonts
    }

    /// The text system that answers what is not answered here.
    pub closed spec fn backing(&self) -> N {
        self.noop
    }

    /// A text system that uses the system's fonts.
    pub fn new(system_font_fallback: &str, noop: N) -> (system: Self)
        ensures
            system.family() == system_font_fallback@,
            system.uses_system_fonts(),
            system.backing() == noop,
    {
        Self::with_system_fonts(system_font_fallback, true, noop)
    }

    /// A text system that does not use the system's fonts.
    pub fn new_without_system_fonts(system_font_fallback: &str, noop: N) -> (system: Self)
        ensures
            system.family() == system_font_fallback@,
            !system.uses_system_fonts(),
            system.backing() == noop,
    {
        Self::with_system_fonts(system_font_fallback, false, noop)
    }

    fn with_system_fonts(system_font_fallback: &str, use_system_fonts: bool, noop: N) -> (system:
        Self)
        ensures
            system.family() == system_font_fallback@,
            system.uses_system_fonts() == use_system_fonts,
            system.backing() == noop,
    {
        ParleyTextSystem {
            fallback_family: system_font_fallback.to_owned(),
            use_system_fonts,
            noop,
        }
    }

    /// Adds font data.
    pub fn add_fonts(&self, fonts: Vec<Vec<u8>>) -> (result: Result<(), String>)
        ensures
            call_ensures(N::add_fonts, (&self.backing(), fonts), result),
    {
        self.noop.add_fonts(fonts)
    }

    /// The fallback family, unless the system's fonts are not used.
    pub fn all_font_names(&self) -> (names: Vec<String>)
        ensures
            self.uses_system_fonts() ==> names@.len() == 1 && names@[0]@ == self.family(),
            !self.uses_system_fonts() ==> names@.len() == 0,
    {
        let mut names: Vec<String> = Vec::new();
        if self.use_system_fonts {
            names.push(self.fallback_family.clone());
        }
        names
    }

    /// The font for a description.
    pub fn font_id(&self, descriptor: &Font) -> (result: Result<FontId, String>)
        ensures
            call_ensures(N::font_id, (&self.backing(), descriptor), result),
    {
        self.noop.font_id(descriptor)
    }

    /// The measurements of a font.
    pub fn font_metrics(&self, font_id: FontId) -> (metrics: FontMetrics)
        ensures
            call_ensures(N::font_metrics, (&self.backing(), font_id), metrics),
    {
        self.noop.font_metrics(font_id)
    }

    /// The bounds of a glyph, in font units.
    pub fn typographic_bounds(&self, font_id: FontId, glyph_id: GlyphId) -> (result: Result<
        Bounds<Scalar>,
        String,
    >)
        ensures
            call_ensures(N::typographic_bounds, (&self.backing(), font_id, glyph_id), result),
    {
        self.noop.typographic_bounds(font_id, glyph_id)
    }

    /// The advance of a glyph, in font units.
    pub fn advance(&self, font_id: FontId, glyph_id: GlyphId) -> (result: Result<
        Size<Scalar>,
        String,
    >)
        ensures
            call_ensures(N::advance, (&self.backing(), font_id, glyph_id), result),
    {
        self.noop.advance(font_id, glyph_id)
    }

    /// The glyph for a character, if the font has one.
    pub fn glyph_for_char(&self, font_id: FontId, ch: char) -> (glyph: Option<GlyphId>)
        ensures
            call_ensures(N::glyph_for_char, (&self.backing(), font_id, ch), glyph),
    {
        self.noop.glyph_for_char(font_id, ch)
    }

    /// Where the raster of a glyph lies.
    pub fn glyph_raster_bounds(&self, params: &RenderGlyphParams) -> (result: Result<
        Bounds<DevicePixels>,
        String,
    >)
        ensures
            call_ensures(N::glyph_raster_bounds, (&self.backing(), params), result),
    {
        self.noop.glyph_raster_bounds(params)
    }

    /// The raster of a glyph.
    pub fn rasterize_glyph(
        &self,
        params: &RenderGlyphParams,
        raster_bounds: Bounds<DevicePixels>,
    ) -> (result: Result<(Size<DevicePixels>, Vec<u8>), String>)
        ensures
            call_ensures(N::rasterize_glyph, (&self.backing(), params, raster_bounds), result),
    {
        self.noop.rasterize_glyph(params, raster_bounds)
    }

    /// The layout of a line.
    pub fn layout_line(&self, text: &str, font_size: Pixels, runs: &[N::FontRun]) -> (layout:
        N::LineLayout)
        ensures
            call_ensures(N::layout_line, (&self.backing(), text, font_size, runs), layout),
    {
        self.noop.layout_line(text, font_size, runs)
    }

    /// The rendering mode for a font and size. It is never [`TextRenderingMode::PlatformDefault`].
    pub fn recommended_rendering_mode(
        &self,
        font_id: FontId,
        font_size: Pixels,
    ) -> (mode: TextRenderingMode)
        ensures
            call_ensures(
                N::recommended_rendering_mode,
                (&self.backing(), font_id, font_size),
                mode,
            ),
            mode != TextRenderingMode::PlatformDefault,
    {
        self.noop.recommended_rendering_mode(font_id, font_size)
    }

    /// By how many steps glyphs of a color are dilated.
    pub fn glyph_dilation_for_color(&self, color: Hsla) -> (steps: u8)
        ensures
            call_ensures(N::glyph_dilation_for_color, (&self.backing(), color), steps),
    {
        self.noop.glyph_dilation_for_color(color)
    }
}

} // verus!
