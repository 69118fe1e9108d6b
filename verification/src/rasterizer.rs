//! What a platform's glyph rasterizer does.

use crate::color_glyphs::ColorGlyphKind;
use crate::raster::{
    PreparedRasterStyle, RasterStyleRequest, RasterizedGlyph, TextRenderingMode,
};
use crate::store::RasterFace;
use crate::text_system::RenderGlyphParams;
use vstd::prelude::*;

verus! {

/// A platform glyph rasterizer used after shaping has selected an exact face.
pub trait GlyphRasterizer {
    /// Why a glyph could not be rasterized.
    type Error;

    /// Returns whether this rasterizer can preserve the glyph's native color artwork.
    fn supports_color_glyph(&self, _kind: ColorGlyphKind) -> (supported: bool)
        default_ensures
            supported,
    {
        true
    }

    /// Reduces a scene request to the settings which alter cached raster pixels.
    fn prepare_style(&self, request: RasterStyleRequest) -> PreparedRasterStyle;

    /// Rasterizes one glyph from the exact face selected during shaping.
    fn rasterize(
        &mut self,
        face: RasterFace<'_>,
        params: &RenderGlyphParams,
        style: PreparedRasterStyle,
    ) -> Result<RasterizedGlyph, Self::Error>;

    /// Returns the platform's default mode for ordinary text.
    fn recommended_mode(&self) -> (mode: TextRenderingMode)
        default_ensures
            mode == TextRenderingMode::Subpixel,
    {
        TextRenderingMode::Subpixel
    }
}

} // verus!
