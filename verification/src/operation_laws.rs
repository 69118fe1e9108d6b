//! What holds of every call of the operations that draw, composite, store and look up.

use crate::blob::{blob_id, synthesis_styling};
use crate::cache_laws::{
    answers_are_the_platforms, is_the_platforms_answer,
    law_fonts_are_resolved_for_their_description, law_rasters_are_made_for_their_parameters,
    rasters_are_the_platforms,
};
use crate::design::DesignSpace;
use crate::font::Font;
use crate::function_laws::scaled_by;
use crate::geometry::{Bounds, DevicePixels, Pixels, Size};
use crate::glyph_compositor::{
    ColorGlyphLayer, CompositeError, CompositorState, GlyphCompositor, GlyphDevice,
};
use crate::key_laws::law_glyph_keys_hold_every_parameter;
use crate::mac_geometry::BitmapPlan;
use crate::mac_laws::{drawn_for, law_rasters_are_drawn_as_asked};
use crate::mac_rasterizer::{
    context_settings, is_looked_up, is_rasterized, ContextSettings, GlyphDrawing,
    MacGlyphRasterizer, MacRasterError, NativeCanvas,
};
use crate::native_face::{NativeFace, NativeFaceError};
use crate::raster::{
    GlyphRenderMode, PreparedRasterStyle, RasterizedGlyph, RasterizedGlyphFormat,
    TextRenderingMode,
};
use crate::rasterizer::GlyphRasterizer;
use crate::scalar::{computes, Arithmetic, Computation, Scalar};
use crate::store::{FaceError, FontStore, RasterFace};
use crate::store_laws::{first_identifier, law_interned_fonts_have_every_property, same_skew};
use crate::swash_laws::can_be_placed;
use crate::swash_rasterizer::{
    finish_image, GlyphImage, GlyphImageRenderer, ImageContent, SwashError,
};
use crate::text_system::{
    FontId, GlyphError, GlyphId, PlatformTextSystem, RenderGlyphParams, TextSystem,
};
use fontique::{Blob, Synthesis};
use std::sync::Arc;
use vstd::prelude::*;

verus! {

/// A drawing context strokes outlines exactly if they are to be heavier, in every style.
pub proof fn law_contexts_stroke_heavier_outlines(
    style: PreparedRasterStyle,
    embolden: bool,
    settings: ContextSettings,
)
    requires
        call_ensures(context_settings, (style, embolden), settings),
    ensures
        settings.stroke == embolden,
{
}

/// Whenever CoreGraphics draws a glyph of a face, the outline is stroked exactly if the face is to
/// be heavier, whatever the mode and the color effect.
pub proof fn law_rasterizing_strokes_heavier_faces<C: NativeCanvas>()
    ensures
        forall|
            rasterizer: &mut MacGlyphRasterizer<C>,
            face: RasterFace<'_>,
            params: &RenderGlyphParams,
            style: PreparedRasterStyle,
            raster: RasterizedGlyph,
        |
            #[trigger] call_ensures(
                <MacGlyphRasterizer<C> as GlyphRasterizer>::rasterize,
                (rasterizer, face, params, style),
                Ok::<RasterizedGlyph, MacRasterError>(raster),
            ) && raster.size.width.0 != 0 ==> exists|
                native: NativeFace<C>,
                drawing: &GlyphDrawing,
                bitmap: &BitmapPlan,
                drawn: Vec<u8>,
            |
                {
                    &&& #[trigger] call_ensures(
                        C::draw,
                        (&(*rasterizer).canvas(), &native.descriptor, drawing, bitmap),
                        drawn,
                    )
                    &&& drawing.glyph == params.glyph_id.0
                    &&& drawing.settings.stroke == face.synthesis.embolden
                },
{
    assert forall|
        rasterizer: &mut MacGlyphRasterizer<C>,
        face: RasterFace<'_>,
        params: &RenderGlyphParams,
        style: PreparedRasterStyle,
        raster: RasterizedGlyph,
    |
        #[trigger] call_ensures(
            <MacGlyphRasterizer<C> as GlyphRasterizer>::rasterize,
            (rasterizer, face, params, style),
            Ok::<RasterizedGlyph, MacRasterError>(raster),
        ) && raster.size.width.0 != 0 implies exists|
        native: NativeFace<C>,
        drawing: &GlyphDrawing,
        bitmap: &BitmapPlan,
        drawn: Vec<u8>,
    |
        {
            &&& #[trigger] call_ensures(
                C::draw,
                (&(*rasterizer).canvas(), &native.descriptor, drawing, bitmap),
                drawn,
            )
            &&& drawing.glyph == params.glyph_id.0
            &&& drawing.settings.stroke == face.synthesis.embolden
        } by {
        let canvas = (*rasterizer).canvas();
        let result = Ok::<RasterizedGlyph, MacRasterError>(raster);
        let outcome = choose|outcome: Result<NativeFace<C>, NativeFaceError>|
            {
                &&& #[trigger] is_looked_up(
                    &canvas,
                    (*rasterizer).held(),
                    face,
                    (*final(rasterizer)).held(),
                    outcome,
                )
                &&& match outcome {
                    Err(error) => result == Err::<RasterizedGlyph, MacRasterError>(
                        MacRasterError::Face(error),
                    ),
                    Ok(native) => is_rasterized(&canvas, native, face, *params, style, result),
                }
            };
        let native = outcome->Ok_0;
        law_rasters_are_drawn_as_asked(&canvas, native, face, *params, style, raster);
        let (drawing, bitmap, drawn) = choose|
            drawing: &GlyphDrawing,
            bitmap: &BitmapPlan,
            drawn: Vec<u8>,
        | #[trigger]
            drawn_for(&canvas, native, face, *params, style, raster, drawing, bitmap, drawn);
        assert(call_ensures(C::draw, (&canvas, &native.descriptor, drawing, bitmap), drawn));
    }
}

/// A mask that is finished in grayscale keeps every coverage byte.
pub proof fn law_finishing_keeps_grayscale_coverage<R: GlyphImageRenderer>(
    renderer: &R,
    image: GlyphImage,
    style: PreparedRasterStyle,
    result: Result<RasterizedGlyph, SwashError>,
)
    requires
        call_ensures(finish_image::<R>, (renderer, Some(image), style), result),
        can_be_placed(image),
        image.content == ImageContent::Mask,
        style.mode == GlyphRenderMode::Grayscale,
    ensures
        result matches Ok(glyph) && {
            &&& glyph.format == RasterizedGlyphFormat::AlphaMask
            &&& glyph.pixels@.len() == image.data@.len()
            &&& forall|at: int|
                0 <= at < image.data@.len() ==> #[trigger] glyph.pixels@[at] == image.data@[at]
        },
{
}

/// A glyph is composited in a target of its own dimensions, which is made unless there is one.
pub proof fn law_compositing_fits_the_target<D: GlyphDevice>(
    before: CompositorState<D>,
    layers: &[ColorGlyphLayer],
    size: Size<DevicePixels>,
    gamma_ratios: &[Scalar; 4],
    contrast: Scalar,
    composited: (CompositorState<D>, Result<Vec<u8>, CompositeError<D::Error>>),
)
    requires
        call_ensures(
            CompositorState::<D>::composite,
            (before, layers, size, gamma_ratios, contrast),
            composited,
        ),
    ensures
        composited.1 is Ok ==> composited.0.target is Some,
        composited.0.target is Some && composited.0.target != before.target
            ==> composited.0.target->0.size == size,
        composited.1 is Ok ==> composited.0.target->0.size.width.0 == size.width.0
            && composited.0.target->0.size.height.0 == size.height.0,
        before.target is None || before.target->0.size.width.0 != size.width.0
            || before.target->0.size.height.0 != size.height.0 ==> exists|
            made: (D, Result<D::Target, D::Error>),
        | #[trigger] call_ensures(D::new_target, (before.device, size), made),
{
}

/// A compositor that gives a bitmap holds a target of the bitmap's dimensions.
pub proof fn law_compositors_hold_a_target_that_fits<D: GlyphDevice>()
    ensures
        forall|
            compositor: &mut GlyphCompositor<D>,
            on_owner_thread: bool,
            layers: &[ColorGlyphLayer],
            size: Size<DevicePixels>,
            gamma_ratios: &[Scalar; 4],
            contrast: Scalar,
            pixels: Vec<u8>,
        |
            #[trigger] call_ensures(
                GlyphCompositor::<D>::composite,
                (compositor, on_owner_thread, layers, size, gamma_ratios, contrast),
                Ok::<Option<Vec<u8>>, CompositeError<D::Error>>(Some(pixels)),
            ) ==> {
                let state = (*final(compositor)).state();
                &&& on_owner_thread
                &&& (*compositor).state() is Some
                &&& state is Some
                &&& state->0.target is Some
                &&& state->0.target->0.size.width.0 == size.width.0
                &&& state->0.target->0.size.height.0 == size.height.0
            },
{
}

/// An instance that is interned is stored under its identifier with its bytes, face, coordinates,
/// weight and skew.
pub proof fn law_interning_stores_every_property<D: DesignSpace>()
    ensures
        forall|
            store: &mut FontStore,
            data: Blob<u8>,
            index: u32,
            coords: &[i16],
            synthesis: Synthesis,
            design: &D,
            font_id: FontId,
        |
            #[trigger] call_ensures(
                FontStore::intern::<D>,
                (store, data, index, coords, synthesis, design),
                Ok::<FontId, FaceError>(font_id),
            ) ==> {
                let fonts = (*final(store)).fonts();
                let font = fonts[font_id.0 - first_identifier()];
                let styling = synthesis_styling(synthesis);
                &&& first_identifier() <= font_id.0 < first_identifier() + fonts.len()
                &&& font.source_identity == blob_id(data)
                &&& font.index == index
                &&& font.normalized_coords@ == coords@
                &&& font.synthesis.embolden == styling.embolden
                &&& same_skew(font.synthesis, styling)
            },
{
    assert forall|
        store: &mut FontStore,
        data: Blob<u8>,
        index: u32,
        coords: &[i16],
        synthesis: Synthesis,
        design: &D,
        font_id: FontId,
    |
        #[trigger] call_ensures(
            FontStore::intern::<D>,
            (store, data, index, coords, synthesis, design),
            Ok::<FontId, FaceError>(font_id),
        ) implies {
        let fonts = (*final(store)).fonts();
        let font = fonts[font_id.0 - first_identifier()];
        let styling = synthesis_styling(synthesis);
        &&& first_identifier() <= font_id.0 < first_identifier() + fonts.len()
        &&& font.source_identity == blob_id(data)
        &&& font.index == index
        &&& font.normalized_coords@ == coords@
        &&& font.synthesis.embolden == styling.embolden
        &&& same_skew(font.synthesis, styling)
    } by {
        law_interned_fonts_have_every_property(
            design,
            (*store).fonts(),
            data,
            index,
            coords@,
            synthesis_styling(synthesis),
            (*final(store)).fonts(),
            font_id,
        );
    }
}

/// Parameters share a cache entry only if every one of them is the same.
pub proof fn law_shared_entries_agree_in_every_parameter(
    left: &RenderGlyphParams,
    right: &RenderGlyphParams,
    shares: bool,
)
    requires
        call_ensures(RenderGlyphParams::shares_key, (left, right), shares),
    ensures
        shares ==> {
            &&& left.font_id.0 == right.font_id.0
            &&& left.glyph_id.0 == right.glyph_id.0
            &&& left.font_size.0.bits == right.font_size.0.bits
            &&& left.subpixel_variant.x == right.subpixel_variant.x
            &&& left.subpixel_variant.y == right.subpixel_variant.y
            &&& left.scale_factor.bits == right.scale_factor.bits
            &&& left.is_emoji == right.is_emoji
            &&& left.subpixel_rendering == right.subpixel_rendering
        },
        *left == *right && left.font_size.0.bits % 0x8000_0000 <= 0x7f80_0000
            && left.scale_factor.bits % 0x8000_0000 <= 0x7f80_0000 ==> shares,
{
    law_glyph_keys_hold_every_parameter(*left, *right);
}

/// A text system that remembers only what its platform made for its parameters gives out rasters
/// that the platform makes for the parameters asked for, and goes on to remember only such.
pub proof fn law_rasters_are_the_platforms_own<P: PlatformTextSystem>()
    ensures
        forall|
            system: &mut TextSystem<P>,
            params: &RenderGlyphParams,
            result: Result<Arc<RasterizedGlyph>, String>,
        |
            #[trigger] call_ensures(TextSystem::<P>::rasterize_glyph, (system, params), result)
                && rasters_are_the_platforms(&(*system).platform(), (*system).rasters()) ==> {
                &&& rasters_are_the_platforms(
                    &(*final(system)).platform(),
                    (*final(system)).rasters(),
                )
                &&& result matches Ok(glyph) ==> call_ensures(
                    P::rasterize_glyph,
                    (&(*system).platform(), params),
                    Ok::<RasterizedGlyph, String>(*glyph),
                )
            },
{
    assert forall|
        system: &mut TextSystem<P>,
        params: &RenderGlyphParams,
        result: Result<Arc<RasterizedGlyph>, String>,
    |
        #[trigger] call_ensures(TextSystem::<P>::rasterize_glyph, (system, params), result)
            && rasters_are_the_platforms(&(*system).platform(), (*system).rasters()) implies {
        &&& rasters_are_the_platforms(&(*final(system)).platform(), (*final(system)).rasters())
        &&& result matches Ok(glyph) ==> call_ensures(
            P::rasterize_glyph,
            (&(*system).platform(), params),
            Ok::<RasterizedGlyph, String>(*glyph),
        )
    } by {
        law_rasters_are_made_for_their_parameters(
            &(*system).platform(),
            (*system).rasters(),
            params,
            (*final(system)).rasters(),
            result,
        );
    }
}

/// A text system that remembers only what its platform answered for its fonts resolves fonts to
/// what the platform answers for their description and weight.
pub proof fn law_resolved_fonts_are_the_platforms_own<P: PlatformTextSystem>()
    ensures
        forall|system: &mut TextSystem<P>, font: &Font, result: Result<FontId, String>|
            #[trigger] call_ensures(TextSystem::<P>::font_id, (system, font), result)
                && answers_are_the_platforms(&(*system).platform(), (*system).resolved()) ==> {
                &&& answers_are_the_platforms(
                    &(*final(system)).platform(),
                    (*final(system)).resolved(),
                )
                &&& is_the_platforms_answer(&(*system).platform(), *font, result)
            },
{
    assert forall|system: &mut TextSystem<P>, font: &Font, result: Result<FontId, String>|
        #[trigger] call_ensures(TextSystem::<P>::font_id, (system, font), result)
            && answers_are_the_platforms(&(*system).platform(), (*system).resolved()) implies {
        &&& answers_are_the_platforms(&(*final(system)).platform(), (*final(system)).resolved())
        &&& is_the_platforms_answer(&(*system).platform(), *font, result)
    } by {
        law_fonts_are_resolved_for_their_description(
            &(*system).platform(),
            (*system).resolved(),
            font,
            (*final(system)).resolved(),
            result,
        );
    }
}

/// The ascent and the descent of a font are scaled from its own measurements, and the baseline of
/// a line lies the ascent and half of what is left of the line below its top.
pub proof fn law_lines_are_measured_from_the_font<P: PlatformTextSystem, A: Arithmetic>(
    arithmetic: &A,
    by: Computation,
)
    requires
        computes(arithmetic, by),
    ensures
        forall|system: &mut TextSystem<P>, font_id: FontId, font_size: Pixels, ascent: Pixels|
            #[trigger] call_ensures(
                TextSystem::<P>::ascent::<A>,
                (system, font_id, font_size, arithmetic),
                ascent,
            ) ==> {
                let metrics = (*final(system)).measured()[font_id.0];
                ascent.0 == scaled_by(by, metrics.ascent, metrics.units_per_em, font_size)
            },
        forall|system: &mut TextSystem<P>, font_id: FontId, font_size: Pixels, descent: Pixels|
            #[trigger] call_ensures(
                TextSystem::<P>::descent::<A>,
                (system, font_id, font_size, arithmetic),
                descent,
            ) ==> {
                let metrics = (*final(system)).measured()[font_id.0];
                descent.0 == scaled_by(by, metrics.descent, metrics.units_per_em, font_size)
            },
        forall|
            system: &mut TextSystem<P>,
            font_id: FontId,
            font_size: Pixels,
            line_height: Pixels,
            offset: Pixels,
        |
            #[trigger] call_ensures(
                TextSystem::<P>::baseline_offset::<A>,
                (system, font_id, font_size, line_height, arithmetic),
                offset,
            ) ==> {
                let metrics = (*final(system)).measured()[font_id.0];
                let ascent = scaled_by(by, metrics.ascent, metrics.units_per_em, font_size);
                let descent = scaled_by(by, metrics.descent, metrics.units_per_em, font_size);
                offset.0 == (by.sum)(
                    (by.difference)((by.difference)(line_height.0, ascent), descent).halved(),
                    ascent,
                )
            },
{
}

/// The advance of a character is that of the glyph that the platform has for it, scaled across and
/// down. A character without a glyph is reported, and so is what the platform fails with.
pub proof fn law_advances_are_those_of_the_characters_glyph<P: PlatformTextSystem, A: Arithmetic>(
    arithmetic: &A,
    by: Computation,
)
    requires
        computes(arithmetic, by),
    ensures
        forall|
            system: &mut TextSystem<P>,
            font_id: FontId,
            font_size: Pixels,
            character: char,
            result: Result<Size<Pixels>, GlyphError>,
        |
            #[trigger] call_ensures(
                TextSystem::<P>::advance::<A>,
                (system, font_id, font_size, character, arithmetic),
                result,
            ) ==> exists|glyph: Option<GlyphId>|
                {
                    &&& #[trigger] call_ensures(
                        P::glyph_for_char,
                        (&(*system).platform(), font_id, character),
                        glyph,
                    )
                    &&& glyph is None ==> result is Err && result->Err_0
                        == GlyphError::GlyphNotFound(character)
                    &&& glyph matches Some(glyph) ==> exists|told: Result<Size<Scalar>, String>|
                        {
                            let units = (*final(system)).measured()[font_id.0].units_per_em;
                            &&& #[trigger] call_ensures(
                                P::advance,
                                (&(*system).platform(), font_id, glyph),
                                told,
                            )
                            &&& told is Ok <==> result is Ok
                            &&& told matches Err(message) ==> result->Err_0
                                == GlyphError::Platform(message)
                            &&& told matches Ok(told) ==> result->Ok_0.width.0 == scaled_by(
                                by,
                                told.width,
                                units,
                                font_size,
                            ) && result->Ok_0.height.0 == scaled_by(
                                by,
                                told.height,
                                units,
                                font_size,
                            )
                        }
                },
{
}

/// The bounds of a character are those of the glyph that the platform has for it, all four numbers
/// scaled. A character without a glyph is reported, and so is what the platform fails with.
pub proof fn law_bounds_are_those_of_the_characters_glyph<P: PlatformTextSystem, A: Arithmetic>(
    arithmetic: &A,
    by: Computation,
)
    requires
        computes(arithmetic, by),
    ensures
        forall|
            system: &mut TextSystem<P>,
            font_id: FontId,
            font_size: Pixels,
            character: char,
            result: Result<Bounds<Pixels>, GlyphError>,
        |
            #[trigger] call_ensures(
                TextSystem::<P>::typographic_bounds::<A>,
                (system, font_id, font_size, character, arithmetic),
                result,
            ) ==> exists|glyph: Option<GlyphId>|
                {
                    &&& #[trigger] call_ensures(
                        P::glyph_for_char,
                        (&(*system).platform(), font_id, character),
                        glyph,
                    )
                    &&& glyph is None ==> result is Err && result->Err_0
                        == GlyphError::GlyphNotFound(character)
                    &&& glyph matches Some(glyph) ==> exists|told: Result<Bounds<Scalar>, String>|
                        {
                            let units = (*final(system)).measured()[font_id.0].units_per_em;
                            &&& #[trigger] call_ensures(
                                P::typographic_bounds,
                                (&(*system).platform(), font_id, glyph),
                                told,
                            )
                            &&& told is Ok <==> result is Ok
                            &&& told matches Err(message) ==> result->Err_0
                                == GlyphError::Platform(message)
                            &&& told matches Ok(told) ==> are_bounds_scaled_by(
                                by,
                                told,
                                units,
                                font_size,
                                result->Ok_0,
                            )
                        }
                },
        forall|
            system: &mut TextSystem<P>,
            font_id: FontId,
            font_size: Pixels,
            bounds: Bounds<Pixels>,
        |
            #[trigger] call_ensures(
                TextSystem::<P>::bounding_box::<A>,
                (system, font_id, font_size, arithmetic),
                bounds,
            ) ==> {
                let metrics = (*final(system)).measured()[font_id.0];
                are_bounds_scaled_by(
                    by,
                    metrics.bounding_box,
                    metrics.units_per_em,
                    font_size,
                    bounds,
                )
            },
{
}

/// All four numbers of a rectangle in font units, scaled to a font size.
pub open spec fn are_bounds_scaled_by(
    by: Computation,
    bounds: Bounds<Scalar>,
    units_per_em: u32,
    font_size: Pixels,
    scaled: Bounds<Pixels>,
) -> bool {
    &&& scaled.origin.x.0 == scaled_by(by, bounds.origin.x, units_per_em, font_size)
    &&& scaled.origin.y.0 == scaled_by(by, bounds.origin.y, units_per_em, font_size)
    &&& scaled.size.width.0 == scaled_by(by, bounds.size.width, units_per_em, font_size)
    &&& scaled.size.height.0 == scaled_by(by, bounds.size.height, units_per_em, font_size)
}

/// A system asks its platform for the rendering mode and the names of fonts, for just what is asked
/// for.
pub proof fn law_platforms_are_asked_as_asked<P: PlatformTextSystem>(
    system: &TextSystem<P>,
    font_id: FontId,
    font_size: Pixels,
    mode: TextRenderingMode,
    names: Vec<String>,
)
    requires
        call_ensures(
            TextSystem::<P>::recommended_rendering_mode,
            (system, font_id, font_size),
            mode,
        ),
        call_ensures(TextSystem::<P>::all_font_names, (system,), names),
    ensures
        call_ensures(
            P::recommended_rendering_mode,
            (&system.platform(), font_id, font_size),
            mode,
        ),
        mode != TextRenderingMode::PlatformDefault,
        call_ensures(P::all_font_names, (&system.platform(),), names),
{
}

} // verus!
