//! What holds of every glyph that the portable rasterizer plans and finishes.

use crate::blob::blob_bytes;
use crate::raster::{
    pixel_at, GlyphRenderMode, Pixel, PreparedRasterStyle, RasterColorEffect, RasterStyleRequest,
    RasterizedGlyph, RasterizedGlyphFormat, Rgba8,
};
use crate::scalar::{computes, Arithmetic, Computation, Scalar};
use crate::store::RasterFace;
use crate::swash_rasterizer::{
    covered_alpha, is_finished, is_prepared, is_render_plan, mask_color, refusal,
    swash_face_offset, GlyphImage, GlyphImageRenderer, GlyphSource, ImageContent, MaskFormat,
    RenderPlan, SwashError,
};
use crate::text_system::RenderGlyphParams;
use swash::CacheKey;
use vstd::prelude::*;

verus! {

/// Whether an image has pixels, and its placement fits in device pixels with the vertical axis
/// turned.
pub open spec fn can_be_placed(image: GlyphImage) -> bool {
    &&& 0 < image.width <= 0x7fff_ffff
    &&& 0 < image.height <= 0x7fff_ffff
    &&& image.top > -0x8000_0000
}

/// A coverage mask becomes a grayscale raster with every coverage byte as it is.
pub proof fn law_grayscale_rasters_keep_every_coverage<R: GlyphImageRenderer>(
    renderer: &R,
    image: GlyphImage,
    style: PreparedRasterStyle,
    result: Result<RasterizedGlyph, SwashError>,
)
    requires
        can_be_placed(image),
        image.content == ImageContent::Mask,
        style.mode == GlyphRenderMode::Grayscale,
        is_finished(renderer, Some(image), style, result),
    ensures
        result matches Ok(glyph) && {
            &&& glyph.format == RasterizedGlyphFormat::AlphaMask
            &&& glyph.pixels@.len() == image.data@.len()
            &&& forall|at: int|
                0 <= at < image.data@.len() ==> #[trigger] glyph.pixels@[at] == image.data@[at]
        },
{
}

/// A coverage mask becomes a subpixel raster in which every channel of a pixel has the pixel's
/// coverage.
pub proof fn law_widened_masks_cover_all_channels_alike<R: GlyphImageRenderer>(
    renderer: &R,
    image: GlyphImage,
    style: PreparedRasterStyle,
    result: Result<RasterizedGlyph, SwashError>,
)
    requires
        can_be_placed(image),
        image.content == ImageContent::Mask,
        style.mode == GlyphRenderMode::Subpixel,
        is_finished(renderer, Some(image), style, result),
    ensures
        result matches Ok(glyph) && {
            &&& glyph.format == RasterizedGlyphFormat::BgraSubpixelMask
            &&& glyph.pixels@.len() == 4 * image.data@.len()
            &&& forall|at: int|
                0 <= at < image.data@.len() ==> {
                    &&& glyph.pixels@[4 * at] == #[trigger] image.data@[at]
                    &&& glyph.pixels@[4 * at + 1] == image.data@[at]
                    &&& glyph.pixels@[4 * at + 2] == image.data@[at]
                    &&& glyph.pixels@[4 * at + 3] == 0
                }
        },
{
    let pixels = result->Ok_0.pixels@;
    assert forall|at: int| 0 <= at < image.data@.len() implies {
        &&& pixels[4 * at] == #[trigger] image.data@[at]
        &&& pixels[4 * at + 1] == image.data@[at]
        &&& pixels[4 * at + 2] == image.data@[at]
        &&& pixels[4 * at + 3] == 0
    } by {
        let pixel = pixel_at(pixels, at);
        assert(pixel.first == image.data@[at]);
    }
}

/// Whether `share` is the nearest to the share of an opacity that a coverage leaves: 255 times as
/// much is no further from their product than a multiple of 255 can be.
pub open spec fn is_nearest_share(share: u8, coverage: u8, alpha: u8) -> bool {
    -127 <= 255 * share - coverage * alpha <= 127
}

/// Coverage leaves the nearest share of an opacity.
pub proof fn law_covered_opacity_is_the_nearest_share(coverage: u8, alpha: u8)
    ensures
        is_nearest_share(covered_alpha(coverage, alpha), coverage, alpha),
{
    let product = coverage * alpha;
    assert(0 <= product <= 255 * 255) by (nonlinear_arith)
        requires
            coverage <= 255,
            alpha <= 255,
            product == coverage * alpha,
    ;
    assert((product + 127) / 255 <= 255);
}

/// A coverage mask becomes a colored raster that holds the glyph's color in every pixel, black
/// where the style has none, with the opacity that the coverage leaves.
pub proof fn law_tinted_masks_hold_the_color<R: GlyphImageRenderer>(
    renderer: &R,
    image: GlyphImage,
    style: PreparedRasterStyle,
    color: Rgba8,
    result: Result<RasterizedGlyph, SwashError>,
    at: int,
)
    requires
        can_be_placed(image),
        image.content == ImageContent::Mask,
        style.mode == GlyphRenderMode::Color,
        style.color_effect == RasterColorEffect::Preblend(color) || (style.color_effect
            == RasterColorEffect::Independent && color == (Rgba8 {
            red: 0,
            green: 0,
            blue: 0,
            alpha: 255,
        })),
        0 <= at < image.data@.len(),
        is_finished(renderer, Some(image), style, result),
    ensures
        result matches Ok(glyph) && {
            &&& glyph.format == RasterizedGlyphFormat::BgraColor
            &&& glyph.pixels@.len() == 4 * image.data@.len()
            &&& glyph.pixels@[4 * at] == color.blue
            &&& glyph.pixels@[4 * at + 1] == color.green
            &&& glyph.pixels@[4 * at + 2] == color.red
            &&& is_nearest_share(glyph.pixels@[4 * at + 3], image.data@[at], color.alpha)
        },
{
    assert(mask_color(style.color_effect) == Some(color));
    let pixel = pixel_at(result->Ok_0.pixels@, at);
    assert(pixel.alpha == covered_alpha(image.data@[at], color.alpha));
    law_covered_opacity_is_the_nearest_share(image.data@[at], color.alpha);
}

/// A subpixel mask, and a color image that is not multiplied by its alpha, become rasters whose
/// pixels hold the same bytes with red and blue exchanged.
pub proof fn law_rasters_exchange_red_and_blue<R: GlyphImageRenderer>(
    renderer: &R,
    image: GlyphImage,
    style: PreparedRasterStyle,
    result: Result<RasterizedGlyph, SwashError>,
)
    requires
        can_be_placed(image),
        image.content == ImageContent::SubpixelMask || (image.content == ImageContent::Color
            && !image.premultiplied),
        is_finished(renderer, Some(image), style, result),
    ensures
        result matches Ok(glyph) && {
            &&& glyph.format == if image.content == ImageContent::Color {
                RasterizedGlyphFormat::BgraColor
            } else {
                RasterizedGlyphFormat::BgraSubpixelMask
            }
            &&& glyph.pixels@.len() == image.data@.len()
            &&& forall|pixel: int|
                0 <= 4 * pixel && 4 * pixel + 3 < image.data@.len() ==> {
                    &&& #[trigger] glyph.pixels@[4 * pixel] == image.data@[4 * pixel + 2]
                    &&& glyph.pixels@[4 * pixel + 1] == image.data@[4 * pixel + 1]
                    &&& glyph.pixels@[4 * pixel + 2] == image.data@[4 * pixel]
                    &&& glyph.pixels@[4 * pixel + 3] == image.data@[4 * pixel + 3]
                }
        },
{
    let pixels = result->Ok_0.pixels@;
    let data = image.data@;
    assert forall|pixel: int| 0 <= 4 * pixel && 4 * pixel + 3 < data.len() implies {
        &&& #[trigger] pixels[4 * pixel] == data[4 * pixel + 2]
        &&& pixels[4 * pixel + 1] == data[4 * pixel + 1]
        &&& pixels[4 * pixel + 2] == data[4 * pixel]
        &&& pixels[4 * pixel + 3] == data[4 * pixel + 3]
    } by {
        let before = pixel_at(data, pixel);
        let after = pixel_at(pixels, pixel);
        assert(after.first == before.third);
    }
}

/// A color image that is multiplied by its alpha becomes a raster whose pixels are what the
/// renderer straightens the image's to.
pub proof fn law_multiplied_colors_are_straightened<R: GlyphImageRenderer>(
    renderer: &R,
    image: GlyphImage,
    style: PreparedRasterStyle,
    result: Result<RasterizedGlyph, SwashError>,
    pixel: int,
)
    requires
        can_be_placed(image),
        image.content == ImageContent::Color,
        image.premultiplied,
        0 <= 4 * pixel,
        4 * pixel + 3 < image.data@.len(),
        is_finished(renderer, Some(image), style, result),
    ensures
        result matches Ok(glyph) && {
            &&& glyph.format == RasterizedGlyphFormat::BgraColor
            &&& glyph.pixels@.len() == image.data@.len()
            &&& call_ensures(
                R::straighten,
                (
                    renderer,
                    (Pixel {
                        first: image.data@[4 * pixel],
                        second: image.data@[4 * pixel + 1],
                        third: image.data@[4 * pixel + 2],
                        alpha: image.data@[4 * pixel + 3],
                    }),
                ),
                (Pixel {
                    first: glyph.pixels@[4 * pixel],
                    second: glyph.pixels@[4 * pixel + 1],
                    third: glyph.pixels@[4 * pixel + 2],
                    alpha: glyph.pixels@[4 * pixel + 3],
                }),
            )
        },
{
    let before = pixel_at(image.data@, pixel);
    let after = pixel_at(result->Ok_0.pixels@, pixel);
    assert(call_ensures(R::straighten, (renderer, before), after));
}

/// A raster lies where its image does, with the vertical axis turned, and is as large.
pub proof fn law_rasters_lie_where_they_were_drawn<R: GlyphImageRenderer>(
    renderer: &R,
    image: GlyphImage,
    style: PreparedRasterStyle,
    glyph: RasterizedGlyph,
)
    requires
        image.width > 0,
        image.height > 0,
        is_finished(renderer, Some(image), style, Ok::<RasterizedGlyph, SwashError>(glyph)),
    ensures
        glyph.bounds.origin.x.0 == image.left,
        glyph.bounds.origin.y.0 == -image.top,
        glyph.bounds.size.width.0 == image.width,
        glyph.bounds.size.height.0 == image.height,
        glyph.size.width.0 == image.width,
        glyph.size.height.0 == image.height,
{
}

/// Where nothing was drawn, the raster has no pixels and no extent, and is of the mode's format.
pub proof fn law_glyphs_without_ink_have_no_extent<R: GlyphImageRenderer>(
    renderer: &R,
    image: Option<GlyphImage>,
    style: PreparedRasterStyle,
    result: Result<RasterizedGlyph, SwashError>,
)
    requires
        image matches Some(image) ==> image.width == 0 || image.height == 0,
        is_finished(renderer, image, style, result),
    ensures
        result matches Ok(glyph) && {
            &&& glyph.pixels@.len() == 0
            &&& glyph.size.width.0 == 0
            &&& glyph.size.height.0 == 0
            &&& glyph.bounds.size == glyph.size
            &&& glyph.bounds.origin.x.0 == 0
            &&& glyph.bounds.origin.y.0 == 0
            &&& glyph.format == match style.mode {
                GlyphRenderMode::Grayscale => RasterizedGlyphFormat::AlphaMask,
                GlyphRenderMode::Subpixel => RasterizedGlyphFormat::BgraSubpixelMask,
                GlyphRenderMode::Color => RasterizedGlyphFormat::BgraColor,
            }
        },
{
}

/// What was drawn is refused only if it cannot be placed, or is a mask to be colored with a style
/// that dilates.
pub proof fn law_images_are_refused_for_cause<R: GlyphImageRenderer>(
    renderer: &R,
    image: GlyphImage,
    style: PreparedRasterStyle,
    result: Result<RasterizedGlyph, SwashError>,
)
    requires
        image.width > 0,
        image.height > 0,
        is_finished(renderer, Some(image), style, result),
    ensures
        !can_be_placed(image) <==> result == Err::<RasterizedGlyph, SwashError>(
            SwashError::ImageOutOfRange,
        ),
        can_be_placed(image) && image.content == ImageContent::Mask && style.mode
            == GlyphRenderMode::Color && style.color_effect is Dilation <==> result == Err::<
            RasterizedGlyph,
            SwashError,
        >(SwashError::DilatedColorGlyph),
        result is Err ==> result->Err_0 == SwashError::ImageOutOfRange || result->Err_0
            == SwashError::DilatedColorGlyph,
{
}

/// A glyph is planned from the face that it was asked of, as that face is: its bytes, its
/// coordinates, its skew, and heavier exactly if it is to be.
pub proof fn law_plans_are_for_the_exact_face<A: Arithmetic>(
    arithmetic: &A,
    face: RasterFace<'_>,
    params: RenderGlyphParams,
    style: PreparedRasterStyle,
    key: CacheKey,
    plan: RenderPlan<'_>,
)
    requires
        is_render_plan(arithmetic, face, params, style, key, plan),
    ensures
        plan.data@ == blob_bytes(*face.source),
        Some(plan.offset) == swash_face_offset(blob_bytes(*face.source), face.face_index),
        plan.key == key,
        plan.normalized_coords@ == face.normalized_coords@,
        plan.skew_degrees == face.synthesis.skew_degrees,
        plan.embolden is Some <==> face.synthesis.embolden,
        plan.glyph_id == params.glyph_id.0,
{
}

/// The numbers of a plan are those of the glyph: its size in device pixels, a forty-eighth of that
/// by which it is made heavier, and quarters of a pixel across.
pub proof fn law_plans_have_the_glyphs_numbers<A: Arithmetic>(
    arithmetic: &A,
    by: Computation,
    face: RasterFace<'_>,
    params: RenderGlyphParams,
    style: PreparedRasterStyle,
    key: CacheKey,
    plan: RenderPlan<'_>,
)
    requires
        computes(arithmetic, by),
        is_render_plan(arithmetic, face, params, style, key, plan),
    ensures
        plan.size == (by.product)(params.font_size.0, params.scale_factor),
        plan.embolden matches Some(amount) ==> amount == (by.quotient)(
            (by.product)(params.font_size.0, params.scale_factor),
            Scalar { bits: 0x4240_0000 },
        ),
        plan.subpixel_offset.x == (by.quotient)(
            (by.from_integer)(params.subpixel_variant.x as u32),
            (by.from_integer)(4),
        ),
        plan.subpixel_offset.y == (by.quotient)(
            (by.from_integer)(params.subpixel_variant.y as u32),
            (by.from_integer)(1),
        ),
{
}

/// A plan looks for color artwork exactly if the glyph is to be colored, and always ends with the
/// outline. It samples each color channel exactly if that is the mode, and knows the color that
/// the raster is to hold.
pub proof fn law_plans_follow_the_style<A: Arithmetic>(
    arithmetic: &A,
    face: RasterFace<'_>,
    params: RenderGlyphParams,
    style: PreparedRasterStyle,
    key: CacheKey,
    plan: RenderPlan<'_>,
)
    requires
        is_render_plan(arithmetic, face, params, style, key, plan),
    ensures
        plan.sources@.len() > 1,
        plan.sources@.last() == GlyphSource::Outline,
        plan.sources@.first() == if style.mode == GlyphRenderMode::Color {
            GlyphSource::ColorOutline
        } else {
            GlyphSource::BitmapExactSize
        },
        plan.sources@.contains(GlyphSource::ColorBitmapBestFit) <==> style.mode
            == GlyphRenderMode::Color,
        plan.sources@.contains(GlyphSource::ColorOutline) <==> style.mode == GlyphRenderMode::Color,
        plan.sources@.contains(GlyphSource::BitmapExactSize) <==> style.mode
            != GlyphRenderMode::Color,
        plan.sources@.no_duplicates(),
        plan.format == MaskFormat::SubpixelBgra <==> style.mode == GlyphRenderMode::Subpixel,
        style.color_effect matches RasterColorEffect::Preblend(color) ==> plan.default_color
            == Some(color),
        plan.default_color is None <==> !(style.color_effect is Preblend),
{
    if style.mode == GlyphRenderMode::Color {
        assert(plan.sources@[0] == GlyphSource::ColorOutline);
        assert(plan.sources@[1] == GlyphSource::ColorBitmapBestFit);
    } else {
        assert(plan.sources@[0] == GlyphSource::BitmapExactSize);
    }
}

/// The number that four bytes spell, the most significant first.
pub open spec fn spelled(data: Seq<u8>, at: int) -> int {
    data[at] * 256 * 256 * 256 + data[at + 1] * 256 * 256 + data[at + 2] * 256 + data[at + 3]
}

/// Whether one of the tags that a font starts with stands at a place.
pub open spec fn font_starts_at(data: Seq<u8>, at: int) -> bool {
    &&& 0 <= at
    &&& at + 4 <= data.len()
    &&& {
        ||| data.subrange(at, at + 4) == seq![0u8, 1u8, 0u8, 0u8]
        ||| data.subrange(at, at + 4) == seq![0x4fu8, 0x54u8, 0x54u8, 0x4fu8]
        ||| data.subrange(at, at + 4) == seq![0x74u8, 0x72u8, 0x75u8, 0x65u8]
    }
}

/// A number that bytes spell is one whose bytes they are.
proof fn lemma_spelled_bytes(data: Seq<u8>, at: int, tag: Seq<u8>)
    requires
        0 <= at,
        at + 4 <= data.len(),
        tag.len() == 4,
    ensures
        spelled(data, at) == spelled(tag, 0) <==> data.subrange(at, at + 4) == tag,
{
    let held = data.subrange(at, at + 4);
    assert(held[0] == data[at] && held[1] == data[at + 1] && held[2] == data[at + 2] && held[3]
        == data[at + 3]);
    if spelled(data, at) == spelled(tag, 0) {
        assert(held =~= tag);
    }
}

/// A face is found where a font starts: the first face of a single font at the start of the bytes,
/// and a face of a collection where the collection's header says. Nothing else is found.
pub proof fn law_faces_are_found_where_fonts_start(data: Seq<u8>, index: u32)
    ensures
        match swash_face_offset(data, index) {
            Some(offset) => {
                &&& font_starts_at(data, offset as int)
                &&& if font_starts_at(data, 0) {
                    index == 0 && offset == 0
                } else {
                    &&& data.subrange(0, 4) == seq![0x74u8, 0x74u8, 0x63u8, 0x66u8]
                    &&& index < spelled(data, 8)
                    &&& offset == spelled(data, 12 + 4 * index)
                }
            },
            None => {
                ||| font_starts_at(data, 0) && index > 0
                ||| !font_starts_at(data, 0) && (data.len() < 16 + 4 * index || data.subrange(0, 4)
                    != seq![0x74u8, 0x74u8, 0x63u8, 0x66u8] || index >= spelled(data, 8)
                    || !font_starts_at(data, spelled(data, 12 + 4 * index)))
            },
        },
{
    if data.len() >= 4 {
        lemma_spelled_bytes(data, 0, seq![0u8, 1u8, 0u8, 0u8]);
        lemma_spelled_bytes(data, 0, seq![0x4fu8, 0x54u8, 0x54u8, 0x4fu8]);
        lemma_spelled_bytes(data, 0, seq![0x74u8, 0x72u8, 0x75u8, 0x65u8]);
        lemma_spelled_bytes(data, 0, seq![0x74u8, 0x74u8, 0x63u8, 0x66u8]);
    }
    if data.len() >= 16 + 4 * index {
        let at = spelled(data, 12 + 4 * index);
        if at + 4 <= data.len() {
            lemma_spelled_bytes(data, at, seq![0u8, 1u8, 0u8, 0u8]);
            lemma_spelled_bytes(data, at, seq![0x4fu8, 0x54u8, 0x54u8, 0x4fu8]);
            lemma_spelled_bytes(data, at, seq![0x74u8, 0x72u8, 0x75u8, 0x65u8]);
        }
    }
}

/// A glyph is planned exactly if its scale is a positive number, its face is found and its
/// identifier has sixteen bits; the first of these that fails is the error.
pub proof fn law_plans_are_refused_for_cause(face: RasterFace<'_>, params: RenderGlyphParams)
    ensures
        ({
            let scaled = 0 < params.scale_factor.bits < 0x7f80_0000;
            let found = swash_face_offset(blob_bytes(*face.source), face.face_index) is Some;
            let numbered = params.glyph_id.0 < 0x1_0000;
            &&& refusal(face, params) is None <==> scaled && found && numbered
            &&& refusal(face, params) == Some(SwashError::InvalidScaleFactor) <==> !scaled
            &&& refusal(face, params) == Some(SwashError::UnparsableFace) <==> scaled && !found
            &&& refusal(face, params) == Some(SwashError::GlyphIdOutOfRange) <==> scaled && found
                && !numbered
        }),
{
}

/// A style has the mode that was asked for. It depends on the scene's color exactly in color mode,
/// where it holds that color as the renderer rounds it.
pub proof fn law_styles_keep_the_requested_mode<R: GlyphImageRenderer>(
    renderer: &R,
    request: RasterStyleRequest,
    style: PreparedRasterStyle,
)
    requires
        is_prepared(renderer, request, style),
    ensures
        style.mode == request.requested_mode,
        style.color_effect == RasterColorEffect::Independent <==> request.requested_mode
            != GlyphRenderMode::Color,
        request.requested_mode == GlyphRenderMode::Color ==> exists|color: Rgba8| #[trigger]
            call_ensures(R::rounded, (renderer, request.scene_color), color) && style.color_effect
                == RasterColorEffect::Preblend(color),
{
}

} // verus!
