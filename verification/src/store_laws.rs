//! What holds of every font that is stored, and of how stored fonts measure.

use crate::blob::{blob_bytes, blob_id, FontSynthesis};
use crate::design::{DesignSpace, FontVariation};
use crate::face::{face_has_table, face_parses, AxisRecord, FaceMetrics, GlyphExtent};
use crate::font::FontMetrics;
use crate::geometry::Bounds;
use crate::scalar::{computes, Arithmetic, Computation, Scalar};
use crate::store::{
    advertises_color, all_axis_defaults, are_font_metrics, are_glyph_bounds, fonts_well_formed,
    instance_key, interned, is_axis_default, key_is_at, stored_font, FaceError, LoadedFont,
};
use crate::text_system::FontId;
use fontique::Blob;
use vstd::prelude::*;

verus! {

/// The first identifier of a stored font: the highest bit, and no other.
pub open spec fn first_identifier() -> int {
    (usize::MAX + 1) / 2
}

/// Whether a skew is told by one encoding in both stylings, or by none.
pub open spec fn same_skew(left: FontSynthesis, right: FontSynthesis) -> bool {
    match (left.skew_degrees, right.skew_degrees) {
        (None, None) => true,
        (Some(left), Some(right)) => left.bits == right.bits,
        _ => false,
    }
}

/// Whether a stored font is an instance, property by property.
pub open spec fn stores(
    font: LoadedFont,
    data: Blob<u8>,
    index: u32,
    coords: Seq<i16>,
    styling: FontSynthesis,
) -> bool {
    &&& font.source_identity == blob_id(data)
    &&& font.index == index
    &&& font.normalized_coords@ == coords
    &&& font.synthesis.embolden == styling.embolden
    &&& same_skew(font.synthesis, styling)
}

/// The font that is stored under the identifier that an instance gets has the bytes, the face, the
/// coordinates, the weight and the skew that were interned.
pub proof fn law_interned_fonts_have_every_property<D: DesignSpace>(
    design: &D,
    before: Seq<LoadedFont>,
    data: Blob<u8>,
    index: u32,
    coords: Seq<i16>,
    styling: FontSynthesis,
    after: Seq<LoadedFont>,
    font_id: FontId,
)
    requires
        interned(
            design,
            before,
            data,
            index,
            coords,
            styling,
            after,
            Ok::<FontId, FaceError>(font_id),
        ),
    ensures
        first_identifier() <= font_id.0 < first_identifier() + after.len(),
        stored_font(after, font_id) == Some(after[font_id.0 - first_identifier()]),
        ({
            let font = after[font_id.0 - first_identifier()];
            &&& font.source_identity == blob_id(data)
            &&& font.index == index
            &&& font.normalized_coords@ == coords
            &&& font.synthesis.embolden == styling.embolden
            &&& font.synthesis.skew_degrees is None <==> styling.skew_degrees is None
            &&& styling.skew_degrees is Some ==> font.synthesis.skew_degrees->0.bits
                == styling.skew_degrees->0.bits
        }),
{
}

/// Interning succeeds for every face that can be parsed, as long as there are identifiers left. An
/// instance that is stored changes nothing; another is added behind the rest, with its bytes, its
/// styling, and whether it has color glyphs.
pub proof fn law_interning_adds_what_is_not_stored<D: DesignSpace>(
    design: &D,
    before: Seq<LoadedFont>,
    data: Blob<u8>,
    index: u32,
    coords: Seq<i16>,
    styling: FontSynthesis,
    after: Seq<LoadedFont>,
    result: Result<FontId, FaceError>,
)
    requires
        interned(design, before, data, index, coords, styling, after, result),
    ensures
        ({
            let parses = face_parses(blob_bytes(data), index);
            let stored = exists|position: int|
                0 <= position < before.len() && #[trigger] stores(
                    before[position],
                    data,
                    index,
                    coords,
                    styling,
                );
            let full = before.len() >= first_identifier();
            &&& !parses ==> result == Err::<FontId, FaceError>(FaceError::InternedFace)
            &&& parses && !stored && full ==> result == Err::<FontId, FaceError>(
                FaceError::Exhausted,
            )
            &&& parses && (stored || !full) ==> result is Ok
            &&& !parses || stored || full ==> after == before
            &&& parses && !stored && !full ==> {
                &&& after.len() == before.len() + 1
                &&& forall|position: int|
                    0 <= position < before.len() ==> #[trigger] after[position] == before[position]
                &&& after.last().data == data
                &&& after.last().synthesis == styling
                &&& stores(after.last(), data, index, coords, styling)
                &&& result->Ok_0.0 == first_identifier() + before.len()
                &&& after.last().has_color_glyphs <==> {
                    ||| face_has_table(
                        blob_bytes(data),
                        index,
                        seq![0x43u8, 0x42u8, 0x44u8, 0x54u8],
                    )
                    ||| face_has_table(
                        blob_bytes(data),
                        index,
                        seq![0x73u8, 0x62u8, 0x69u8, 0x78u8],
                    )
                    ||| face_has_table(
                        blob_bytes(data),
                        index,
                        seq![0x43u8, 0x4fu8, 0x4cu8, 0x52u8],
                    )
                    ||| face_has_table(
                        blob_bytes(data),
                        index,
                        seq![0x53u8, 0x56u8, 0x47u8, 0x20u8],
                    )
                }
            }
        }),
{
    let key = instance_key(data, index, coords, styling);
    if exists|position: int|
        0 <= position < before.len() && #[trigger] stores(
            before[position],
            data,
            index,
            coords,
            styling,
        ) {
        let position = choose|position: int|
            0 <= position < before.len() && #[trigger] stores(
                before[position],
                data,
                index,
                coords,
                styling,
            );
        assert(key_is_at(before, key, position));
    }
    if exists|position: int| #[trigger] key_is_at(before, key, position) {
        let position = choose|position: int| #[trigger] key_is_at(before, key, position);
        assert(stores(before[position], data, index, coords, styling));
    } else if after.len() > before.len() {
        assert forall|position: int| 0 <= position < before.len() implies #[trigger] after[position]
            == before[position] by {
            assert(after.drop_last()[position] == after[position]);
        }
    }
}

/// No two stored fonts agree in all of their properties, and each has the identifier of its bytes
/// and a face that can be parsed.
pub proof fn law_stored_fonts_differ(fonts: Seq<LoadedFont>, left: int, right: int)
    requires
        fonts_well_formed(fonts),
        0 <= left < fonts.len(),
        0 <= right < fonts.len(),
    ensures
        fonts[left].source_identity == blob_id(fonts[left].data),
        face_parses(blob_bytes(fonts[left].data), fonts[left].index),
        left != right ==> {
            ||| fonts[left].source_identity != fonts[right].source_identity
            ||| fonts[left].index != fonts[right].index
            ||| fonts[left].normalized_coords@ != fonts[right].normalized_coords@
            ||| fonts[left].synthesis.embolden != fonts[right].synthesis.embolden
            ||| !same_skew(fonts[left].synthesis, fonts[right].synthesis)
        },
        fonts.len() <= first_identifier(),
{
    if left < right {
        assert(fonts[left].key() != fonts[right].key());
    } else if right < left {
        assert(fonts[right].key() != fonts[left].key());
    }
}

/// Two instances that differ in their bytes, face, coordinates, weight or skew get two identifiers,
/// and two that agree in all of them get one.
pub proof fn law_identifiers_tell_properties_apart<D: DesignSpace>(
    design: &D,
    before: Seq<LoadedFont>,
    data: Blob<u8>,
    index: u32,
    coords: Seq<i16>,
    styling: FontSynthesis,
    between: Seq<LoadedFont>,
    font_id: FontId,
    other_data: Blob<u8>,
    other_index: u32,
    other_coords: Seq<i16>,
    other_styling: FontSynthesis,
    after: Seq<LoadedFont>,
    other_id: FontId,
)
    requires
        fonts_well_formed(after),
        interned(
            design,
            before,
            data,
            index,
            coords,
            styling,
            between,
            Ok::<FontId, FaceError>(font_id),
        ),
        interned(
            design,
            between,
            other_data,
            other_index,
            other_coords,
            other_styling,
            after,
            Ok::<FontId, FaceError>(other_id),
        ),
    ensures
        font_id.0 == other_id.0 <==> {
            &&& blob_id(data) == blob_id(other_data)
            &&& index == other_index
            &&& coords == other_coords
            &&& styling.embolden == other_styling.embolden
            &&& same_skew(styling, other_styling)
        },
{
    assert(between.subrange(0, between.len() as int) =~= between);
    crate::store::law_interning_tells_instances_apart(
        design,
        before,
        data,
        index,
        coords,
        styling,
        between,
        font_id,
        between,
        other_data,
        other_index,
        other_coords,
        other_styling,
        after,
        other_id,
    );
}

/// A font is found under every identifier from the first to the last that was given out, and under
/// no other, and each time in its own place.
pub proof fn law_fonts_are_found_by_their_place(fonts: Seq<LoadedFont>, font_id: FontId)
    ensures
        first_identifier() <= font_id.0 < first_identifier() + fonts.len() ==> stored_font(
            fonts,
            font_id,
        ) == Some(fonts[font_id.0 - first_identifier()]),
        font_id.0 < first_identifier() || font_id.0 >= first_identifier() + fonts.len()
            ==> stored_font(fonts, font_id) is None,
{
}

/// A face advertises color glyphs exactly if it has a `CBDT`, an `sbix`, a `COLR` or an `SVG `
/// table.
pub proof fn law_four_tables_advertise_color(data: Seq<u8>, index: u32, tag: Seq<u8>)
    ensures
        face_has_table(data, index, tag) && (tag == seq![0x43u8, 0x42u8, 0x44u8, 0x54u8] || tag
            == seq![0x73u8, 0x62u8, 0x69u8, 0x78u8] || tag == seq![0x43u8, 0x4fu8, 0x4cu8, 0x52u8]
            || tag == seq![0x53u8, 0x56u8, 0x47u8, 0x20u8]) ==> advertises_color(data, index),
        advertises_color(data, index) ==> exists|held: Seq<u8>| #[trigger]
            face_has_table(data, index, held) && (held == seq![0x43u8, 0x42u8, 0x44u8, 0x54u8]
                || held == seq![0x73u8, 0x62u8, 0x69u8, 0x78u8] || held
                == seq![0x43u8, 0x4fu8, 0x4cu8, 0x52u8] || held
                == seq![0x53u8, 0x56u8, 0x47u8, 0x20u8]),
{
}

/// Variations are at their defaults exactly if each is: some axis has its tag, and a default that
/// is the same number.
pub proof fn law_defaults_hold_of_every_variation(
    axes: Seq<AxisRecord>,
    variations: Seq<FontVariation>,
    which: int,
)
    requires
        0 <= which < variations.len(),
    ensures
        all_axis_defaults(axes, variations) ==> exists|axis: int|
            {
                let default = (#[trigger] axes[axis]).default;
                let value = variations[which].value;
                &&& 0 <= axis < axes.len()
                &&& axes[axis].tag == variations[which].tag
                &&& default.bits == value.bits || (default.bits % 0x8000_0000 == 0 && value.bits
                    % 0x8000_0000 == 0)
            },
        (forall|axis: int|
            0 <= axis < axes.len() && (#[trigger] axes[axis]).tag == variations[which].tag ==> {
                let default = axes[axis].default;
                let value = variations[which].value;
                default.bits != value.bits && default.bits % 0x8000_0000 != 0
            }) ==> !all_axis_defaults(axes, variations),
{
    if all_axis_defaults(axes, variations) {
        assert(is_axis_default(axes, variations[which]));
    }
}

/// Variations are at their defaults if each has the encoding of some axis with its tag, and is a
/// number.
pub proof fn law_defaults_are_recognised(
    axes: Seq<AxisRecord>,
    variations: Seq<FontVariation>,
    places: Seq<int>,
)
    requires
        places.len() == variations.len(),
        forall|which: int|
            0 <= which < places.len() ==> {
                &&& 0 <= #[trigger] places[which] < axes.len()
                &&& axes[places[which]].tag == variations[which].tag
                &&& axes[places[which]].default.bits == variations[which].value.bits
                &&& variations[which].value.bits % 0x8000_0000 <= 0x7f80_0000
            },
    ensures
        all_axis_defaults(axes, variations),
{
    assert forall|which: int| 0 <= which < variations.len() implies is_axis_default(
        axes,
        #[trigger] variations[which],
    ) by {
        let axis = places[which];
        assert(axes[axis].tag == variations[which].tag && axes[axis].default.equals(
            variations[which].value,
        ));
    }
}

/// The measurements of a font are those of its face: lengths as they are, the descent with its
/// sign turned, heights that the face does not tell as high as the ascent, and other lengths that
/// it does not tell zero. The bounding box starts at the origin, and is as high as the ascent is
/// above the descent.
pub proof fn law_metrics_are_those_of_the_face<A: Arithmetic>(
    arithmetic: &A,
    by: Computation,
    face: FaceMetrics,
    metrics: FontMetrics,
)
    requires
        computes(arithmetic, by),
        are_font_metrics(arithmetic, face, metrics),
    ensures
        metrics.units_per_em == face.units_per_em,
        metrics.ascent.bits == face.ascent,
        metrics.descent.bits % 0x8000_0000 == face.descent % 0x8000_0000,
        metrics.descent.bits != face.descent,
        metrics.line_gap.bits == face.leading,
        face.underline_offset is None ==> metrics.underline_position.bits == 0,
        face.underline_offset matches Some(offset) ==> metrics.underline_position.bits == offset,
        face.underline_thickness is None ==> metrics.underline_thickness.bits == 0,
        face.underline_thickness matches Some(thickness) ==> metrics.underline_thickness.bits
            == thickness,
        face.cap_height is None ==> metrics.cap_height.bits == face.ascent,
        face.cap_height matches Some(height) ==> metrics.cap_height.bits == height,
        face.x_height is None ==> metrics.x_height.bits == face.ascent,
        face.x_height matches Some(height) ==> metrics.x_height.bits == height,
        face.max_width is None ==> metrics.bounding_box.size.width.bits == 0,
        face.max_width matches Some(width) ==> metrics.bounding_box.size.width.bits == width,
        metrics.bounding_box.origin.x.bits == 0,
        metrics.bounding_box.origin.y.bits == 0,
        metrics.bounding_box.size.height == (by.difference)(
            Scalar { bits: face.ascent },
            Scalar { bits: face.descent },
        ),
{
}

/// The bounds of a glyph reach from the least to the greatest coordinates of its extent; a glyph
/// without extent has none, at the origin.
pub proof fn law_bounds_are_those_of_the_extent<A: Arithmetic>(
    arithmetic: &A,
    by: Computation,
    extent: Option<GlyphExtent>,
    bounds: Bounds<Scalar>,
)
    requires
        computes(arithmetic, by),
        are_glyph_bounds(arithmetic, extent, bounds),
    ensures
        extent is None ==> bounds.origin.x.bits == 0 && bounds.origin.y.bits == 0
            && bounds.size.width.bits == 0 && bounds.size.height.bits == 0,
        extent matches Some(extent) ==> {
            &&& bounds.origin.x == extent.x_min
            &&& bounds.origin.y == extent.y_min
            &&& bounds.size.width == (by.difference)(extent.x_max, extent.x_min)
            &&& bounds.size.height == (by.difference)(extent.y_max, extent.y_min)
        },
{
}

} // verus!
