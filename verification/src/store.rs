//! Canonical storage for concrete font faces and variation instances.

use crate::blob::{
    blob_bytes, blob_data, blob_id, blob_identity, font_synthesis, synthesis_settings,
    synthesis_styling, variation_settings, FontSynthesis,
};
use crate::color_glyphs::{
    color_kinds, first_supported_color_kind, is_first_supported, ColorGlyphClassifier,
    ColorGlyphKind,
};
use crate::design::{are_design_variations, design_variations, DesignSpace, FontVariation};
use crate::face::{
    axes_location, axis_records, face_advance, face_axes, face_extent, face_glyph,
    face_has_table, face_location, face_metrics, face_parses, face_source, has_table,
    map_character, measure_advance, measure_extent, measure_face, parse_face, AxisRecord,
    FaceMetrics, GlyphExtent,
};
use crate::font::FontMetrics;
use crate::geometry::{Bounds, Point, Size};
use crate::scalar::{Arithmetic, Scalar};
use crate::text_system::{FontId, GlyphId};
use fontique::{Blob, Synthesis};
use skrifa::setting::VariationSetting;
use skrifa::FontRef;
use vstd::prelude::*;

verus! {

/// The bit that marks the identifiers of stored fonts: the highest.
pub const CANONICAL_FONT_ID_BIT: usize = usize::MAX / 2 + 1;

/// Why a face could not be used or stored.
#[derive(Clone, Copy, Debug, PartialEq, Eq, Structural)]
pub enum FaceError {
    /// The variation axes of the selected face cannot be inspected.
    VariationAxes,
    /// The color glyph data of the selected face cannot be inspected.
    ColorGlyphs,
    /// The stored font face cannot be parsed.
    StoredFace,
    /// A font face that cannot be parsed cannot be interned.
    InternedFace,
    /// The font store has given out all of its identifiers.
    Exhausted,
}

/// The immutable face and instance selected by shaping for a glyph.
#[derive(Clone, Copy)]
pub struct RasterFace<'a> {
    /// Canonical identity of the full face, variation, and synthesis combination.
    pub font_id: FontId,
    /// Stable identity shared by every face and instance backed by the same source bytes.
    pub source_id: u64,
    /// Owning handle for the original font or collection bytes.
    pub source: &'a Blob<u8>,
    /// Face index within a TTC or OTC collection.
    pub face_index: u32,
    /// Normalized variation coordinates in axis order, as 2.14 fixed-point numbers.
    pub normalized_coords: &'a [i16],
    /// Design-space variation coordinates.
    pub variations: &'a [FontVariation],
    /// Synthetic styling selected by the font lookup.
    pub synthesis: FontSynthesis,
    /// Whether the face advertises an OpenType color glyph table.
    pub has_color_glyphs: bool,
}

/// Whether one of the axes has the tag and the default value of a variation.
pub open spec fn is_axis_default(axes: Seq<AxisRecord>, variation: FontVariation) -> bool {
    exists|axis: int|
        0 <= axis < axes.len() && (#[trigger] axes[axis]).tag == variation.tag
            && axes[axis].default.equals(variation.value)
}

/// Whether every variation is at the default value of its axis.
pub open spec fn all_axis_defaults(axes: Seq<AxisRecord>, variations: Seq<FontVariation>) -> bool {
    forall|i: int| 0 <= i < variations.len() ==> is_axis_default(axes, #[trigger] variations[i])
}

/// Whether every variation is at the default value of its axis.
pub fn variations_are_default(axes: &Vec<AxisRecord>, variations: &[FontVariation]) -> (holds: bool)
    ensures
        holds == all_axis_defaults(axes@, variations@),
{
    let mut index: usize = 0;
    while index < variations.len()
        invariant
            index <= variations@.len(),
            forall|i: int| 0 <= i < index ==> is_axis_default(axes@, #[trigger] variations@[i]),
        decreases variations@.len() - index,
    {
        let variation: FontVariation = variations[index];
        let mut found: bool = false;
        let mut axis: usize = 0;
        while axis < axes.len() && !found
            invariant
                axis <= axes@.len(),
                found ==> is_axis_default(axes@, variation),
                !found ==> forall|i: int|
                    0 <= i < axis ==> !((#[trigger] axes@[i]).tag == variation.tag
                        && axes@[i].default.equals(variation.value)),
            decreases axes@.len() - axis, !found as int,
        {
            if axes[axis].tag == variation.tag && axes[axis].default == variation.value {
                found = true;
            } else {
                axis += 1;
            }
        }
        if !found {
            assert(!is_axis_default(axes@, variations@[index as int]));
            return false;
        }
        index += 1;
    }
    true
}

impl<'a> RasterFace<'a> {
    /// Returns the original font or collection bytes.
    pub fn data(&self) -> (data: &'a [u8])
        ensures
            data@ == blob_bytes(*self.source),
    {
        blob_data(self.source)
    }

    /// Returns whether every supplied variation coordinate uses its axis default.
    pub fn has_default_variations(&self) -> (result: Result<bool, FaceError>)
        ensures
            result == if face_parses(blob_bytes(*self.source), self.face_index) {
                Ok::<bool, FaceError>(
                    all_axis_defaults(
                        face_axes(blob_bytes(*self.source), self.face_index),
                        self.variations@,
                    ),
                )
            } else {
                Err::<bool, FaceError>(FaceError::VariationAxes)
            },
    {
        match parse_face(self.data(), self.face_index) {
            Some(font) => {
                let axes: Vec<AxisRecord> = axis_records(&font);
                Ok(variations_are_default(&axes, self.variations))
            },
            None => Err(FaceError::VariationAxes),
        }
    }

    /// Returns the preferred color artwork format supported by the rasterizer.
    pub fn supported_color_glyph_kind<F: Fn(ColorGlyphKind) -> bool>(
        &self,
        glyph_id: GlyphId,
        supports: F,
    ) -> (result: Result<Option<ColorGlyphKind>, FaceError>)
        requires
            forall|kind: ColorGlyphKind| #[trigger] supports.requires((kind,)),
        ensures
            match result {
                Ok(selected) => face_parses(blob_bytes(*self.source), self.face_index)
                    && is_first_supported(
                    color_kinds(blob_bytes(*self.source), self.face_index, glyph_id.0),
                    supports,
                    selected,
                ),
                Err(error) => !face_parses(blob_bytes(*self.source), self.face_index) && error
                    == FaceError::ColorGlyphs,
            },
    {
        match parse_face(self.data(), self.face_index) {
            Some(font) => {
                let kinds: Vec<ColorGlyphKind> = ColorGlyphClassifier::new(font).available_kinds(
                    glyph_id,
                );
                Ok(first_supported_color_kind(kinds.as_slice(), supports))
            },
            None => Err(FaceError::ColorGlyphs),
        }
    }
}

/// A concrete font face and variation instance.
pub struct LoadedFont {
    /// Immutable bytes containing the selected face.
    pub data: Blob<u8>,
    /// Face index within the font collection.
    pub index: u32,
    /// Normalized variation coordinates in axis order, as 2.14 fixed-point numbers.
    pub normalized_coords: Vec<i16>,
    /// Design-space coordinates for native font APIs.
    pub variations: Vec<FontVariation>,
    /// Synthetic styling requested for the selected face.
    pub synthesis: FontSynthesis,
    /// Whether this face advertises color glyph data.
    pub has_color_glyphs: bool,
    /// The identifier of `data`.
    pub source_identity: u64,
}

/// Full identity of a selected font instance.
pub struct FontKey {
    /// The identifier of the bytes.
    pub source_identity: u64,
    /// Face index within the font collection.
    pub face_index: u32,
    /// Normalized variation coordinates.
    pub normalized_coords: Seq<i16>,
    /// Whether the outline is made heavier.
    pub embolden: bool,
    /// The encoding of the skew, if there is one.
    pub skew_bits: Option<u32>,
}

/// The encoding of a skew, if there is one.
pub open spec fn skew_bits(synthesis: FontSynthesis) -> Option<u32> {
    match synthesis.skew_degrees {
        Some(degrees) => Some(degrees.bits),
        None => None,
    }
}

/// The identity of an instance of the face at `index` in `data`.
pub open spec fn instance_key(
    data: Blob<u8>,
    index: u32,
    coords: Seq<i16>,
    synthesis: FontSynthesis,
) -> FontKey {
    FontKey {
        source_identity: blob_id(data),
        face_index: index,
        normalized_coords: coords,
        embolden: synthesis.embolden,
        skew_bits: skew_bits(synthesis),
    }
}

/// Whether a face has one of the tables that hold color glyphs: `CBDT`, `sbix`, `COLR`, `SVG `.
pub open spec fn advertises_color(data: Seq<u8>, index: u32) -> bool {
    ||| face_has_table(data, index, seq![0x43u8, 0x42u8, 0x44u8, 0x54u8])
    ||| face_has_table(data, index, seq![0x73u8, 0x62u8, 0x69u8, 0x78u8])
    ||| face_has_table(data, index, seq![0x43u8, 0x4fu8, 0x4cu8, 0x52u8])
    ||| face_has_table(data, index, seq![0x53u8, 0x56u8, 0x47u8, 0x20u8])
}

/// Whether a face has one of the tables that hold color glyphs.
fn has_color_table(font: &FontRef<'_>) -> (present: bool)
    ensures
        present == advertises_color(face_source(*font).0, face_source(*font).1),
{
    proof {
        assert([0x43u8, 0x42u8, 0x44u8, 0x54u8]@ =~= seq![0x43u8, 0x42u8, 0x44u8, 0x54u8]);
        assert([0x73u8, 0x62u8, 0x69u8, 0x78u8]@ =~= seq![0x73u8, 0x62u8, 0x69u8, 0x78u8]);
        assert([0x43u8, 0x4fu8, 0x4cu8, 0x52u8]@ =~= seq![0x43u8, 0x4fu8, 0x4cu8, 0x52u8]);
        assert([0x53u8, 0x56u8, 0x47u8, 0x20u8]@ =~= seq![0x53u8, 0x56u8, 0x47u8, 0x20u8]);
    }
    has_table(font, &[0x43u8, 0x42u8, 0x44u8, 0x54u8]) || has_table(
        font,
        &[0x73u8, 0x62u8, 0x69u8, 0x78u8],
    ) || has_table(font, &[0x43u8, 0x4fu8, 0x4cu8, 0x52u8]) || has_table(
        font,
        &[0x53u8, 0x56u8, 0x47u8, 0x20u8],
    )
}

/// The measurements of a font: depths below the baseline are positive, heights that the face
/// does not tell are the ascent, other lengths that it does not tell are zero.
pub open spec fn are_font_metrics<A: Arithmetic>(
    arithmetic: &A,
    face: FaceMetrics,
    metrics: FontMetrics,
) -> bool {
    &&& metrics.units_per_em == face.units_per_em
    &&& metrics.ascent == encoded(face.ascent)
    &&& metrics.descent == encoded(face.descent).negated()
    &&& metrics.line_gap == encoded(face.leading)
    &&& metrics.underline_position == told_or(face.underline_offset, 0)
    &&& metrics.underline_thickness == told_or(face.underline_thickness, 0)
    &&& metrics.cap_height == told_or(face.cap_height, face.ascent)
    &&& metrics.x_height == told_or(face.x_height, face.ascent)
    &&& metrics.bounding_box.origin == (Point { x: Scalar { bits: 0 }, y: Scalar { bits: 0 } })
    &&& metrics.bounding_box.size.width == told_or(face.max_width, 0)
    &&& call_ensures(
        A::difference,
        (arithmetic, encoded(face.ascent), encoded(face.descent)),
        metrics.bounding_box.size.height,
    )
}

/// The number with an encoding.
pub open spec fn encoded(bits: u32) -> Scalar {
    Scalar { bits }
}

/// A length that the face may tell, or what stands for it.
pub open spec fn told_or(told: Option<u32>, otherwise: u32) -> Scalar {
    match told {
        Some(told) => encoded(told),
        None => encoded(otherwise),
    }
}

/// A length that the face may tell, or what stands for it.
fn take_or(told: Option<u32>, otherwise: u32) -> (length: Scalar)
    ensures
        length == told_or(told, otherwise),
{
    match told {
        Some(told) => Scalar { bits: told },
        None => Scalar { bits: otherwise },
    }
}

/// Turns what a face tells of its measurements into those of a font.
pub fn font_metrics_from<A: Arithmetic>(face: FaceMetrics, arithmetic: &A) -> (metrics: FontMetrics)
    ensures
        are_font_metrics(arithmetic, face, metrics),
{
    let ascent = Scalar { bits: face.ascent };
    let descent = Scalar { bits: face.descent };
    FontMetrics {
        units_per_em: face.units_per_em as u32,
        ascent,
        descent: descent.negate(),
        line_gap: Scalar { bits: face.leading },
        underline_position: take_or(face.underline_offset, 0),
        underline_thickness: take_or(face.underline_thickness, 0),
        cap_height: take_or(face.cap_height, face.ascent),
        x_height: take_or(face.x_height, face.ascent),
        bounding_box: Bounds {
            origin: Point { x: Scalar::zero(), y: Scalar::zero() },
            size: Size {
                width: take_or(face.max_width, 0),
                height: arithmetic.difference(ascent, descent),
            },
        },
    }
}

/// The bounds of a glyph: its extent as an origin and a size, or nothing at the origin.
pub open spec fn are_glyph_bounds<A: Arithmetic>(
    arithmetic: &A,
    extent: Option<GlyphExtent>,
    bounds: Bounds<Scalar>,
) -> bool {
    match extent {
        None => bounds == (Bounds {
            origin: Point { x: Scalar { bits: 0 }, y: Scalar { bits: 0 } },
            size: Size { width: Scalar { bits: 0 }, height: Scalar { bits: 0 } },
        }),
        Some(extent) => {
            &&& bounds.origin == (Point { x: extent.x_min, y: extent.y_min })
            &&& call_ensures(
                A::difference,
                (arithmetic, extent.x_max, extent.x_min),
                bounds.size.width,
            )
            &&& call_ensures(
                A::difference,
                (arithmetic, extent.y_max, extent.y_min),
                bounds.size.height,
            )
        },
    }
}

/// Turns the extent of a glyph into its bounds.
pub fn glyph_bounds_from<A: Arithmetic>(extent: Option<GlyphExtent>, arithmetic: &A) -> (bounds:
    Bounds<Scalar>)
    ensures
        are_glyph_bounds(arithmetic, extent, bounds),
{
    match extent {
        None => Bounds {
            origin: Point { x: Scalar::zero(), y: Scalar::zero() },
            size: Size { width: Scalar::zero(), height: Scalar::zero() },
        },
        Some(extent) => Bounds {
            origin: Point { x: extent.x_min, y: extent.y_min },
            size: Size {
                width: arithmetic.difference(extent.x_max, extent.x_min),
                height: arithmetic.difference(extent.y_max, extent.y_min),
            },
        },
    }
}

impl LoadedFont {
    /// The font's full identity.
    pub open spec fn key(&self) -> FontKey {
        FontKey {
            source_identity: self.source_identity,
            face_index: self.index,
            normalized_coords: self.normalized_coords@,
            embolden: self.synthesis.embolden,
            skew_bits: skew_bits(self.synthesis),
        }
    }

    /// Whether the font's bytes hold its face.
    pub open spec fn parses(&self) -> bool {
        face_parses(blob_bytes(self.data), self.index)
    }

    fn skrifa_ref(&self) -> (parsed: Result<FontRef<'_>, FaceError>)
        ensures
            match parsed {
                Ok(font) => self.parses() && face_source(font) == (
                    blob_bytes(self.data),
                    self.index,
                ),
                Err(error) => !self.parses() && error == FaceError::StoredFace,
            },
    {
        match parse_face(blob_data(&self.data), self.index) {
            Some(font) => Ok(font),
            None => Err(FaceError::StoredFace),
        }
    }

    /// Builds a glyph-level view of the face's color artwork.
    pub fn color_glyphs(&self) -> (classifier: Result<ColorGlyphClassifier<'_>, FaceError>)
        ensures
            match classifier {
                Ok(classifier) => self.parses() && classifier.well_formed() && classifier.source()
                    == (blob_bytes(self.data), self.index),
                Err(error) => !self.parses() && error == FaceError::StoredFace,
            },
    {
        match self.skrifa_ref() {
            Ok(font) => Ok(ColorGlyphClassifier::new(font)),
            Err(error) => Err(error),
        }
    }

    /// Reads global metrics in font units from the canonical bytes.
    pub fn metrics<A: Arithmetic>(&self, arithmetic: &A) -> (metrics: Result<
        FontMetrics,
        FaceError,
    >)
        ensures
            match metrics {
                Ok(metrics) => self.parses() && are_font_metrics(
                    arithmetic,
                    face_metrics(blob_bytes(self.data), self.index, self.normalized_coords@),
                    metrics,
                ),
                Err(error) => !self.parses() && error == FaceError::StoredFace,
            },
    {
        match self.skrifa_ref() {
            Ok(font) => Ok(
                font_metrics_from(
                    measure_face(&font, self.normalized_coords.as_slice()),
                    arithmetic,
                ),
            ),
            Err(error) => Err(error),
        }
    }

    /// Maps a Unicode scalar to a nominal glyph using the canonical bytes.
    pub fn glyph_for_char(&self, character: char) -> (glyph: Result<Option<GlyphId>, FaceError>)
        ensures
            match glyph {
                Ok(glyph) => self.parses() && glyph == match face_glyph(
                    blob_bytes(self.data),
                    self.index,
                    character,
                ) {
                    Some(glyph) => Some(GlyphId(glyph)),
                    None => None,
                },
                Err(error) => !self.parses() && error == FaceError::StoredFace,
            },
    {
        match self.skrifa_ref() {
            Ok(font) => match map_character(&font, character) {
                Some(glyph) => Ok(Some(GlyphId(glyph))),
                None => Ok(None),
            },
            Err(error) => Err(error),
        }
    }

    /// Returns the unscaled advance for a glyph: zero where the face does not tell.
    pub fn advance(&self, glyph_id: GlyphId) -> (advance: Result<Size<Scalar>, FaceError>)
        ensures
            match advance {
                Ok(advance) => self.parses() && advance == (Size {
                    width: told_or(
                        face_advance(
                            blob_bytes(self.data),
                            self.index,
                            self.normalized_coords@,
                            glyph_id.0,
                        ),
                        0,
                    ),
                    height: Scalar { bits: 0 },
                }),
                Err(error) => !self.parses() && error == FaceError::StoredFace,
            },
    {
        match self.skrifa_ref() {
            Ok(font) => Ok(
                Size {
                    width: take_or(
                        measure_advance(&font, self.normalized_coords.as_slice(), glyph_id.0),
                        0,
                    ),
                    height: Scalar::zero(),
                },
            ),
            Err(error) => Err(error),
        }
    }

    /// The face and instance that a rasterizer needs to draw this font's glyphs.
    pub fn raster_face(&self, font_id: FontId) -> (face: RasterFace<'_>)
        ensures
            face.font_id == font_id,
            face.source_id == self.source_identity,
            *face.source == self.data,
            face.face_index == self.index,
            face.normalized_coords@ == self.normalized_coords@,
            face.variations@ == self.variations@,
            face.synthesis == self.synthesis,
            face.has_color_glyphs == self.has_color_glyphs,
    {
        RasterFace {
            font_id,
            source_id: self.source_identity,
            source: &self.data,
            face_index: self.index,
            normalized_coords: self.normalized_coords.as_slice(),
            variations: self.variations.as_slice(),
            synthesis: self.synthesis,
            has_color_glyphs: self.has_color_glyphs,
        }
    }

    /// The identifier of the bytes that the font is in.
    pub fn data_identity(&self) -> (identity: u64)
        ensures
            identity == self.source_identity,
    {
        self.source_identity
    }

    /// Returns the glyph's control bounds in font units.
    pub fn glyph_bounds<A: Arithmetic>(&self, glyph_id: GlyphId, arithmetic: &A) -> (bounds: Result<
        Bounds<Scalar>,
        FaceError,
    >)
        ensures
            match bounds {
                Ok(bounds) => self.parses() && are_glyph_bounds(
                    arithmetic,
                    face_extent(
                        blob_bytes(self.data),
                        self.index,
                        self.normalized_coords@,
                        glyph_id.0,
                    ),
                    bounds,
                ),
                Err(error) => !self.parses() && error == FaceError::StoredFace,
            },
    {
        match self.skrifa_ref() {
            Ok(font) => Ok(
                glyph_bounds_from(
                    measure_extent(&font, self.normalized_coords.as_slice(), glyph_id.0),
                    arithmetic,
                ),
            ),
            Err(error) => Err(error),
        }
    }
}

/// Canonical storage for concrete font faces and variation instances.
pub struct FontStore {
    fonts: Vec<LoadedFont>,
}

/// The position of a stored font, if the identifier is that of one.
pub open spec fn stored_position(font_id: FontId) -> Option<int> {
    if font_id.0 >= CANONICAL_FONT_ID_BIT {
        Some(font_id.0 - CANONICAL_FONT_ID_BIT)
    } else {
        None
    }
}

/// The stored font with an identifier, if there is one.
pub open spec fn stored_font(fonts: Seq<LoadedFont>, font_id: FontId) -> Option<LoadedFont> {
    match stored_position(font_id) {
        Some(position) if position < fonts.len() => Some(fonts[position]),
        _ => None,
    }
}

/// Whether `position` is that of the stored font with a key.
pub open spec fn key_is_at(fonts: Seq<LoadedFont>, key: FontKey, position: int) -> bool {
    0 <= position < fonts.len() && fonts[position].key() == key
}

/// Every font has an identifier, no two fonts are the same instance, each carries the identifier
/// of its bytes, and the faces of all can be parsed.
pub open spec fn fonts_well_formed(fonts: Seq<LoadedFont>) -> bool {
    &&& fonts.len() <= CANONICAL_FONT_ID_BIT
    &&& forall|i: int, j: int|
        0 <= i < j < fonts.len() ==> (#[trigger] fonts[i]).key() != (#[trigger] fonts[j]).key()
    &&& forall|i: int|
        0 <= i < fonts.len() ==> (#[trigger] fonts[i]).source_identity == blob_id(fonts[i].data)
            && fonts[i].parses()
}

/// `font` is the instance of the face at `index` in `data` with these coordinates and styling.
pub open spec fn is_instance<D: DesignSpace>(
    design: &D,
    font: LoadedFont,
    data: Blob<u8>,
    index: u32,
    coords: Seq<i16>,
    styling: FontSynthesis,
) -> bool {
    &&& font.data == data
    &&& font.index == index
    &&& font.normalized_coords@ == coords
    &&& font.synthesis == styling
    &&& font.source_identity == blob_id(data)
    &&& font.has_color_glyphs == advertises_color(blob_bytes(data), index)
    &&& are_design_variations(design, (blob_bytes(data), index), coords, font.variations@)
}

/// `after` and `result` are what interning an instance makes of `before` and returns. An
/// instance that is stored keeps its identifier; another gets the next one.
pub open spec fn interned<D: DesignSpace>(
    design: &D,
    before: Seq<LoadedFont>,
    data: Blob<u8>,
    index: u32,
    coords: Seq<i16>,
    styling: FontSynthesis,
    after: Seq<LoadedFont>,
    result: Result<FontId, FaceError>,
) -> bool {
    let key = instance_key(data, index, coords, styling);
    if !face_parses(blob_bytes(data), index) {
        after == before && result == Err::<FontId, FaceError>(FaceError::InternedFace)
    } else if exists|position: int| #[trigger] key_is_at(before, key, position) {
        &&& after == before
        &&& result matches Ok(font_id)
        &&& exists|position: int| #[trigger]
            key_is_at(before, key, position) && stored_position(font_id) == Some(position)
    } else if before.len() >= CANONICAL_FONT_ID_BIT {
        after == before && result == Err::<FontId, FaceError>(FaceError::Exhausted)
    } else {
        &&& result matches Ok(font_id)
        &&& stored_position(font_id) == Some(before.len() as int)
        &&& after.len() == before.len() + 1
        &&& after.drop_last() == before
        &&& is_instance(design, after.last(), data, index, coords, styling)
    }
}

/// Whether variations are those of an instance.
#[verifier::opaque]
spec fn are_instance_variations<D: DesignSpace>(
    design: &D,
    data: Blob<u8>,
    index: u32,
    coords: Seq<i16>,
    variations: Seq<FontVariation>,
) -> bool {
    are_design_variations(design, (blob_bytes(data), index), coords, variations)
}

/// The variations of an instance of the face at `index` in `data`.
fn instance_variations<D: DesignSpace>(
    font: &FontRef<'_>,
    data: &Blob<u8>,
    index: u32,
    coords: &[i16],
    design: &D,
) -> (variations: Vec<FontVariation>)
    requires
        face_source(*font) == (blob_bytes(*data), index),
    ensures
        are_instance_variations(design, *data, index, coords@, variations@),
{
    let variations: Vec<FontVariation> = design_variations(font, coords, design);
    assert(are_instance_variations(design, *data, index, coords@, variations@)) by {
        reveal(are_instance_variations);
    }
    variations
}

/// An instance that is stored is interned under its identifier.
#[verifier::spinoff_prover]
proof fn lemma_interned_again<D: DesignSpace>(
    design: &D,
    fonts: Seq<LoadedFont>,
    data: Blob<u8>,
    index: u32,
    coords: Seq<i16>,
    styling: FontSynthesis,
    position: int,
    font_id: FontId,
)
    requires
        face_parses(blob_bytes(data), index),
        key_is_at(fonts, instance_key(data, index, coords, styling), position),
        stored_position(font_id) == Some(position),
    ensures
        interned(
            design,
            fonts,
            data,
            index,
            coords,
            styling,
            fonts,
            Ok::<FontId, FaceError>(font_id),
        ),
{
}

/// An instance of a face that cannot be parsed is refused, and so is one for which there is no
/// identifier.
#[verifier::spinoff_prover]
proof fn lemma_not_interned<D: DesignSpace>(
    design: &D,
    fonts: Seq<LoadedFont>,
    data: Blob<u8>,
    index: u32,
    coords: Seq<i16>,
    styling: FontSynthesis,
    error: FaceError,
)
    requires
        ({
            ||| !face_parses(blob_bytes(data), index) && error == FaceError::InternedFace
            ||| {
                &&& face_parses(blob_bytes(data), index)
                &&& forall|position: int|
                    !#[trigger] key_is_at(
                        fonts,
                        instance_key(data, index, coords, styling),
                        position,
                    )
                &&& fonts.len() >= CANONICAL_FONT_ID_BIT
                &&& error == FaceError::Exhausted
            }
        }),
    ensures
        interned(
            design,
            fonts,
            data,
            index,
            coords,
            styling,
            fonts,
            Err::<FontId, FaceError>(error),
        ),
{
}

/// An instance that is stored behind the others is interned under the next identifier.
#[verifier::spinoff_prover]
#[verifier::rlimit(40)]
proof fn lemma_interned_anew<D: DesignSpace>(
    design: &D,
    before: Seq<LoadedFont>,
    data: Blob<u8>,
    index: u32,
    coords: Seq<i16>,
    styling: FontSynthesis,
    after: Seq<LoadedFont>,
    font_id: FontId,
)
    requires
        face_parses(blob_bytes(data), index),
        forall|position: int|
            !#[trigger] key_is_at(
                before,
                instance_key(data, index, coords, styling),
                position,
            ),
        before.len() < CANONICAL_FONT_ID_BIT,
        stored_position(font_id) == Some(before.len() as int),
        after.len() == before.len() + 1,
        after.drop_last() == before,
        after.last().data == data,
        after.last().index == index,
        after.last().normalized_coords@ == coords,
        after.last().synthesis == styling,
        after.last().source_identity == blob_id(data),
        after.last().has_color_glyphs == advertises_color(blob_bytes(data), index),
        are_instance_variations(design, data, index, coords, after.last().variations@),
    ensures
        interned(
            design,
            before,
            data,
            index,
            coords,
            styling,
            after,
            Ok::<FontId, FaceError>(font_id),
        ),
{
    assert(is_instance(design, after.last(), data, index, coords, styling)) by {
        reveal(are_instance_variations);
    }
}

/// Fonts are well formed with another one that is, if it is an instance of its own.
proof fn lemma_another_font_keeps_fonts_well_formed(before: Seq<LoadedFont>, font: LoadedFont)
    requires
        fonts_well_formed(before),
        before.len() < CANONICAL_FONT_ID_BIT,
        forall|position: int| !#[trigger] key_is_at(before, font.key(), position),
        font.source_identity == blob_id(font.data),
        font.parses(),
    ensures
        fonts_well_formed(before.push(font)),
{
    let after = before.push(font);
    assert forall|i: int, j: int| 0 <= i < j < after.len() implies (#[trigger] after[i]).key() != (
    #[trigger] after[j]).key() by {
        assert(!key_is_at(before, font.key(), i));
    }
}

/// The index of a stored font, if the identifier is that of one.
pub fn canonical_index(font_id: FontId) -> (index: Option<usize>)
    ensures
        match index {
            Some(index) => stored_position(font_id) == Some(index as int),
            None => stored_position(font_id) is None,
        },
{
    if font_id.0 >= CANONICAL_FONT_ID_BIT {
        Some(font_id.0 - CANONICAL_FONT_ID_BIT)
    } else {
        None
    }
}

/// Whether two lists of coordinates are the same.
fn same_coords(left: &[i16], right: &[i16]) -> (same: bool)
    ensures
        same == (left@ == right@),
{
    if left.len() != right.len() {
        return false;
    }
    let mut index: usize = 0;
    while index < left.len()
        invariant
            left@.len() == right@.len(),
            index <= left@.len(),
            forall|i: int| 0 <= i < index ==> left@[i] == right@[i],
        decreases left@.len() - index,
    {
        if left[index] != right[index] {
            return false;
        }
        index += 1;
    }
    assert(left@ =~= right@);
    true
}

impl Default for FontStore {
    fn default() -> (store: FontStore)
        ensures
            store.fonts().len() == 0,
            store.well_formed(),
    {
        FontStore { fonts: Vec::new() }
    }
}

impl FontStore {
    /// The stored fonts, the oldest first.
    pub closed spec fn fonts(&self) -> Seq<LoadedFont> {
        self.fonts@
    }

    /// No two fonts are the same instance, and each is what its key says.
    pub open spec fn well_formed(&self) -> bool {
        fonts_well_formed(self.fonts())
    }

    /// The position of the stored instance with these properties.
    fn position_of(
        &self,
        source_identity: u64,
        face_index: u32,
        normalized_coords: &[i16],
        synthesis: FontSynthesis,
    ) -> (position: Option<usize>)
        ensures
            ({
                let key = FontKey {
                    source_identity,
                    face_index,
                    normalized_coords: normalized_coords@,
                    embolden: synthesis.embolden,
                    skew_bits: skew_bits(synthesis),
                };
                match position {
                    Some(position) => key_is_at(self.fonts(), key, position as int),
                    None => forall|other: int| !#[trigger] key_is_at(self.fonts(), key, other),
                }
            }),
    {
        let ghost key = FontKey {
            source_identity,
            face_index,
            normalized_coords: normalized_coords@,
            embolden: synthesis.embolden,
            skew_bits: skew_bits(synthesis),
        };
        let mut position: usize = 0;
        while position < self.fonts.len()
            invariant
                position <= self.fonts@.len(),
                key == (FontKey {
                    source_identity,
                    face_index,
                    normalized_coords: normalized_coords@,
                    embolden: synthesis.embolden,
                    skew_bits: skew_bits(synthesis),
                }),
                forall|i: int| 0 <= i < position ==> (#[trigger] self.fonts@[i]).key() != key,
            decreases self.fonts@.len() - position,
        {
            let font: &LoadedFont = &self.fonts[position];
            let same_skew: bool = match (font.synthesis.skew_degrees, synthesis.skew_degrees) {
                (None, None) => true,
                (Some(left), Some(right)) => left.bits == right.bits,
                _ => false,
            };
            if font.source_identity == source_identity && font.index == face_index
                && font.synthesis.embolden == synthesis.embolden && same_skew && same_coords(
                font.normalized_coords.as_slice(),
                normalized_coords,
            ) {
                return Some(position);
            }
            position += 1;
        }
        None
    }

    /// Interns a face using the variation and synthesis settings of a font lookup.
    pub fn intern_synthesized<D: DesignSpace>(
        &mut self,
        data: Blob<u8>,
        idx: u32,
        synthesis: Synthesis,
        design: &D,
    ) -> (result: Result<FontId, FaceError>)
        requires
            old(self).well_formed(),
        ensures
            interned(
                design,
                old(self).fonts(),
                data,
                idx,
                face_location(blob_bytes(data), idx, synthesis_settings(synthesis)),
                synthesis_styling(synthesis),
                final(self).fonts(),
                result,
            ),
            final(self).well_formed(),
    {
        let normalized_coords: Vec<i16> = match parse_face(blob_data(&data), idx) {
            Some(font) => {
                let settings: Vec<VariationSetting> = variation_settings(&synthesis);
                axes_location(&font, &settings)
            },
            None => {
                proof {
                    lemma_not_interned(
                        design,
                        self.fonts(),
                        data,
                        idx,
                        face_location(blob_bytes(data), idx, synthesis_settings(synthesis)),
                        synthesis_styling(synthesis),
                        FaceError::InternedFace,
                    );
                }
                return Err(FaceError::InternedFace);
            },
        };
        self.intern(data, idx, normalized_coords.as_slice(), synthesis, design)
    }

    /// Stores an instance that is not stored behind the others.
    #[verifier::spinoff_prover]
    fn intern_anew<D: DesignSpace>(
        &mut self,
        data: Blob<u8>,
        idx: u32,
        normalized_coords: &[i16],
        variations: Vec<FontVariation>,
        styling: FontSynthesis,
        has_color_glyphs: bool,
        source_identity: u64,
        design: &D,
    ) -> (font_id: FontId)
        requires
            old(self).well_formed(),
            old(self).fonts().len() < CANONICAL_FONT_ID_BIT,
            source_identity == blob_id(data),
            has_color_glyphs == advertises_color(blob_bytes(data), idx),
            face_parses(blob_bytes(data), idx),
            are_instance_variations(design, data, idx, normalized_coords@, variations@),
            forall|position: int|
                !#[trigger] key_is_at(
                    old(self).fonts(),
                    instance_key(data, idx, normalized_coords@, styling),
                    position,
                ),
        ensures
            interned(
                design,
                old(self).fonts(),
                data,
                idx,
                normalized_coords@,
                styling,
                final(self).fonts(),
                Ok::<FontId, FaceError>(font_id),
            ),
            final(self).well_formed(),
    {
        let font_id: FontId = FontId(CANONICAL_FONT_ID_BIT + self.fonts.len());
        let mut coords: Vec<i16> = Vec::new();
        coords.extend_from_slice(normalized_coords);
        assert(coords@ =~= normalized_coords@);
        let loaded = LoadedFont {
            data,
            index: idx,
            normalized_coords: coords,
            variations,
            synthesis: styling,
            has_color_glyphs,
            source_identity,
        };
        self.fonts.push(loaded);
        proof {
            assert(self.fonts().drop_last() =~= old(self).fonts());
            assert(loaded.key() == instance_key(data, idx, normalized_coords@, styling));
            lemma_another_font_keeps_fonts_well_formed(old(self).fonts(), loaded);
            lemma_interned_anew(
                design,
                old(self).fonts(),
                data,
                idx,
                normalized_coords@,
                styling,
                self.fonts(),
                font_id,
            );
        }
        font_id
    }

    /// Interns a selected font instance and returns its canonical GPUI ID.
    #[verifier::spinoff_prover]
    #[verifier::rlimit(50)]
    pub fn intern<D: DesignSpace>(
        &mut self,
        data: Blob<u8>,
        idx: u32,
        normalized_coords: &[i16],
        synthesis: Synthesis,
        design: &D,
    ) -> (result: Result<FontId, FaceError>)
        requires
            old(self).well_formed(),
        ensures
            interned(
                design,
                old(self).fonts(),
                data,
                idx,
                normalized_coords@,
                synthesis_styling(synthesis),
                final(self).fonts(),
                result,
            ),
            final(self).well_formed(),
    {
        let font: FontRef<'_> = match parse_face(blob_data(&data), idx) {
            Some(font) => font,
            None => {
                proof {
                    lemma_not_interned(
                        design,
                        self.fonts(),
                        data,
                        idx,
                        normalized_coords@,
                        synthesis_styling(synthesis),
                        FaceError::InternedFace,
                    );
                }
                return Err(FaceError::InternedFace);
            },
        };
        let source_identity: u64 = blob_identity(&data);
        let styling: FontSynthesis = font_synthesis(&synthesis);
        if let Some(position) = self.position_of(source_identity, idx, normalized_coords, styling) {
            let font_id: FontId = FontId(CANONICAL_FONT_ID_BIT + position);
            proof {
                lemma_interned_again(
                    design,
                    self.fonts(),
                    data,
                    idx,
                    normalized_coords@,
                    styling,
                    position as int,
                    font_id,
                );
            }
            return Ok(font_id);
        }
        if self.fonts.len() >= CANONICAL_FONT_ID_BIT {
            proof {
                lemma_not_interned(
                    design,
                    self.fonts(),
                    data,
                    idx,
                    normalized_coords@,
                    styling,
                    FaceError::Exhausted,
                );
            }
            return Err(FaceError::Exhausted);
        }
        let variations: Vec<FontVariation> = instance_variations(
            &font,
            &data,
            idx,
            normalized_coords,
            design,
        );
        let has_color_glyphs: bool = has_color_table(&font);
        let font_id: FontId = self.intern_anew(
            data,
            idx,
            normalized_coords,
            variations,
            styling,
            has_color_glyphs,
            source_identity,
            design,
        );
        Ok(font_id)
    }

    /// Returns the stored font for a canonical ID.
    pub fn get(&self, font_id: FontId) -> (font: Option<&LoadedFont>)
        ensures
            match font {
                Some(font) => stored_font(self.fonts(), font_id) == Some(*font),
                None => stored_font(self.fonts(), font_id) is None,
            },
    {
        match canonical_index(font_id) {
            Some(index) if index < self.fonts.len() => Some(&self.fonts[index]),
            _ => None,
        }
    }
}

/// Interning an instance gives the identifier under which that instance is stored.
pub proof fn law_interned_fonts_can_be_got<D: DesignSpace>(
    design: &D,
    before: Seq<LoadedFont>,
    data: Blob<u8>,
    index: u32,
    coords: Seq<i16>,
    styling: FontSynthesis,
    after: Seq<LoadedFont>,
    font_id: FontId,
)
    requires
        interned(
            design,
            before,
            data,
            index,
            coords,
            styling,
            after,
            Ok::<FontId, FaceError>(font_id),
        ),
    ensures
        stored_font(after, font_id) matches Some(font) && font.key() == instance_key(
            data,
            index,
            coords,
            styling,
        ),
{
}

/// Interning keeps the fonts that are stored, in their places.
pub proof fn law_interning_keeps_fonts<D: DesignSpace>(
    design: &D,
    before: Seq<LoadedFont>,
    data: Blob<u8>,
    index: u32,
    coords: Seq<i16>,
    styling: FontSynthesis,
    after: Seq<LoadedFont>,
    result: Result<FontId, FaceError>,
)
    requires
        interned(design, before, data, index, coords, styling, after, result),
    ensures
        before.is_prefix_of(after),
{
    if after.len() > before.len() {
        assert(after.subrange(0, before.len() as int) =~= after.drop_last());
    } else {
        assert(after.subrange(0, before.len() as int) =~= after);
    }
}

/// Interning keeps every font that is stored under its identifier.
pub proof fn law_identifiers_are_stable<D: DesignSpace>(
    design: &D,
    before: Seq<LoadedFont>,
    data: Blob<u8>,
    index: u32,
    coords: Seq<i16>,
    styling: FontSynthesis,
    after: Seq<LoadedFont>,
    result: Result<FontId, FaceError>,
    other: FontId,
)
    requires
        interned(design, before, data, index, coords, styling, after, result),
        stored_font(before, other) is Some,
    ensures
        stored_font(after, other) == stored_font(before, other),
{
    if after.len() > before.len() {
        let position = stored_position(other)->0;
        assert(after.drop_last()[position] == after[position]);
    }
}

/// Interning two instances gives one identifier exactly if they are the same: same bytes by
/// identifier, same face, same coordinates, same styling.
///
/// Any others may be interned in between: `between` are the fonts behind the first interning, and
/// `later`, which starts with them, those before the second.
pub proof fn law_interning_tells_instances_apart<D: DesignSpace>(
    design: &D,
    before: Seq<LoadedFont>,
    data: Blob<u8>,
    index: u32,
    coords: Seq<i16>,
    styling: FontSynthesis,
    between: Seq<LoadedFont>,
    font_id: FontId,
    later: Seq<LoadedFont>,
    other_data: Blob<u8>,
    other_index: u32,
    other_coords: Seq<i16>,
    other_styling: FontSynthesis,
    after: Seq<LoadedFont>,
    other_id: FontId,
)
    requires
        fonts_well_formed(after),
        between.is_prefix_of(later),
        interned(
            design,
            before,
            data,
            index,
            coords,
            styling,
            between,
            Ok::<FontId, FaceError>(font_id),
        ),
        interned(
            design,
            later,
            other_data,
            other_index,
            other_coords,
            other_styling,
            after,
            Ok::<FontId, FaceError>(other_id),
        ),
    ensures
        font_id == other_id <==> instance_key(data, index, coords, styling) == instance_key(
            other_data,
            other_index,
            other_coords,
            other_styling,
        ),
{
    law_interned_fonts_can_be_got(design, before, data, index, coords, styling, between, font_id);
    law_interned_fonts_can_be_got(
        design,
        later,
        other_data,
        other_index,
        other_coords,
        other_styling,
        after,
        other_id,
    );
    assert(stored_font(later, font_id) == stored_font(between, font_id)) by {
        let position = stored_position(font_id)->0;
        assert(later.subrange(0, between.len() as int)[position] == later[position]);
    }
    law_identifiers_are_stable(
        design,
        later,
        other_data,
        other_index,
        other_coords,
        other_styling,
        after,
        Ok::<FontId, FaceError>(other_id),
        font_id,
    );
    let first = stored_position(font_id)->0;
    let second = stored_position(other_id)->0;
    if first != second {
        let (early, late) = if first < second {
            (first, second)
        } else {
            (second, first)
        };
        assert(after[early].key() != after[late].key());
    }
}

} // verus!
