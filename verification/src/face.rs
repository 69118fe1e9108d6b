//! Reading one face out of font bytes, through `skrifa`.
//!
//! What is read is a function of the bytes, the face's index and what is asked. Each such
//! function has a name here, and the calls behind the names are the only ones into `skrifa`.

use crate::bitmap_location::cut_off;
use crate::blob::settings_parts;
use crate::scalar::Scalar;
use crate::sfnt::{be32, is_font_version, COLLECTION_TAG};
use skrifa::bitmap::{BitmapFormat, BitmapStrikes};
use skrifa::color::ColorGlyphFormat;
use skrifa::instance::{LocationRef, NormalizedCoord, Size as SkrifaSize};
use skrifa::raw::tables::sbix::Sbix;
use skrifa::raw::TableProvider;
use skrifa::setting::VariationSetting;
use skrifa::{FontRef, MetadataProvider, Tag};
use vstd::prelude::*;

verus! {

/// A face of a font, from `skrifa`.
#[verifier::external_type_specification]
#[verifier::external_body]
pub struct ExFontRef<'a>(skrifa::FontRef<'a>);

/// A table of bitmap strikes, from `skrifa`.
#[verifier::external_type_specification]
#[verifier::external_body]
pub struct ExSbix<'a>(skrifa::raw::tables::sbix::Sbix<'a>);

/// The bitmap strikes of a font, from `skrifa`.
#[verifier::external_type_specification]
#[verifier::external_body]
pub struct ExBitmapStrikes<'a>(skrifa::bitmap::BitmapStrikes<'a>);

/// One variation axis of a face.
#[derive(Clone, Copy, Debug)]
pub struct AxisRecord {
    /// The axis tag, as a big-endian number.
    pub tag: u32,
    /// The smallest design-space value.
    pub minimum: Scalar,
    /// The design-space value of an unvaried face.
    pub default: Scalar,
    /// The largest design-space value.
    pub maximum: Scalar,
}

/// The measurements of a face, in font units. Lengths are held by their encodings.
#[derive(Clone, Copy, Debug)]
pub struct FaceMetrics {
    /// The number of font units per em.
    pub units_per_em: u16,
    /// The distance from the baseline to the top of the alignment box.
    pub ascent: u32,
    /// The distance from the baseline to the bottom of the alignment box, negative below.
    pub descent: u32,
    /// The recommended additional space between lines.
    pub leading: u32,
    /// The offset of the underline from the baseline.
    pub underline_offset: Option<u32>,
    /// The thickness of the underline.
    pub underline_thickness: Option<u32>,
    /// The height of capitals.
    pub cap_height: Option<u32>,
    /// The height of a lowercase x.
    pub x_height: Option<u32>,
    /// The largest advance.
    pub max_width: Option<u32>,
}

/// The extent of a glyph, in font units.
#[derive(Clone, Copy, Debug)]
pub struct GlyphExtent {
    /// The left edge.
    pub x_min: Scalar,
    /// The bottom edge.
    pub y_min: Scalar,
    /// The right edge.
    pub x_max: Scalar,
    /// The top edge.
    pub y_max: Scalar,
}

/// The formats of color outlines.
#[derive(Clone, Copy, Debug, PartialEq, Eq, Structural)]
pub enum ColorOutline {
    /// Layers of single colors.
    V0,
    /// A paint graph.
    V1,
}

/// The bytes and the index that a face was read from.
pub uninterp spec fn face_source(font: FontRef) -> (Seq<u8>, u32);

/// Whether bytes hold the fixed part of a table directory at `at`.
pub open spec fn is_directory_at(data: Seq<u8>, at: int) -> bool {
    at + 12 <= data.len() && is_font_version(be32(data, at))
}

/// Whether the bytes hold a face with this index that can be read: a directory at their start, or
/// one where the header of a collection says, if the bytes hold all that the header lists.
pub open spec fn face_parses(data: Seq<u8>, index: u32) -> bool {
    if data.len() >= 12 && be32(data, 0) == COLLECTION_TAG {
        let count = be32(data, 8);
        &&& 12 + 4 * count <= data.len()
        &&& index < count
        &&& is_directory_at(data, be32(data, 12 + 4 * index))
    } else {
        index == 0 && is_directory_at(data, 0)
    }
}

/// The variation axes of a face, in order.
pub uninterp spec fn face_axes(data: Seq<u8>, index: u32) -> Seq<AxisRecord>;

/// The normalized coordinates that variation settings stand for, as 2.14 fixed-point numbers in
/// axis order.
pub uninterp spec fn face_location(data: Seq<u8>, index: u32, settings: Seq<(u32, u32)>) -> Seq<
    i16,
>;

/// The bytes of a face's table, if it has one with this tag.
pub uninterp spec fn face_table_bytes(data: Seq<u8>, index: u32, tag: Seq<u8>) -> Option<Seq<u8>>;

/// Whether a face has a table.
pub open spec fn face_has_table(data: Seq<u8>, index: u32, tag: Seq<u8>) -> bool {
    face_table_bytes(data, index, tag) is Some
}

/// The tag of the table that tells where the bitmaps of a face are.
pub open spec fn location_tag() -> Seq<u8> {
    seq![0x43u8, 0x42u8, 0x4cu8, 0x43u8]
}

/// Whether a face has a color outline for a glyph.
pub uninterp spec fn face_has_color_outline(
    data: Seq<u8>,
    index: u32,
    glyph: u32,
    format: ColorOutline,
) -> bool;

/// The glyphs in each strike of a face's `sbix` table, if it has one.
pub uninterp spec fn face_sbix(data: Seq<u8>, index: u32) -> Option<Seq<Set<u32>>>;

/// The glyphs in each strike of a face's `CBDT` table, if it has one.
pub uninterp spec fn face_cbdt(data: Seq<u8>, index: u32) -> Option<Seq<Set<u32>>>;

/// The glyphs for which each strike of an `sbix` table holds a record.
pub uninterp spec fn sbix_strikes(sbix: Sbix) -> Seq<Set<u32>>;

/// The glyphs for which each strike holds a bitmap.
pub uninterp spec fn bitmap_strikes(strikes: BitmapStrikes) -> Seq<Set<u32>>;

/// The bytes that tell where the bitmaps of strikes are.
pub uninterp spec fn bitmap_location(strikes: BitmapStrikes) -> Seq<u8>;

/// The ranges of glyphs that the SVG documents of a face cover, both ends included.
pub uninterp spec fn face_svg_ranges(data: Seq<u8>, index: u32) -> Seq<(u32, u32)>;

/// The glyph that a face has for a character.
pub uninterp spec fn face_glyph(data: Seq<u8>, index: u32, character: char) -> Option<u32>;

/// The measurements of a face at normalized coordinates.
pub uninterp spec fn face_metrics(data: Seq<u8>, index: u32, coords: Seq<i16>) -> FaceMetrics;

/// The advance of a glyph at normalized coordinates, by its encoding.
pub uninterp spec fn face_advance(data: Seq<u8>, index: u32, coords: Seq<i16>, glyph: u32) -> Option<
    u32,
>;

/// The extent of a glyph at normalized coordinates.
pub uninterp spec fn face_extent(data: Seq<u8>, index: u32, coords: Seq<i16>, glyph: u32) -> Option<
    GlyphExtent,
>;

/// Calls `FontRef::from_index`. It fails on bytes that hold no such face, and the face reads
/// from the bytes.
#[verifier::external_body]
pub(crate) fn parse_face<'a>(data: &'a [u8], index: u32) -> (parsed: Option<FontRef<'a>>)
    ensures
        parsed is Some == face_parses(data@, index),
        parsed matches Some(font) ==> face_source(font) == (data@, index),
{
    FontRef::from_index(data, index).ok()
}

/// Calls `AxisCollection::iter` on the face's axes, and hands each axis out by its tag and the
/// encodings of its values.
#[verifier::external_body]
pub(crate) fn axis_records(font: &FontRef<'_>) -> (axes: Vec<AxisRecord>)
    ensures
        axes@ == face_axes(face_source(*font).0, face_source(*font).1),
{
    font.axes().iter().map(|axis| AxisRecord {
        tag: u32::from_be_bytes(axis.tag().to_be_bytes()),
        minimum: Scalar { bits: axis.min_value().to_bits() },
        default: Scalar { bits: axis.default_value().to_bits() },
        maximum: Scalar { bits: axis.max_value().to_bits() },
    }).collect()
}

/// Calls `AxisCollection::location` on the face's axes, and hands the coordinates out by their
/// encodings.
#[verifier::external_body]
pub(crate) fn axes_location(font: &FontRef<'_>, settings: &Vec<VariationSetting>) -> (coords: Vec<
    i16,
>)
    ensures
        coords@ == face_location(
            face_source(*font).0,
            face_source(*font).1,
            settings_parts(settings@),
        ),
{
    font.axes().location(settings.iter()).coords().iter().map(|coord| coord.to_bits()).collect()
}

/// Calls `FontRef::table_data`, and hands the bytes of the table out.
#[verifier::external_body]
pub(crate) fn table_bytes<'a>(font: &FontRef<'a>, tag: &[u8; 4]) -> (bytes: Option<&'a [u8]>)
    ensures
        match bytes {
            Some(bytes) => face_table_bytes(face_source(*font).0, face_source(*font).1, tag@)
                == Some(bytes@),
            None => face_table_bytes(face_source(*font).0, face_source(*font).1, tag@) is None,
        },
{
    font.table_data(Tag::new(tag)).map(|data| data.as_bytes())
}

/// Whether a face has a table.
pub(crate) fn has_table(font: &FontRef<'_>, tag: &[u8; 4]) -> (present: bool)
    ensures
        present == face_has_table(face_source(*font).0, face_source(*font).1, tag@),
{
    table_bytes(font, tag).is_some()
}

/// Calls `ColorGlyphCollection::get_with_format`, and tells whether there is an outline.
#[verifier::external_body]
pub(crate) fn has_color_outline(font: &FontRef<'_>, glyph: u32, format: ColorOutline) -> (present:
    bool)
    ensures
        present == face_has_color_outline(
            face_source(*font).0,
            face_source(*font).1,
            glyph,
            format,
        ),
{
    let format = match format {
        ColorOutline::V0 => ColorGlyphFormat::ColrV0,
        ColorOutline::V1 => ColorGlyphFormat::ColrV1,
    };
    font.color_glyphs().get_with_format(skrifa::GlyphId::new(glyph), format).is_some()
}

/// Calls `TableProvider::sbix`, which reads the table if the face has one.
#[verifier::external_body]
pub(crate) fn sbix_table<'a>(font: &FontRef<'a>) -> (sbix: Option<Sbix<'a>>)
    ensures
        sbix is Some == face_sbix(face_source(*font).0, face_source(*font).1) is Some,
        sbix matches Some(sbix) ==> face_sbix(face_source(*font).0, face_source(*font).1) == Some(
            sbix_strikes(sbix),
        ),
{
    font.sbix().ok()
}

/// Calls `ArrayOfOffsets::len` on the table's strikes.
#[verifier::external_body]
pub(crate) fn sbix_strike_count(sbix: &Sbix<'_>) -> (count: usize)
    ensures
        count == sbix_strikes(*sbix).len(),
{
    sbix.strikes().len()
}

/// Calls `Strike::glyph_data` on one of the table's strikes. A strike that cannot be read holds
/// no glyph.
#[verifier::external_body]
pub(crate) fn sbix_strike_holds(sbix: &Sbix<'_>, strike: usize, glyph: u32) -> (holds: bool)
    requires
        strike < sbix_strikes(*sbix).len(),
    ensures
        holds == sbix_strikes(*sbix)[strike as int].contains(glyph),
{
    let strike = sbix.strikes().get(strike).ok();
    strike.and_then(|strike| strike.glyph_data(skrifa::GlyphId::new(glyph)).ok()).flatten().is_some()
}

/// Calls `BitmapStrikes::with_format` for the `CBDT` format. The strikes read their places from
/// the face's `CBLC` table.
#[verifier::external_body]
pub(crate) fn cbdt_strikes<'a>(font: &FontRef<'a>) -> (strikes: Option<BitmapStrikes<'a>>)
    ensures
        strikes is Some == face_cbdt(face_source(*font).0, face_source(*font).1) is Some,
        strikes matches Some(strikes) ==> face_cbdt(face_source(*font).0, face_source(*font).1)
            == Some(bitmap_strikes(strikes)),
        strikes matches Some(strikes) ==> face_table_bytes(
            face_source(*font).0,
            face_source(*font).1,
            location_tag(),
        ) == Some(bitmap_location(strikes)),
{
    BitmapStrikes::with_format(font, BitmapFormat::Cbdt)
}

/// Calls `BitmapStrikes::len`.
#[verifier::external_body]
pub(crate) fn bitmap_strike_count(strikes: &BitmapStrikes<'_>) -> (count: usize)
    ensures
        count == bitmap_strikes(*strikes).len(),
{
    strikes.len()
}

/// Calls `BitmapStrikes::get` and `BitmapStrike::get`. A strike that cannot be read holds no
/// glyph. The call takes the metrics that the glyphs of a subtable share, which have to be there.
#[verifier::external_body]
pub(crate) fn bitmap_strike_holds(strikes: &BitmapStrikes<'_>, strike: usize, glyph: u32) -> (holds:
    bool)
    requires
        strike < bitmap_strikes(*strikes).len(),
        !cut_off(bitmap_location(*strikes), strike as int, glyph),
    ensures
        holds == bitmap_strikes(*strikes)[strike as int].contains(glyph),
{
    strikes.get(strike).and_then(|strike| strike.get(skrifa::GlyphId::new(glyph))).is_some()
}

/// Calls `SvgDocumentList::document_records` on the face's SVG table, and hands each record out
/// by its range. A face without a readable table has no records.
#[verifier::external_body]
pub(crate) fn svg_ranges(font: &FontRef<'_>) -> (ranges: Vec<(u32, u32)>)
    ensures
        ranges@ == face_svg_ranges(face_source(*font).0, face_source(*font).1),
{
    let documents = font.svg().ok().and_then(|svg| svg.svg_document_list().ok());
    documents.map(|documents| documents.document_records().iter().map(|record| (
        record.start_glyph_id().to_u32(),
        record.end_glyph_id().to_u32(),
    )).collect()).unwrap_or_default()
}

/// Calls `Charmap::map` on the face's character map.
#[verifier::external_body]
pub(crate) fn map_character(font: &FontRef<'_>, character: char) -> (glyph: Option<u32>)
    ensures
        glyph == face_glyph(face_source(*font).0, face_source(*font).1, character),
{
    font.charmap().map(character).map(|glyph| glyph.to_u32())
}

/// Calls `MetadataProvider::metrics` for an unscaled face, and keeps the numbers by their
/// encodings.
#[verifier::external_body]
pub(crate) fn measure_face(font: &FontRef<'_>, coords: &[i16]) -> (metrics: FaceMetrics)
    ensures
        metrics == face_metrics(face_source(*font).0, face_source(*font).1, coords@),
{
    let coords: Vec<NormalizedCoord> = coords.iter().map(|c| NormalizedCoord::from_bits(*c)).collect();
    let metrics = font.metrics(SkrifaSize::unscaled(), LocationRef::new(&coords));
    FaceMetrics {
        units_per_em: metrics.units_per_em,
        ascent: metrics.ascent.to_bits(),
        descent: metrics.descent.to_bits(),
        leading: metrics.leading.to_bits(),
        underline_offset: metrics.underline.map(|line| line.offset.to_bits()),
        underline_thickness: metrics.underline.map(|line| line.thickness.to_bits()),
        cap_height: metrics.cap_height.map(|height| height.to_bits()),
        x_height: metrics.x_height.map(|height| height.to_bits()),
        max_width: metrics.max_width.map(|width| width.to_bits()),
    }
}

/// Calls `GlyphMetrics::advance_width` for an unscaled face, and keeps the number by its
/// encoding.
#[verifier::external_body]
pub(crate) fn measure_advance(font: &FontRef<'_>, coords: &[i16], glyph: u32) -> (advance: Option<
    u32,
>)
    ensures
        advance == face_advance(face_source(*font).0, face_source(*font).1, coords@, glyph),
{
    let coords: Vec<NormalizedCoord> = coords.iter().map(|c| NormalizedCoord::from_bits(*c)).collect();
    let metrics = font.glyph_metrics(SkrifaSize::unscaled(), LocationRef::new(&coords));
    metrics.advance_width(skrifa::GlyphId::new(glyph)).map(|width| width.to_bits())
}

/// Calls `GlyphMetrics::bounds` for an unscaled face, and keeps the numbers by their encodings.
#[verifier::external_body]
pub(crate) fn measure_extent(font: &FontRef<'_>, coords: &[i16], glyph: u32) -> (extent: Option<
    GlyphExtent,
>)
    ensures
        extent == face_extent(face_source(*font).0, face_source(*font).1, coords@, glyph),
{
    let coords: Vec<NormalizedCoord> = coords.iter().map(|c| NormalizedCoord::from_bits(*c)).collect();
    let metrics = font.glyph_metrics(SkrifaSize::unscaled(), LocationRef::new(&coords));
    metrics.bounds(skrifa::GlyphId::new(glyph)).map(|bounds| GlyphExtent {
        x_min: Scalar { bits: bounds.x_min.to_bits() },
        y_min: Scalar { bits: bounds.y_min.to_bits() },
        x_max: Scalar { bits: bounds.x_max.to_bits() },
        y_max: Scalar { bits: bounds.y_max.to_bits() },
    })
}

} // verus!
