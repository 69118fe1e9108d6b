//! The color artwork that a face holds for its glyphs.

use crate::bitmap_location::{cut_off, is_cut_off};
use crate::face::{
    bitmap_location, bitmap_strike_count, bitmap_strike_holds, bitmap_strikes, cbdt_strikes,
    face_cbdt, face_has_color_outline, face_sbix, face_source, face_svg_ranges, face_table_bytes,
    has_color_outline, location_tag, sbix_strike_count, sbix_strike_holds, sbix_strikes,
    sbix_table, svg_ranges, table_bytes, ColorOutline,
};
use crate::text_system::GlyphId;
use skrifa::bitmap::BitmapStrikes;
use skrifa::raw::tables::sbix::Sbix;
use skrifa::FontRef;
use vstd::prelude::*;

verus! {

/// The native artwork format for a color glyph.
#[derive(Clone, Copy, Debug, PartialEq, Eq, Structural)]
pub enum ColorGlyphKind {
    /// OpenType COLRv0 layers.
    ColrV0,
    /// An OpenType COLRv1 paint graph.
    ColrV1,
    /// A CBDT or sbix bitmap strike.
    Bitmap,
    /// An SVG document embedded in the font.
    Svg,
}

/// Color glyph data parsed once for all glyphs in a shaped run.
pub struct ColorGlyphClassifier<'a> {
    font: FontRef<'a>,
    sbix: Option<Sbix<'a>>,
    cbdt_strikes: Option<BitmapStrikes<'a>>,
    cbdt_location: Option<&'a [u8]>,
    svg_ranges: Vec<(u32, u32)>,
}

/// Whether one of the strikes holds the glyph.
pub open spec fn strikes_hold(strikes: Seq<Set<u32>>, glyph: u32) -> bool {
    exists|strike: int| 0 <= strike < strikes.len() && (#[trigger] strikes[strike]).contains(glyph)
}

/// Whether one of the strikes holds the glyph, by a subtable that tells where it is in full.
pub open spec fn located_strikes_hold(
    strikes: Seq<Set<u32>>,
    location: Seq<u8>,
    glyph: u32,
) -> bool {
    exists|strike: int|
        0 <= strike < strikes.len() && (#[trigger] strikes[strike]).contains(glyph) && !cut_off(
            location,
            strike,
            glyph,
        )
}

/// Whether one of the ranges covers the glyph, ends included.
pub open spec fn ranges_cover(ranges: Seq<(u32, u32)>, glyph: u32) -> bool {
    exists|range: int|
        0 <= range < ranges.len() && (#[trigger] ranges[range]).0 <= glyph <= ranges[range].1
}

/// Whether a face holds bitmaps for a glyph, in either of its bitmap tables.
pub open spec fn face_has_bitmap(data: Seq<u8>, index: u32, glyph: u32) -> bool {
    ||| (face_sbix(data, index) matches Some(strikes) && strikes_hold(strikes, glyph))
    ||| (face_cbdt(data, index) matches Some(strikes) && face_table_bytes(
        data,
        index,
        location_tag(),
    ) matches Some(location) && located_strikes_hold(strikes, location, glyph))
}

/// `kinds` with `kind` behind them, if it is there.
pub open spec fn with_kind(
    kinds: Seq<ColorGlyphKind>,
    present: bool,
    kind: ColorGlyphKind,
) -> Seq<ColorGlyphKind> {
    if present {
        kinds.push(kind)
    } else {
        kinds
    }
}

/// The artwork formats that are present, in preference order: a paint graph, layers, a bitmap,
/// an SVG document.
pub open spec fn kinds_in_order(v1: bool, v0: bool, bitmap: bool, svg: bool) -> Seq<
    ColorGlyphKind,
> {
    with_kind(
        with_kind(
            with_kind(with_kind(seq![], v1, ColorGlyphKind::ColrV1), v0, ColorGlyphKind::ColrV0),
            bitmap,
            ColorGlyphKind::Bitmap,
        ),
        svg,
        ColorGlyphKind::Svg,
    )
}

/// The artwork formats that a face has for a glyph, in preference order.
pub open spec fn color_kinds(data: Seq<u8>, index: u32, glyph: u32) -> Seq<ColorGlyphKind> {
    kinds_in_order(
        face_has_color_outline(data, index, glyph, ColorOutline::V1),
        face_has_color_outline(data, index, glyph, ColorOutline::V0),
        face_has_bitmap(data, index, glyph),
        ranges_cover(face_svg_ranges(data, index), glyph),
    )
}

/// Whether an `sbix` table has a record for a glyph in any of its strikes.
///
/// A record counts whatever its payload is: it may refer to another glyph's.
pub fn sbix_has_glyph(sbix: &Sbix<'_>, glyph_id: GlyphId) -> (found: bool)
    ensures
        found == strikes_hold(sbix_strikes(*sbix), glyph_id.0),
{
    let count: usize = sbix_strike_count(sbix);
    let mut strike: usize = 0;
    while strike < count
        invariant
            count == sbix_strikes(*sbix).len(),
            strike <= count,
            forall|i: int|
                0 <= i < strike ==> !(#[trigger] sbix_strikes(*sbix)[i]).contains(glyph_id.0),
        decreases count - strike,
    {
        if sbix_strike_holds(sbix, strike, glyph_id.0) {
            return true;
        }
        strike += 1;
    }
    false
}

/// Whether any of the strikes has a bitmap for a glyph. A subtable that ends before the metrics
/// that its glyphs share leads to none.
fn strikes_have_glyph(strikes: &BitmapStrikes<'_>, location: &[u8], glyph_id: GlyphId) -> (found:
    bool)
    requires
        location@ == bitmap_location(*strikes),
    ensures
        found == located_strikes_hold(bitmap_strikes(*strikes), location@, glyph_id.0),
{
    let count: usize = bitmap_strike_count(strikes);
    let mut strike: usize = 0;
    while strike < count
        invariant
            location@ == bitmap_location(*strikes),
            count == bitmap_strikes(*strikes).len(),
            strike <= count,
            forall|i: int|
                0 <= i < strike ==> !((#[trigger] bitmap_strikes(*strikes)[i]).contains(glyph_id.0)
                    && !cut_off(location@, i, glyph_id.0)),
        decreases count - strike,
    {
        if !is_cut_off(location, strike, glyph_id.0) && bitmap_strike_holds(
            strikes,
            strike,
            glyph_id.0,
        ) {
            return true;
        }
        strike += 1;
    }
    false
}

/// Whether one of the ranges covers a glyph, ends included.
pub fn ranges_have_glyph(ranges: &Vec<(u32, u32)>, glyph_id: GlyphId) -> (found: bool)
    ensures
        found == ranges_cover(ranges@, glyph_id.0),
{
    let mut range: usize = 0;
    while range < ranges.len()
        invariant
            range <= ranges@.len(),
            forall|i: int|
                0 <= i < range ==> !((#[trigger] ranges@[i]).0 <= glyph_id.0 <= ranges@[i].1),
        decreases ranges@.len() - range,
    {
        if ranges[range].0 <= glyph_id.0 && glyph_id.0 <= ranges[range].1 {
            return true;
        }
        range += 1;
    }
    false
}

/// The artwork formats that are present, in preference order.
pub fn available_in_order(has_colr_v1: bool, has_colr_v0: bool, has_bitmap: bool, has_svg: bool)
    -> (kinds: Vec<ColorGlyphKind>)
    ensures
        kinds@ == kinds_in_order(has_colr_v1, has_colr_v0, has_bitmap, has_svg),
{
    let mut kinds: Vec<ColorGlyphKind> = Vec::new();
    if has_colr_v1 {
        kinds.push(ColorGlyphKind::ColrV1);
    }
    if has_colr_v0 {
        kinds.push(ColorGlyphKind::ColrV0);
    }
    if has_bitmap {
        kinds.push(ColorGlyphKind::Bitmap);
    }
    if has_svg {
        kinds.push(ColorGlyphKind::Svg);
    }
    kinds
}

impl<'a> ColorGlyphClassifier<'a> {
    /// The bytes and the index of the classified face.
    pub closed spec fn source(&self) -> (Seq<u8>, u32) {
        face_source(self.font)
    }

    /// What was parsed is what the face holds.
    pub closed spec fn well_formed(&self) -> bool {
        let (data, index) = face_source(self.font);
        &&& match self.sbix {
            Some(sbix) => face_sbix(data, index) == Some(sbix_strikes(sbix)),
            None => face_sbix(data, index) is None,
        }
        &&& match self.cbdt_strikes {
            Some(strikes) => face_cbdt(data, index) == Some(bitmap_strikes(strikes)) && (
            self.cbdt_location matches Some(location) && location@ == bitmap_location(strikes)),
            None => face_cbdt(data, index) is None,
        }
        &&& match self.cbdt_location {
            Some(location) => face_table_bytes(data, index, location_tag()) == Some(location@),
            None => face_table_bytes(data, index, location_tag()) is None,
        }
        &&& self.svg_ranges@ == face_svg_ranges(data, index)
    }

    /// Parses the color glyph data of a face.
    pub fn new(font: FontRef<'a>) -> (classifier: ColorGlyphClassifier<'a>)
        ensures
            classifier.source() == face_source(font),
            classifier.well_formed(),
    {
        let sbix: Option<Sbix<'a>> = sbix_table(&font);
        let cbdt_strikes: Option<BitmapStrikes<'a>> = cbdt_strikes(&font);
        let cbdt_location: Option<&'a [u8]> = table_bytes(&font, &[0x43u8, 0x42u8, 0x4cu8, 0x43u8]);
        assert([0x43u8, 0x42u8, 0x4cu8, 0x43u8]@ =~= location_tag());
        let svg_ranges: Vec<(u32, u32)> = svg_ranges(&font);
        ColorGlyphClassifier { font, sbix, cbdt_strikes, cbdt_location, svg_ranges }
    }

    /// Returns every artwork format available for this glyph in preference order.
    pub fn available_kinds(&self, glyph_id: GlyphId) -> (kinds: Vec<ColorGlyphKind>)
        requires
            self.well_formed(),
        ensures
            kinds@ == color_kinds(self.source().0, self.source().1, glyph_id.0),
    {
        let has_colr_v1: bool = has_color_outline(&self.font, glyph_id.0, ColorOutline::V1);
        let has_colr_v0: bool = has_color_outline(&self.font, glyph_id.0, ColorOutline::V0);
        let has_sbix_bitmap: bool = match &self.sbix {
            Some(sbix) => sbix_has_glyph(sbix, glyph_id),
            None => false,
        };
        let has_cbdt_bitmap: bool = match (&self.cbdt_strikes, self.cbdt_location) {
            (Some(strikes), Some(location)) => strikes_have_glyph(strikes, location, glyph_id),
            _ => false,
        };
        let has_svg: bool = ranges_have_glyph(&self.svg_ranges, glyph_id);
        available_in_order(has_colr_v1, has_colr_v0, has_sbix_bitmap || has_cbdt_bitmap, has_svg)
    }
}

/// `selected` is the first of the kinds that `supports` accepts.
pub open spec fn is_first_supported<F: Fn(ColorGlyphKind) -> bool>(
    kinds: Seq<ColorGlyphKind>,
    supports: F,
    selected: Option<ColorGlyphKind>,
) -> bool {
    match selected {
        Some(kind) => exists|position: int|
            {
                &&& 0 <= position < kinds.len()
                &&& #[trigger] kinds[position] == kind
                &&& supports.ensures((kind,), true)
                &&& forall|earlier: int|
                    0 <= earlier < position ==> supports.ensures(
                        (#[trigger] kinds[earlier],),
                        false,
                    )
            },
        None => forall|position: int|
            0 <= position < kinds.len() ==> supports.ensures((#[trigger] kinds[position],), false),
    }
}

/// The first of the kinds that `supports` accepts.
pub fn first_supported_color_kind<F: Fn(ColorGlyphKind) -> bool>(
    kinds: &[ColorGlyphKind],
    supports: F,
) -> (selected: Option<ColorGlyphKind>)
    requires
        forall|kind: ColorGlyphKind| #[trigger] supports.requires((kind,)),
    ensures
        is_first_supported(kinds@, supports, selected),
{
    let mut position: usize = 0;
    while position < kinds.len()
        invariant
            position <= kinds@.len(),
            forall|kind: ColorGlyphKind| #[trigger] supports.requires((kind,)),
            forall|earlier: int|
                0 <= earlier < position ==> supports.ensures((#[trigger] kinds@[earlier],), false),
        decreases kinds@.len() - position,
    {
        let kind: ColorGlyphKind = kinds[position];
        if supports(kind) {
            return Some(kind);
        }
        position += 1;
    }
    None
}

/// A format is listed exactly when the face has it, none is listed twice, and formats keep their
/// preference order: a paint graph before layers, layers before a bitmap, a bitmap before an SVG
/// document.
pub proof fn law_kinds_are_listed_in_preference_order(v1: bool, v0: bool, bitmap: bool, svg: bool)
    ensures
        ({
            let kinds = kinds_in_order(v1, v0, bitmap, svg);
            &&& kinds.contains(ColorGlyphKind::ColrV1) == v1
            &&& kinds.contains(ColorGlyphKind::ColrV0) == v0
            &&& kinds.contains(ColorGlyphKind::Bitmap) == bitmap
            &&& kinds.contains(ColorGlyphKind::Svg) == svg
            &&& forall|early: int, late: int|
                0 <= early < late < kinds.len() ==> preference(#[trigger] kinds[early])
                    < preference(#[trigger] kinds[late])
        }),
{
    let first = with_kind(seq![], v1, ColorGlyphKind::ColrV1);
    let second = with_kind(first, v0, ColorGlyphKind::ColrV0);
    let third = with_kind(second, bitmap, ColorGlyphKind::Bitmap);
    let fourth = with_kind(third, svg, ColorGlyphKind::Svg);
    if v1 {
        assert(fourth[0] == ColorGlyphKind::ColrV1);
    }
    if v0 {
        assert(fourth[first.len() as int] == ColorGlyphKind::ColrV0);
    }
    if bitmap {
        assert(fourth[second.len() as int] == ColorGlyphKind::Bitmap);
    }
    if svg {
        assert(fourth[third.len() as int] == ColorGlyphKind::Svg);
    }
}

/// The rank of a format: formats with a lower rank are preferred.
pub open spec fn preference(kind: ColorGlyphKind) -> int {
    match kind {
        ColorGlyphKind::ColrV1 => 0,
        ColorGlyphKind::ColrV0 => 1,
        ColorGlyphKind::Bitmap => 2,
        ColorGlyphKind::Svg => 3,
    }
}

/// The formats of a glyph are those that its face has for it: outlines of either version, a
/// bitmap, or an SVG document.
pub proof fn law_kinds_are_those_of_the_face(data: Seq<u8>, index: u32, glyph: u32)
    ensures
        ({
            let kinds = color_kinds(data, index, glyph);
            let bitmap = face_has_bitmap(data, index, glyph);
            &&& kinds.contains(ColorGlyphKind::ColrV1) <==> face_has_color_outline(
                data,
                index,
                glyph,
                ColorOutline::V1,
            )
            &&& kinds.contains(ColorGlyphKind::ColrV0) <==> face_has_color_outline(
                data,
                index,
                glyph,
                ColorOutline::V0,
            )
            &&& kinds.contains(ColorGlyphKind::Bitmap) <==> bitmap
            &&& kinds.contains(ColorGlyphKind::Svg) <==> exists|range: int|
                0 <= range < face_svg_ranges(data, index).len() && (
                #[trigger] face_svg_ranges(data, index)[range]).0 <= glyph && glyph
                    <= face_svg_ranges(data, index)[range].1
        }),
{
    law_kinds_are_listed_in_preference_order(
        face_has_color_outline(data, index, glyph, ColorOutline::V1),
        face_has_color_outline(data, index, glyph, ColorOutline::V0),
        face_has_bitmap(data, index, glyph),
        ranges_cover(face_svg_ranges(data, index), glyph),
    );
}

/// A face has a bitmap for a glyph exactly if a strike of its `sbix` table holds the glyph, or one
/// of its `CBDT` table does and the glyph's place there is not cut off.
pub proof fn law_bitmaps_are_in_either_table(
    data: Seq<u8>,
    index: u32,
    glyph: u32,
    strikes: Seq<Set<u32>>,
    location: Seq<u8>,
    strike: int,
)
    ensures
        face_sbix(data, index) == Some(strikes) && 0 <= strike < strikes.len()
            && strikes[strike].contains(glyph) ==> face_has_bitmap(data, index, glyph),
        face_cbdt(data, index) == Some(strikes) && face_table_bytes(
            data,
            index,
            seq![0x43u8, 0x42u8, 0x4cu8, 0x43u8],
        ) == Some(location) && 0 <= strike < strikes.len() && strikes[strike].contains(glyph)
            && !cut_off(location, strike, glyph) ==> face_has_bitmap(data, index, glyph),
        face_has_bitmap(data, index, glyph) ==> exists|held: Seq<Set<u32>>, at: int|
            {
                &&& 0 <= at < held.len()
                &&& (#[trigger] held[at]).contains(glyph)
                &&& face_sbix(data, index) == Some(held) || (face_cbdt(data, index) == Some(held)
                    && face_table_bytes(data, index, seq![0x43u8, 0x42u8, 0x4cu8, 0x43u8]) is Some
                    && !cut_off(
                    face_table_bytes(data, index, seq![0x43u8, 0x42u8, 0x4cu8, 0x43u8])->0,
                    at,
                    glyph,
                ))
            },
{
    if face_has_bitmap(data, index, glyph) {
        if face_sbix(data, index) is Some && strikes_hold(face_sbix(data, index)->0, glyph) {
            let held = face_sbix(data, index)->0;
            let at = choose|at: int|
                0 <= at < held.len() && (#[trigger] held[at]).contains(glyph);
            assert(held[at].contains(glyph));
        } else {
            let held = face_cbdt(data, index)->0;
            let place = face_table_bytes(data, index, location_tag())->0;
            let at = choose|at: int|
                0 <= at < held.len() && (#[trigger] held[at]).contains(glyph) && !cut_off(
                    place,
                    at,
                    glyph,
                );
            assert(held[at].contains(glyph));
        }
    }
}

/// The format that is selected is the one that is preferred among those that the face has for the
/// glyph and `supports` accepts: a paint graph, else layers, else a bitmap, else an SVG document.
/// There is none only if none of them is accepted.
pub proof fn law_the_preferred_kind_is_selected<F: Fn(ColorGlyphKind) -> bool>(
    data: Seq<u8>,
    index: u32,
    glyph: u32,
    supports: F,
    accepted: spec_fn(ColorGlyphKind) -> bool,
    selected: Option<ColorGlyphKind>,
)
    requires
        forall|kind: ColorGlyphKind, answer: bool| #[trigger]
            supports.ensures((kind,), answer) ==> answer == accepted(kind),
        is_first_supported(color_kinds(data, index, glyph), supports, selected),
    ensures
        ({
            let v1 = face_has_color_outline(data, index, glyph, ColorOutline::V1) && accepted(
                ColorGlyphKind::ColrV1,
            );
            let v0 = face_has_color_outline(data, index, glyph, ColorOutline::V0) && accepted(
                ColorGlyphKind::ColrV0,
            );
            let bitmap = face_has_bitmap(data, index, glyph) && accepted(ColorGlyphKind::Bitmap);
            let svg = ranges_cover(face_svg_ranges(data, index), glyph) && accepted(
                ColorGlyphKind::Svg,
            );
            selected == if v1 {
                Some(ColorGlyphKind::ColrV1)
            } else if v0 {
                Some(ColorGlyphKind::ColrV0)
            } else if bitmap {
                Some(ColorGlyphKind::Bitmap)
            } else if svg {
                Some(ColorGlyphKind::Svg)
            } else {
                None::<ColorGlyphKind>
            }
        }),
{
    let v1 = face_has_color_outline(data, index, glyph, ColorOutline::V1);
    let v0 = face_has_color_outline(data, index, glyph, ColorOutline::V0);
    let bitmap = face_has_bitmap(data, index, glyph);
    let svg = ranges_cover(face_svg_ranges(data, index), glyph);
    let first = with_kind(seq![], v1, ColorGlyphKind::ColrV1);
    let second = with_kind(first, v0, ColorGlyphKind::ColrV0);
    let third = with_kind(second, bitmap, ColorGlyphKind::Bitmap);
    let kinds = color_kinds(data, index, glyph);
    law_kinds_are_listed_in_preference_order(v1, v0, bitmap, svg);
    if v1 {
        assert(kinds[0] == ColorGlyphKind::ColrV1);
    }
    if v0 {
        assert(kinds[first.len() as int] == ColorGlyphKind::ColrV0);
    }
    if bitmap {
        assert(kinds[second.len() as int] == ColorGlyphKind::Bitmap);
    }
    if svg {
        assert(kinds[third.len() as int] == ColorGlyphKind::Svg);
    }
    if selected is Some {
        let kind = selected->0;
        assert(kinds.contains(kind));
    }
}

} // verus!
