//! Fonts: what they are called, how heavy and slanted they are, and how they measure.

use crate::geometry::{Bounds, Pixels, Point, Size};
use crate::hashing::{hash_items, write_item, HashItem, HashWrite};
use crate::scalar::{Arithmetic, Scalar};
use vstd::prelude::*;

verus! {

/// The degree of blackness or stroke thickness of a font. This value ranges from 100 to 900,
/// with 400 as normal.
#[derive(Clone, Copy, Debug)]
pub struct FontWeight(pub Scalar);

impl FontWeight {
    /// Thin weight (100), the thinnest value.
    pub fn thin() -> (weight: FontWeight)
        ensures
            weight.0.bits == 0x42c8_0000,
    {
        FontWeight(Scalar { bits: 0x42c8_0000 })
    }

    /// Extra light weight (200).
    pub fn extra_light() -> (weight: FontWeight)
        ensures
            weight.0.bits == 0x4348_0000,
    {
        FontWeight(Scalar { bits: 0x4348_0000 })
    }

    /// Light weight (300).
    pub fn light() -> (weight: FontWeight)
        ensures
            weight.0.bits == 0x4396_0000,
    {
        FontWeight(Scalar { bits: 0x4396_0000 })
    }

    /// Normal (400).
    pub fn normal() -> (weight: FontWeight)
        ensures
            weight.0.bits == 0x43c8_0000,
    {
        FontWeight(Scalar { bits: 0x43c8_0000 })
    }

    /// Medium weight (500, higher than normal).
    pub fn medium() -> (weight: FontWeight)
        ensures
            weight.0.bits == 0x43fa_0000,
    {
        FontWeight(Scalar { bits: 0x43fa_0000 })
    }

    /// Semibold weight (600).
    pub fn semibold() -> (weight: FontWeight)
        ensures
            weight.0.bits == 0x4416_0000,
    {
        FontWeight(Scalar { bits: 0x4416_0000 })
    }

    /// Bold weight (700).
    pub fn bold() -> (weight: FontWeight)
        ensures
            weight.0.bits == 0x442f_0000,
    {
        FontWeight(Scalar { bits: 0x442f_0000 })
    }

    /// Extra-bold weight (800).
    pub fn extra_bold() -> (weight: FontWeight)
        ensures
            weight.0.bits == 0x4448_0000,
    {
        FontWeight(Scalar { bits: 0x4448_0000 })
    }

    /// Black weight (900), the thickest value.
    pub fn black() -> (weight: FontWeight)
        ensures
            weight.0.bits == 0x4461_0000,
    {
        FontWeight(Scalar { bits: 0x4461_0000 })
    }

    /// All of the named font weights, in order from thinnest to thickest.
    pub fn all() -> (weights: [FontWeight; 9])
        ensures
            weights@.map_values(|weight: FontWeight| weight.0.bits) == seq![
                0x42c8_0000u32,
                0x4348_0000u32,
                0x4396_0000u32,
                0x43c8_0000u32,
                0x43fa_0000u32,
                0x4416_0000u32,
                0x442f_0000u32,
                0x4448_0000u32,
                0x4461_0000u32,
            ],
            forall|i: int, j: int|
                0 <= i < j < 9 ==> (#[trigger] weights@[i]).0.rank() < (#[trigger] weights@[j]).0.rank(),
    {
        let weights = [
            FontWeight::thin(),
            FontWeight::extra_light(),
            FontWeight::light(),
            FontWeight::normal(),
            FontWeight::medium(),
            FontWeight::semibold(),
            FontWeight::bold(),
            FontWeight::extra_bold(),
            FontWeight::black(),
        ];
        assert(weights@.map_values(|weight: FontWeight| weight.0.bits) =~= seq![
            0x42c8_0000u32,
            0x4348_0000u32,
            0x4396_0000u32,
            0x43c8_0000u32,
            0x43fa_0000u32,
            0x4416_0000u32,
            0x442f_0000u32,
            0x4448_0000u32,
            0x4461_0000u32,
        ]);
        weights
    }
}

impl Default for FontWeight {
    fn default() -> (weight: FontWeight)
        ensures
            weight.0.bits == 0x43c8_0000,
    {
        FontWeight::normal()
    }
}

impl PartialEq for FontWeight {
    fn eq(&self, other: &Self) -> (equal: bool) {
        self.0 == other.0
    }
}

impl vstd::std_specs::cmp::PartialEqSpecImpl for FontWeight {
    open spec fn obeys_eq_spec() -> bool {
        true
    }

    open spec fn eq_spec(&self, other: &Self) -> bool {
        self.0.equals(other.0)
    }
}

/// Allows italic or oblique faces to be selected.
#[derive(Clone, Copy, Debug, PartialEq, Eq, Hash, Structural)]
pub enum FontStyle {
    /// A face that is neither italic not obliqued.
    Normal,
    /// A form that is generally cursive in nature.
    Italic,
    /// A typically-sloped version of the regular face.
    Oblique,
}

impl Default for FontStyle {
    fn default() -> (style: FontStyle)
        ensures
            style == FontStyle::Normal,
    {
        FontStyle::Normal
    }
}

impl FontStyle {
    /// The name of the style.
    pub fn name(self) -> (name: &'static str)
        ensures
            name@ == match self {
                FontStyle::Normal => "Normal"@,
                FontStyle::Italic => "Italic"@,
                FontStyle::Oblique => "Oblique"@,
            },
    {
        match self {
            FontStyle::Normal => "Normal",
            FontStyle::Italic => "Italic",
            FontStyle::Oblique => "Oblique",
        }
    }

    /// The position of the style among the styles.
    pub open spec fn position(self) -> u8 {
        match self {
            FontStyle::Normal => 0,
            FontStyle::Italic => 1,
            FontStyle::Oblique => 2,
        }
    }
}

/// The OpenType features to use, with their values.
#[derive(Clone, Debug)]
pub struct FontFeatures {
    /// Feature tags and values, in order.
    pub entries: Vec<(String, u32)>,
}

/// The families to fall back to.
#[derive(Clone, Debug)]
pub struct FontFallbacks {
    /// Family names, in order.
    pub families: Vec<String>,
}

/// The configuration details for identifying a specific font.
#[derive(Debug)]
pub struct Font {
    /// The font family name.
    ///
    /// The special name ".SystemUIFont" is used to identify the system UI font, which varies
    /// based on platform.
    pub family: String,
    /// The font features to use.
    pub features: FontFeatures,
    /// The fallback fonts to use.
    pub fallbacks: Option<FontFallbacks>,
    /// The font weight.
    pub weight: FontWeight,
    /// The font style.
    pub style: FontStyle,
}

/// What identifies a font, apart from its weight.
pub struct FontIdentity {
    /// The family name.
    pub family: Seq<char>,
    /// Feature tags and values.
    pub features: Seq<(Seq<char>, u32)>,
    /// The fallback families, if any are given.
    pub fallbacks: Option<Seq<Seq<char>>>,
    /// The style.
    pub style: FontStyle,
}

/// Feature tags and values, as texts and numbers.
pub open spec fn features_view(entries: Seq<(String, u32)>) -> Seq<(Seq<char>, u32)> {
    entries.map_values(|entry: (String, u32)| (entry.0@, entry.1))
}

/// Family names, as texts.
pub open spec fn names_view(names: Seq<String>) -> Seq<Seq<char>> {
    names.map_values(|name: String| name@)
}

impl Font {
    /// What identifies the font, apart from its weight.
    pub open spec fn identity(&self) -> FontIdentity {
        FontIdentity {
            family: self.family@,
            features: features_view(self.features.entries@),
            fallbacks: match self.fallbacks {
                Some(fallbacks) => Some(names_view(fallbacks.families@)),
                None => None,
            },
            style: self.style,
        }
    }

    /// Whether two fonts are equal: weights compare as numbers, so that no font with a NaN
    /// weight equals any.
    pub open spec fn equals(&self, other: Font) -> bool {
        self.identity() == other.identity() && self.weight.0.equals(other.weight.0)
    }

    /// Whether two fonts share an entry in a map that is keyed by fonts: they are equal, and
    /// their weights hash alike.
    pub open spec fn same_key(&self, other: Font) -> bool {
        self.equals(other) && self.weight.0.bits == other.weight.0.bits
    }

    /// Sets this font to be bold.
    pub fn bold(self) -> (font: Font)
        ensures
            font.identity() == self.identity(),
            font.weight.0.bits == 0x442f_0000,
    {
        let mut font = self;
        font.weight = FontWeight::bold();
        font
    }

    /// Sets this font to be italic.
    pub fn italic(self) -> (font: Font)
        ensures
            font.identity() == (FontIdentity { style: FontStyle::Italic, ..self.identity() }),
            font.weight == self.weight,
    {
        let mut font = self;
        font.style = FontStyle::Italic;
        font
    }

    /// Whether two fonts share an entry in a map that is keyed by fonts.
    pub fn shares_key(&self, other: &Font) -> (shares: bool)
        ensures
            shares == self.same_key(*other),
    {
        self == other && self.weight.0.bits == other.weight.0.bits
    }
}

/// Whether two lists of names are the same.
fn same_names(left: &Vec<String>, right: &Vec<String>) -> (same: bool)
    ensures
        same == (names_view(left@) == names_view(right@)),
{
    if left.len() != right.len() {
        assert(names_view(left@).len() != names_view(right@).len());
        return false;
    }
    let mut index: usize = 0;
    while index < left.len()
        invariant
            left@.len() == right@.len(),
            index <= left@.len(),
            forall|i: int| 0 <= i < index ==> (#[trigger] left@[i])@ == right@[i]@,
        decreases left@.len() - index,
    {
        if left[index] != right[index] {
            assert(names_view(left@)[index as int] != names_view(right@)[index as int]);
            return false;
        }
        index += 1;
    }
    assert(names_view(left@) =~= names_view(right@));
    true
}

/// Whether two lists of features are the same.
fn same_features(left: &Vec<(String, u32)>, right: &Vec<(String, u32)>) -> (same: bool)
    ensures
        same == (features_view(left@) == features_view(right@)),
{
    if left.len() != right.len() {
        assert(features_view(left@).len() != features_view(right@).len());
        return false;
    }
    let mut index: usize = 0;
    while index < left.len()
        invariant
            left@.len() == right@.len(),
            index <= left@.len(),
            forall|i: int|
                0 <= i < index ==> (#[trigger] left@[i]).0@ == right@[i].0@ && left@[i].1
                    == right@[i].1,
        decreases left@.len() - index,
    {
        if left[index].0 != right[index].0 || left[index].1 != right[index].1 {
            assert(features_view(left@)[index as int] != features_view(right@)[index as int]);
            return false;
        }
        index += 1;
    }
    assert(features_view(left@) =~= features_view(right@));
    true
}

impl PartialEq for Font {
    fn eq(&self, other: &Self) -> (equal: bool) {
        let same_fallbacks: bool = match (&self.fallbacks, &other.fallbacks) {
            (None, None) => true,
            (Some(left), Some(right)) => same_names(&left.families, &right.families),
            _ => false,
        };
        self.family == other.family && same_features(
            &self.features.entries,
            &other.features.entries,
        ) && same_fallbacks && self.weight.0 == other.weight.0 && self.style == other.style
    }
}

impl vstd::std_specs::cmp::PartialEqSpecImpl for Font {
    open spec fn obeys_eq_spec() -> bool {
        true
    }

    open spec fn eq_spec(&self, other: &Self) -> bool {
        self.equals(*other)
    }
}

/// A copy of a list of names.
fn copy_names(names: &Vec<String>) -> (copy: Vec<String>)
    ensures
        names_view(copy@) == names_view(names@),
{
    let mut copy: Vec<String> = Vec::new();
    let mut index: usize = 0;
    while index < names.len()
        invariant
            index <= names@.len(),
            copy@.len() == index,
            forall|i: int| 0 <= i < index ==> (#[trigger] copy@[i])@ == names@[i]@,
        decreases names@.len() - index,
    {
        copy.push(names[index].clone());
        index += 1;
    }
    assert(names_view(copy@) =~= names_view(names@));
    copy
}

/// A copy of a list of features.
fn copy_features(entries: &Vec<(String, u32)>) -> (copy: Vec<(String, u32)>)
    ensures
        features_view(copy@) == features_view(entries@),
{
    let mut copy: Vec<(String, u32)> = Vec::new();
    let mut index: usize = 0;
    while index < entries.len()
        invariant
            index <= entries@.len(),
            copy@.len() == index,
            forall|i: int|
                0 <= i < index ==> (#[trigger] copy@[i]).0@ == entries@[i].0@ && copy@[i].1
                    == entries@[i].1,
        decreases entries@.len() - index,
    {
        copy.push((entries[index].0.clone(), entries[index].1));
        index += 1;
    }
    assert(features_view(copy@) =~= features_view(entries@));
    copy
}

impl Clone for Font {
    fn clone(&self) -> (font: Font)
        ensures
            font.identity() == self.identity(),
            font.weight == self.weight,
    {
        let fallbacks: Option<FontFallbacks> = match &self.fallbacks {
            Some(fallbacks) => Some(FontFallbacks { families: copy_names(&fallbacks.families) }),
            None => None,
        };
        Font {
            family: self.family.clone(),
            features: FontFeatures { entries: copy_features(&self.features.entries) },
            fallbacks,
            weight: self.weight,
            style: self.style,
        }
    }
}

impl Default for Font {
    fn default() -> (font: Font)
        ensures
            font.identity() == plain_font(".SystemUIFont"@),
            font.weight.0.bits == 0x43c8_0000,
    {
        self::font(".SystemUIFont")
    }
}

/// The identity of a font that only its family name sets apart.
pub open spec fn plain_font(family: Seq<char>) -> FontIdentity {
    FontIdentity {
        family,
        features: Seq::empty(),
        fallbacks: None,
        style: FontStyle::Normal,
    }
}

/// Get a [`Font`] for a given name.
pub fn font(family: &str) -> (font: Font)
    ensures
        font.identity() == plain_font(family@),
        font.weight.0.bits == 0x43c8_0000,
{
    let font = Font {
        family: family.to_owned(),
        features: FontFeatures { entries: Vec::new() },
        weight: FontWeight::default(),
        style: FontStyle::default(),
        fallbacks: None,
    };
    assert(font.identity().features =~= Seq::<(Seq<char>, u32)>::empty());
    font
}

/// What the features of a list hash: each its tag and its value, in turn.
pub open spec fn feature_items(features: Seq<(Seq<char>, u32)>) -> Seq<HashItem>
    decreases features.len(),
{
    if features.len() == 0 {
        seq![]
    } else {
        feature_items(features.drop_last()).push(HashItem::Text(features.last().0)).push(
            HashItem::Word(features.last().1),
        )
    }
}

/// What the names of a list hash.
pub open spec fn name_items(names: Seq<Seq<char>>) -> Seq<HashItem> {
    names.map_values(|name: Seq<char>| HashItem::Text(name))
}

/// What a font hashes: its family, features, fallbacks, weight and style.
pub open spec fn font_items(font: FontIdentity, weight: FontWeight) -> Seq<HashItem> {
    seq![HashItem::Text(font.family), HashItem::Length(font.features.len() as usize)]
        + feature_items(font.features) + match font.fallbacks {
        None => seq![HashItem::Variant(0)],
        Some(families) => seq![HashItem::Variant(1), HashItem::Length(families.len() as usize)]
            + name_items(families),
    } + seq![HashItem::Word(weight.0.bits), HashItem::Variant(font.style.position())]
}

/// The items that a list of features hashes.
fn write_features(writes: &mut Vec<HashWrite>, entries: &Vec<(String, u32)>)
    ensures
        hash_items(final(writes)@) == hash_items(old(writes)@) + feature_items(
            features_view(entries@),
        ),
{
    let ghost start = hash_items(writes@);
    let ghost features = features_view(entries@);
    let mut index: usize = 0;
    while index < entries.len()
        invariant
            index <= entries@.len(),
            features == features_view(entries@),
            hash_items(writes@) == start + feature_items(features.take(index as int)),
        decreases entries@.len() - index,
    {
        write_item(writes, HashWrite::Text(entries[index].0.clone()));
        write_item(writes, HashWrite::Word(entries[index].1));
        proof {
            let longer = features.take(index + 1);
            assert(longer.drop_last() =~= features.take(index as int));
            assert(longer.last() == (entries@[index as int].0@, entries@[index as int].1));
            assert(hash_items(writes@) =~= start + feature_items(longer));
        }
        index += 1;
    }
    assert(features.take(index as int) =~= features);
}

/// The items that a list of names hashes.
fn write_names(writes: &mut Vec<HashWrite>, names: &Vec<String>)
    ensures
        hash_items(final(writes)@) == hash_items(old(writes)@) + name_items(names_view(names@)),
{
    let ghost start = hash_items(writes@);
    let ghost items = name_items(names_view(names@));
    let mut index: usize = 0;
    assert(items.take(0) =~= seq![]);
    while index < names.len()
        invariant
            index <= names@.len(),
            items == name_items(names_view(names@)),
            hash_items(writes@) == start + items.take(index as int),
        decreases names@.len() - index,
    {
        write_item(writes, HashWrite::Text(names[index].clone()));
        assert(hash_items(writes@) =~= start + items.take(index + 1));
        index += 1;
    }
    assert(items.take(index as int) =~= items);
}

impl Font {
    /// The items that the font hashes, in order.
    pub fn hash_writes(&self) -> (writes: Vec<HashWrite>)
        ensures
            hash_items(writes@) == font_items(self.identity(), self.weight),
    {
        let mut writes: Vec<HashWrite> = Vec::new();
        assert(hash_items(writes@) =~= seq![]);
        write_item(&mut writes, HashWrite::Text(self.family.clone()));
        write_item(&mut writes, HashWrite::Length(self.features.entries.len()));
        write_features(&mut writes, &self.features.entries);
        match &self.fallbacks {
            None => {
                write_item(&mut writes, HashWrite::Variant(0));
            },
            Some(fallbacks) => {
                write_item(&mut writes, HashWrite::Variant(1));
                write_item(&mut writes, HashWrite::Length(fallbacks.families.len()));
                write_names(&mut writes, &fallbacks.families);
            },
        }
        write_item(&mut writes, HashWrite::Word(self.weight.0.bits));
        let position: u8 = match self.style {
            FontStyle::Normal => 0,
            FontStyle::Italic => 1,
            FontStyle::Oblique => 2,
        };
        write_item(&mut writes, HashWrite::Variant(position));
        assert(hash_items(writes@) =~= font_items(self.identity(), self.weight));
        writes
    }
}

/// Fonts that share a map entry hash the same items.
pub proof fn law_fonts_with_one_key_hash_alike(left: Font, right: Font)
    requires
        left.same_key(right),
    ensures
        font_items(left.identity(), left.weight) == font_items(right.identity(), right.weight),
{
}

/// A struct for storing font metrics.
/// It is used to define the measurements of a typeface.
#[derive(Clone, Copy, Debug)]
pub struct FontMetrics {
    /// The number of font units that make up the "em square",
    /// a scalable grid for determining the size of a typeface.
    pub units_per_em: u32,
    /// The vertical distance from the baseline of the font to the top of the glyph covers.
    pub ascent: Scalar,
    /// The vertical distance from the baseline of the font to the bottom of the glyph covers.
    pub descent: Scalar,
    /// The recommended additional space to add between lines of type.
    pub line_gap: Scalar,
    /// The suggested position of the underline.
    pub underline_position: Scalar,
    /// The suggested thickness of the underline.
    pub underline_thickness: Scalar,
    /// The height of a capital letter measured from the baseline of the font.
    pub cap_height: Scalar,
    /// The height of a lowercase x.
    pub x_height: Scalar,
    /// The outer limits of the area that the font covers.
    pub bounding_box: Bounds<Scalar>,
}

/// `scaled` is `value` in font units, over the number of units per em, times the font size.
pub open spec fn is_scaled<A: Arithmetic>(
    arithmetic: &A,
    value: Scalar,
    units_per_em: u32,
    font_size: Pixels,
    scaled: Pixels,
) -> bool {
    exists|units: Scalar, ems: Scalar|
        {
            &&& #[trigger] call_ensures(A::from_integer, (arithmetic, units_per_em), units)
            &&& #[trigger] call_ensures(A::quotient, (arithmetic, value, units), ems)
            &&& call_ensures(A::product, (arithmetic, ems, font_size.0), scaled.0)
        }
}

/// Scales a length in font units to a font size.
pub fn scale_length<A: Arithmetic>(
    arithmetic: &A,
    value: Scalar,
    units_per_em: u32,
    font_size: Pixels,
) -> (scaled: Pixels)
    ensures
        is_scaled(arithmetic, value, units_per_em, font_size, scaled),
{
    let units: Scalar = arithmetic.from_integer(units_per_em);
    let ems: Scalar = arithmetic.quotient(value, units);
    Pixels(arithmetic.product(ems, font_size.0))
}

/// All four numbers of `scaled` are those of `bounds`, scaled to a font size.
pub open spec fn are_scaled_bounds<A: Arithmetic>(
    arithmetic: &A,
    bounds: Bounds<Scalar>,
    units_per_em: u32,
    font_size: Pixels,
    scaled: Bounds<Pixels>,
) -> bool {
    &&& is_scaled(arithmetic, bounds.origin.x, units_per_em, font_size, scaled.origin.x)
    &&& is_scaled(arithmetic, bounds.origin.y, units_per_em, font_size, scaled.origin.y)
    &&& is_scaled(arithmetic, bounds.size.width, units_per_em, font_size, scaled.size.width)
    &&& is_scaled(arithmetic, bounds.size.height, units_per_em, font_size, scaled.size.height)
}

/// Scales a rectangle in font units to a font size.
pub fn scale_bounds<A: Arithmetic>(
    arithmetic: &A,
    bounds: Bounds<Scalar>,
    units_per_em: u32,
    font_size: Pixels,
) -> (scaled: Bounds<Pixels>)
    ensures
        are_scaled_bounds(arithmetic, bounds, units_per_em, font_size, scaled),
{
    Bounds {
        origin: Point {
            x: scale_length(arithmetic, bounds.origin.x, units_per_em, font_size),
            y: scale_length(arithmetic, bounds.origin.y, units_per_em, font_size),
        },
        size: Size {
            width: scale_length(arithmetic, bounds.size.width, units_per_em, font_size),
            height: scale_length(arithmetic, bounds.size.height, units_per_em, font_size),
        },
    }
}

impl FontMetrics {
    /// Returns the vertical distance from the baseline of the font to the top of the glyph
    /// covers in pixels.
    pub fn ascent<A: Arithmetic>(&self, font_size: Pixels, arithmetic: &A) -> (pixels: Pixels)
        ensures
            is_scaled(arithmetic, self.ascent, self.units_per_em, font_size, pixels),
    {
        scale_length(arithmetic, self.ascent, self.units_per_em, font_size)
    }

    /// Returns the vertical distance from the baseline of the font to the bottom of the glyph
    /// covers in pixels.
    pub fn descent<A: Arithmetic>(&self, font_size: Pixels, arithmetic: &A) -> (pixels: Pixels)
        ensures
            is_scaled(arithmetic, self.descent, self.units_per_em, font_size, pixels),
    {
        scale_length(arithmetic, self.descent, self.units_per_em, font_size)
    }

    /// Returns the recommended additional space to add between lines of type in pixels.
    pub fn line_gap<A: Arithmetic>(&self, font_size: Pixels, arithmetic: &A) -> (pixels: Pixels)
        ensures
            is_scaled(arithmetic, self.line_gap, self.units_per_em, font_size, pixels),
    {
        scale_length(arithmetic, self.line_gap, self.units_per_em, font_size)
    }

    /// Returns the suggested position of the underline in pixels.
    pub fn underline_position<A: Arithmetic>(&self, font_size: Pixels, arithmetic: &A) -> (pixels: Pixels)
        ensures
            is_scaled(arithmetic, self.underline_position, self.units_per_em, font_size, pixels),
    {
        scale_length(arithmetic, self.underline_position, self.units_per_em, font_size)
    }

    /// Returns the suggested thickness of the underline in pixels.
    pub fn underline_thickness<A: Arithmetic>(&self, font_size: Pixels, arithmetic: &A) -> (pixels: Pixels)
        ensures
            is_scaled(arithmetic, self.underline_thickness, self.units_per_em, font_size, pixels),
    {
        scale_length(arithmetic, self.underline_thickness, self.units_per_em, font_size)
    }

    /// Returns the height of a capital letter measured from the baseline of the font in
    /// pixels.
    pub fn cap_height<A: Arithmetic>(&self, font_size: Pixels, arithmetic: &A) -> (pixels: Pixels)
        ensures
            is_scaled(arithmetic, self.cap_height, self.units_per_em, font_size, pixels),
    {
        scale_length(arithmetic, self.cap_height, self.units_per_em, font_size)
    }

    /// Returns the height of a lowercase x in pixels.
    pub fn x_height<A: Arithmetic>(&self, font_size: Pixels, arithmetic: &A) -> (pixels: Pixels)
        ensures
            is_scaled(arithmetic, self.x_height, self.units_per_em, font_size, pixels),
    {
        scale_length(arithmetic, self.x_height, self.units_per_em, font_size)
    }

    /// Returns the outer limits of the area that the font covers in pixels.
    pub fn bounding_box<A: Arithmetic>(&self, font_size: Pixels, arithmetic: &A) -> (pixels: Bounds<
        Pixels,
    >)
        ensures
            are_scaled_bounds(
                arithmetic,
                self.bounding_box,
                self.units_per_em,
                font_size,
                pixels,
            ),
    {
        scale_bounds(arithmetic, self.bounding_box, self.units_per_em, font_size)
    }
}

} // verus!
