//! Styled runs of text.

use crate::font::{font_items, plain_font, Font};
use crate::geometry::Pixels;
use crate::hashing::{hash_items, write_all, write_item, HashItem, HashWrite};
use crate::scalar::{law_equal_scalars_have_one_encoding, Scalar};
use vstd::prelude::*;

verus! {

/// The encoding of the number one, the alpha of an opaque color.
pub const OPAQUE_BITS: u32 = 0x3f80_0000;

/// A color as hue, saturation, lightness and opacity.
#[derive(Clone, Copy, Debug)]
pub struct Hsla {
    /// Hue.
    pub hue: Scalar,
    /// Saturation.
    pub saturation: Scalar,
    /// Lightness.
    pub lightness: Scalar,
    /// Opacity.
    pub alpha: Scalar,
}

/// A color as red, green, blue and opacity.
#[derive(Clone, Copy, Debug)]
pub struct Rgba {
    /// Red.
    pub red: Scalar,
    /// Green.
    pub green: Scalar,
    /// Blue.
    pub blue: Scalar,
    /// Opacity.
    pub alpha: Scalar,
}

/// A line under text.
#[derive(Clone, Copy, Debug)]
pub struct UnderlineStyle {
    /// How thick the line is.
    pub thickness: Pixels,
    /// The color, where it is not that of the text.
    pub color: Option<Hsla>,
    /// Whether the line is wavy.
    pub wavy: bool,
}

/// A line through text.
#[derive(Clone, Copy, Debug)]
pub struct StrikethroughStyle {
    /// How thick the line is.
    pub thickness: Pixels,
    /// The color, where it is not that of the text.
    pub color: Option<Hsla>,
}

/// A styled run of text.
#[derive(Debug)]
pub struct TextRun {
    /// A number of utf8 bytes
    pub len: usize,
    /// The font to use for this run.
    pub font: Font,
    /// The color
    pub color: Hsla,
    /// The background color (if any)
    pub background_color: Option<Hsla>,
    /// The underline style (if any)
    pub underline: Option<UnderlineStyle>,
    /// The strikethrough style (if any)
    pub strikethrough: Option<StrikethroughStyle>,
    /// Letter spacing applied between glyphs, in pixels.
    pub letter_spacing: Option<Pixels>,
}

/// Complete input for one backend-owned text document layout.
#[derive(Clone, Copy, Debug)]
pub struct TextLayoutRequest<'a> {
    /// UTF-8 source text.
    pub text: &'a str,
    /// Font size shared by all style runs.
    pub font_size: Pixels,
    /// Complete shaping and paint styles covering `text`.
    pub runs: &'a [TextRun],
    /// Optional soft-wrap width.
    pub wrap_width: Option<Pixels>,
    /// Optional maximum number of visual rows.
    pub line_clamp: Option<usize>,
}

/// How a run is painted, apart from its glyphs.
#[derive(Clone, Copy, Debug)]
pub struct PaintStyle {
    /// The color
    pub color: Hsla,
    /// The background color (if any)
    pub background_color: Option<Hsla>,
    /// The underline style (if any)
    pub underline: Option<UnderlineStyle>,
    /// The strikethrough style (if any)
    pub strikethrough: Option<StrikethroughStyle>,
}

impl Clone for TextRun {
    fn clone(&self) -> (run: TextRun)
        ensures
            run.font.identity() == self.font.identity(),
            run.font.weight == self.font.weight,
            run == (TextRun { font: run.font, ..*self }),
    {
        TextRun {
            len: self.len,
            font: self.font.clone(),
            color: self.color,
            background_color: self.background_color,
            underline: self.underline,
            strikethrough: self.strikethrough,
            letter_spacing: self.letter_spacing,
        }
    }
}

impl Default for Hsla {
    /// Opaque black.
    fn default() -> (color: Hsla)
        ensures
            color.hue.bits == 0,
            color.saturation.bits == 0,
            color.lightness.bits == 0,
            color.alpha.bits == OPAQUE_BITS,
    {
        Hsla {
            hue: Scalar::zero(),
            saturation: Scalar::zero(),
            lightness: Scalar::zero(),
            alpha: Scalar { bits: OPAQUE_BITS },
        }
    }
}

impl Default for TextRun {
    /// An empty run in the default font, in opaque black.
    fn default() -> (run: TextRun)
        ensures
            run.len == 0,
            run.font.identity() == plain_font(".SystemUIFont"@),
            run.font.weight.0.bits == 0x43c8_0000,
            run.color == (Hsla {
                hue: Scalar { bits: 0 },
                saturation: Scalar { bits: 0 },
                lightness: Scalar { bits: 0 },
                alpha: Scalar { bits: OPAQUE_BITS },
            }),
            run.background_color is None,
            run.underline is None,
            run.strikethrough is None,
            run.letter_spacing is None,
    {
        TextRun {
            len: 0,
            font: Font::default(),
            color: Hsla::default(),
            background_color: None,
            underline: None,
            strikethrough: None,
            letter_spacing: None,
        }
    }
}

impl From<&TextRun> for PaintStyle {
    fn from(run: &TextRun) -> (style: PaintStyle) {
        PaintStyle {
            color: run.color,
            background_color: run.background_color,
            underline: run.underline,
            strikethrough: run.strikethrough,
        }
    }
}

impl vstd::std_specs::convert::FromSpecImpl<&TextRun> for PaintStyle {
    open spec fn obeys_from_spec() -> bool {
        true
    }

    open spec fn from_spec(run: &TextRun) -> PaintStyle {
        PaintStyle {
            color: run.color,
            background_color: run.background_color,
            underline: run.underline,
            strikethrough: run.strikethrough,
        }
    }
}

impl Hsla {
    /// Whether two colors are equal, where `same_hue` tells whether their hues are one angle.
    pub open spec fn equals(self, other: Hsla, same_hue: bool) -> bool {
        &&& same_hue
        &&& self.saturation.equals(other.saturation)
        &&& self.lightness.equals(other.lightness)
        &&& self.alpha.equals(other.alpha)
    }
}

impl Rgba {
    /// Whether two colors are equal, number by number.
    pub open spec fn equals(self, other: Rgba) -> bool {
        &&& self.red.equals(other.red)
        &&& self.green.equals(other.green)
        &&& self.blue.equals(other.blue)
        &&& self.alpha.equals(other.alpha)
    }
}

/// Whether two optional colors are equal, where `same_hue` tells whether their hues are one
/// angle.
pub open spec fn optional_colors_equal(
    left: Option<Hsla>,
    right: Option<Hsla>,
    same_hue: bool,
) -> bool {
    match (left, right) {
        (None, None) => true,
        (Some(left), Some(right)) => left.equals(right, same_hue),
        _ => false,
    }
}

/// Whether two optional lengths are equal.
pub open spec fn optional_lengths_equal(left: Option<Pixels>, right: Option<Pixels>) -> bool {
    match (left, right) {
        (None, None) => true,
        (Some(left), Some(right)) => left.0.equals(right.0),
        _ => false,
    }
}

/// Whether two optional underlines are equal.
pub open spec fn underlines_equal(
    left: Option<UnderlineStyle>,
    right: Option<UnderlineStyle>,
    same_hue: bool,
) -> bool {
    match (left, right) {
        (None, None) => true,
        (Some(left), Some(right)) => {
            &&& left.thickness.0.equals(right.thickness.0)
            &&& optional_colors_equal(left.color, right.color, same_hue)
            &&& left.wavy == right.wavy
        },
        _ => false,
    }
}

/// Whether two optional strikethroughs are equal.
pub open spec fn strikethroughs_equal(
    left: Option<StrikethroughStyle>,
    right: Option<StrikethroughStyle>,
    same_hue: bool,
) -> bool {
    match (left, right) {
        (None, None) => true,
        (Some(left), Some(right)) => {
            &&& left.thickness.0.equals(right.thickness.0)
            &&& optional_colors_equal(left.color, right.color, same_hue)
        },
        _ => false,
    }
}

/// Whether the hues of two runs are one angle, color by color.
#[derive(Clone, Copy, Debug)]
pub struct SameHues {
    /// The colors of the text.
    pub text: bool,
    /// The backgrounds, where both runs have one.
    pub background: bool,
    /// The underlines' own colors, where both have one.
    pub underline: bool,
    /// The strikethroughs' own colors, where both have one.
    pub strikethrough: bool,
}

impl TextRun {
    /// Whether two runs are equal: numbers compare as numbers do, and hues as `hues` tells.
    pub open spec fn equals(&self, other: TextRun, hues: SameHues) -> bool {
        &&& self.len == other.len
        &&& self.font.equals(other.font)
        &&& self.color.equals(other.color, hues.text)
        &&& optional_colors_equal(
            self.background_color,
            other.background_color,
            hues.background,
        )
        &&& underlines_equal(self.underline, other.underline, hues.underline)
        &&& strikethroughs_equal(self.strikethrough, other.strikethrough, hues.strikethrough)
        &&& optional_lengths_equal(self.letter_spacing, other.letter_spacing)
    }
}

/// `same` is what `same_hue` tells of the hues of two colors, where there are two.
pub open spec fn is_hue_compared<G: Fn(Scalar, Scalar) -> bool>(
    same_hue: G,
    left: Option<Hsla>,
    right: Option<Hsla>,
    same: bool,
) -> bool {
    match (left, right) {
        (Some(left), Some(right)) => same_hue.ensures((left.hue, right.hue), same),
        _ => true,
    }
}

/// `hues` is what `same_hue` tells of the hues of two runs.
pub open spec fn are_hues_compared<G: Fn(Scalar, Scalar) -> bool>(
    same_hue: G,
    left: TextRun,
    right: TextRun,
    hues: SameHues,
) -> bool {
    &&& is_hue_compared(same_hue, Some(left.color), Some(right.color), hues.text)
    &&& is_hue_compared(same_hue, left.background_color, right.background_color, hues.background)
    &&& is_hue_compared(
        same_hue,
        underline_color(left.underline),
        underline_color(right.underline),
        hues.underline,
    )
    &&& is_hue_compared(
        same_hue,
        strikethrough_color(left.strikethrough),
        strikethrough_color(right.strikethrough),
        hues.strikethrough,
    )
}

/// `equal` tells whether two runs are equal, where `same_hue` compares hues.
pub open spec fn is_run_compared<G: Fn(Scalar, Scalar) -> bool>(
    same_hue: G,
    left: TextRun,
    right: TextRun,
    equal: bool,
) -> bool {
    exists|hues: SameHues|
        #[trigger] are_hues_compared(same_hue, left, right, hues) && equal == left.equals(
            right,
            hues,
        )
}

/// Compares the hues of two colors, where there are two.
fn compare_hues<G: Fn(Scalar, Scalar) -> bool>(
    same_hue: &G,
    left: Option<Hsla>,
    right: Option<Hsla>,
) -> (same: bool)
    requires
        forall|left: Scalar, right: Scalar| #[trigger] same_hue.requires((left, right)),
    ensures
        is_hue_compared(*same_hue, left, right, same),
{
    match (left, right) {
        (Some(left), Some(right)) => same_hue(left.hue, right.hue),
        _ => false,
    }
}

/// Whether two optional colors are equal.
fn same_optional_color(left: &Option<Hsla>, right: &Option<Hsla>, same_hue: bool) -> (same: bool)
    ensures
        same == optional_colors_equal(*left, *right, same_hue),
{
    match (left, right) {
        (None, None) => true,
        (Some(left), Some(right)) => same_hue && left.saturation == right.saturation
            && left.lightness == right.lightness && left.alpha == right.alpha,
        _ => false,
    }
}

/// The color that an underline has of its own.
fn color_of_underline(underline: &Option<UnderlineStyle>) -> (color: Option<Hsla>)
    ensures
        color == underline_color(*underline),
{
    match underline {
        Some(underline) => underline.color,
        None => None,
    }
}

/// The color that a strikethrough has of its own.
fn color_of_strikethrough(strikethrough: &Option<StrikethroughStyle>) -> (color: Option<Hsla>)
    ensures
        color == strikethrough_color(*strikethrough),
{
    match strikethrough {
        Some(strikethrough) => strikethrough.color,
        None => None,
    }
}

impl TextRun {
    /// Whether two runs are equal; `same_hue` tells whether two hues are one angle.
    pub fn same_as<G: Fn(Scalar, Scalar) -> bool>(&self, other: &TextRun, same_hue: G) -> (equal:
        bool)
        requires
            forall|left: Scalar, right: Scalar| #[trigger] same_hue.requires((left, right)),
        ensures
            is_run_compared(same_hue, *self, *other, equal),
    {
        let hues: SameHues = SameHues {
            text: compare_hues(&same_hue, Some(self.color), Some(other.color)),
            background: compare_hues(&same_hue, self.background_color, other.background_color),
            underline: compare_hues(
                &same_hue,
                color_of_underline(&self.underline),
                color_of_underline(&other.underline),
            ),
            strikethrough: compare_hues(
                &same_hue,
                color_of_strikethrough(&self.strikethrough),
                color_of_strikethrough(&other.strikethrough),
            ),
        };
        assert(are_hues_compared(same_hue, *self, *other, hues));
        let same_underline: bool = match (&self.underline, &other.underline) {
            (None, None) => true,
            (Some(left), Some(right)) => left.thickness.0 == right.thickness.0
                && same_optional_color(&left.color, &right.color, hues.underline) && left.wavy
                == right.wavy,
            _ => false,
        };
        let same_strikethrough: bool = match (&self.strikethrough, &other.strikethrough) {
            (None, None) => true,
            (Some(left), Some(right)) => left.thickness.0 == right.thickness.0
                && same_optional_color(&left.color, &right.color, hues.strikethrough),
            _ => false,
        };
        let same_spacing: bool = match (&self.letter_spacing, &other.letter_spacing) {
            (None, None) => true,
            (Some(left), Some(right)) => left.0 == right.0,
            _ => false,
        };
        self.len == other.len && self.font == other.font && same_optional_color(
            &Some(self.color),
            &Some(other.color),
            hues.text,
        ) && same_optional_color(
            &self.background_color,
            &other.background_color,
            hues.background,
        ) && same_underline && same_strikethrough && same_spacing
    }
}

/// The colors of a run, as red, green and blue.
#[derive(Clone, Copy, Debug)]
pub struct RunColors {
    /// The color of the text.
    pub text: Rgba,
    /// The background, where there is one.
    pub background: Option<Rgba>,
    /// The underline's own color, where it has one.
    pub underline: Option<Rgba>,
    /// The strikethrough's own color, where it has one.
    pub strikethrough: Option<Rgba>,
}

/// The color that an underline has of its own.
pub open spec fn underline_color(underline: Option<UnderlineStyle>) -> Option<Hsla> {
    match underline {
        Some(underline) => underline.color,
        None => None,
    }
}

/// The color that a strikethrough has of its own.
pub open spec fn strikethrough_color(strikethrough: Option<StrikethroughStyle>) -> Option<Hsla> {
    match strikethrough {
        Some(strikethrough) => strikethrough.color,
        None => None,
    }
}

/// `converted` is a color that `convert` makes of `color`, where there is one.
pub open spec fn is_converted<F: Fn(Hsla) -> Rgba>(
    convert: F,
    color: Option<Hsla>,
    converted: Option<Rgba>,
) -> bool {
    match (color, converted) {
        (None, None) => true,
        (Some(color), Some(converted)) => convert.ensures((color,), converted),
        _ => false,
    }
}

/// `colors` are the colors of `run`, as `convert` makes them.
pub open spec fn are_run_colors<F: Fn(Hsla) -> Rgba>(
    convert: F,
    run: TextRun,
    colors: RunColors,
) -> bool {
    &&& convert.ensures((run.color,), colors.text)
    &&& is_converted(convert, run.background_color, colors.background)
    &&& is_converted(convert, underline_color(run.underline), colors.underline)
    &&& is_converted(convert, strikethrough_color(run.strikethrough), colors.strikethrough)
}

/// What a color hashes. Both zeros hash alike.
pub open spec fn color_items(color: Rgba) -> Seq<HashItem> {
    seq![
        HashItem::Word(color.red.canonical()),
        HashItem::Word(color.green.canonical()),
        HashItem::Word(color.blue.canonical()),
        HashItem::Word(color.alpha.canonical()),
    ]
}

/// What an optional color hashes by itself.
pub open spec fn optional_color_items(color: Option<Rgba>) -> Seq<HashItem> {
    match color {
        Some(color) => color_items(color),
        None => seq![],
    }
}

/// What a background hashes: its color, and behind it whether there is one.
pub open spec fn background_items(color: Option<Rgba>) -> Seq<HashItem> {
    optional_color_items(color).push(HashItem::Flag(color is Some))
}

/// What an underline hashes, given its own color.
pub open spec fn underline_items(
    underline: Option<UnderlineStyle>,
    color: Option<Rgba>,
) -> Seq<HashItem> {
    match underline {
        Some(underline) => (seq![
            HashItem::Flag(true),
            HashItem::Word(underline.thickness.0.canonical()),
            HashItem::Flag(underline.color is Some),
        ] + optional_color_items(color)).push(HashItem::Flag(underline.wavy)),
        None => seq![HashItem::Flag(false)],
    }
}

/// What a strikethrough hashes, given its own color.
pub open spec fn strikethrough_items(
    strikethrough: Option<StrikethroughStyle>,
    color: Option<Rgba>,
) -> Seq<HashItem> {
    match strikethrough {
        Some(strikethrough) => seq![
            HashItem::Flag(true),
            HashItem::Word(strikethrough.thickness.0.canonical()),
            HashItem::Flag(strikethrough.color is Some),
        ] + optional_color_items(color),
        None => seq![HashItem::Flag(false)],
    }
}

/// What letter spacing hashes.
pub open spec fn spacing_items(spacing: Option<Pixels>) -> Seq<HashItem> {
    match spacing {
        Some(spacing) => seq![HashItem::Flag(true), HashItem::Word(spacing.0.canonical())],
        None => seq![HashItem::Flag(false)],
    }
}

/// What a run hashes, given its colors.
pub open spec fn run_items(run: TextRun, colors: RunColors) -> Seq<HashItem> {
    seq![HashItem::Length(run.len)] + font_items(run.font.identity(), run.font.weight)
        + color_items(colors.text) + background_items(colors.background) + underline_items(
        run.underline,
        colors.underline,
    ) + strikethrough_items(run.strikethrough, colors.strikethrough) + spacing_items(
        run.letter_spacing,
    )
}

/// `items` are what a run hashes, where `convert` turns its colors into red, green and blue.
pub open spec fn is_run_hashed<F: Fn(Hsla) -> Rgba>(
    convert: F,
    run: TextRun,
    items: Seq<HashItem>,
) -> bool {
    exists|colors: RunColors|
        #[trigger] are_run_colors(convert, run, colors) && items == run_items(run, colors)
}

/// Appends what a color hashes.
fn write_color(writes: &mut Vec<HashWrite>, color: Rgba)
    ensures
        hash_items(final(writes)@) == hash_items(old(writes)@) + color_items(color),
{
    write_item(writes, HashWrite::Word(color.red.canonical_bits()));
    write_item(writes, HashWrite::Word(color.green.canonical_bits()));
    write_item(writes, HashWrite::Word(color.blue.canonical_bits()));
    write_item(writes, HashWrite::Word(color.alpha.canonical_bits()));
    assert(hash_items(writes@) =~= hash_items(old(writes)@) + color_items(color));
}

/// Converts and appends an optional color.
fn write_optional_color<F: Fn(Hsla) -> Rgba>(
    writes: &mut Vec<HashWrite>,
    color: Option<Hsla>,
    convert: &F,
) -> (converted: Option<Rgba>)
    requires
        forall|color: Hsla| #[trigger] convert.requires((color,)),
    ensures
        is_converted(*convert, color, converted),
        hash_items(final(writes)@) == hash_items(old(writes)@) + optional_color_items(converted),
{
    match color {
        Some(color) => {
            let converted: Rgba = convert(color);
            write_color(writes, converted);
            Some(converted)
        },
        None => {
            assert(hash_items(writes@) =~= hash_items(old(writes)@) + seq![]);
            None
        },
    }
}

/// Appends what a background hashes.
fn write_background<F: Fn(Hsla) -> Rgba>(
    writes: &mut Vec<HashWrite>,
    color: Option<Hsla>,
    convert: &F,
) -> (converted: Option<Rgba>)
    requires
        forall|color: Hsla| #[trigger] convert.requires((color,)),
    ensures
        is_converted(*convert, color, converted),
        hash_items(final(writes)@) == hash_items(old(writes)@) + background_items(converted),
{
    let converted: Option<Rgba> = write_optional_color(writes, color, convert);
    write_item(writes, HashWrite::Flag(color.is_some()));
    assert(hash_items(writes@) =~= hash_items(old(writes)@) + background_items(converted));
    converted
}

/// Appends what an underline hashes.
fn write_underline<F: Fn(Hsla) -> Rgba>(
    writes: &mut Vec<HashWrite>,
    underline: Option<UnderlineStyle>,
    convert: &F,
) -> (converted: Option<Rgba>)
    requires
        forall|color: Hsla| #[trigger] convert.requires((color,)),
    ensures
        is_converted(*convert, underline_color(underline), converted),
        hash_items(final(writes)@) == hash_items(old(writes)@) + underline_items(
            underline,
            converted,
        ),
{
    write_item(writes, HashWrite::Flag(underline.is_some()));
    let converted: Option<Rgba> = match underline {
        Some(underline) => {
            write_item(writes, HashWrite::Word(underline.thickness.0.canonical_bits()));
            write_item(writes, HashWrite::Flag(underline.color.is_some()));
            let converted: Option<Rgba> = write_optional_color(writes, underline.color, convert);
            write_item(writes, HashWrite::Flag(underline.wavy));
            converted
        },
        None => None,
    };
    assert(hash_items(writes@) =~= hash_items(old(writes)@) + underline_items(
        underline,
        converted,
    ));
    converted
}

/// Appends what a strikethrough hashes.
fn write_strikethrough<F: Fn(Hsla) -> Rgba>(
    writes: &mut Vec<HashWrite>,
    strikethrough: Option<StrikethroughStyle>,
    convert: &F,
) -> (converted: Option<Rgba>)
    requires
        forall|color: Hsla| #[trigger] convert.requires((color,)),
    ensures
        is_converted(*convert, strikethrough_color(strikethrough), converted),
        hash_items(final(writes)@) == hash_items(old(writes)@) + strikethrough_items(
            strikethrough,
            converted,
        ),
{
    write_item(writes, HashWrite::Flag(strikethrough.is_some()));
    let converted: Option<Rgba> = match strikethrough {
        Some(strikethrough) => {
            write_item(writes, HashWrite::Word(strikethrough.thickness.0.canonical_bits()));
            write_item(writes, HashWrite::Flag(strikethrough.color.is_some()));
            write_optional_color(writes, strikethrough.color, convert)
        },
        None => None,
    };
    assert(hash_items(writes@) =~= hash_items(old(writes)@) + strikethrough_items(
        strikethrough,
        converted,
    ));
    converted
}

/// Appends what letter spacing hashes.
fn write_spacing(writes: &mut Vec<HashWrite>, spacing: Option<Pixels>)
    ensures
        hash_items(final(writes)@) == hash_items(old(writes)@) + spacing_items(spacing),
{
    write_item(writes, HashWrite::Flag(spacing.is_some()));
    if let Some(spacing) = spacing {
        write_item(writes, HashWrite::Word(spacing.0.canonical_bits()));
    }
    assert(hash_items(writes@) =~= hash_items(old(writes)@) + spacing_items(spacing));
}

impl TextRun {
    /// The items that the run hashes, in order; `convert` turns its colors into red, green and
    /// blue.
    pub fn hash_writes<F: Fn(Hsla) -> Rgba>(&self, convert: F) -> (writes: Vec<HashWrite>)
        requires
            forall|color: Hsla| #[trigger] convert.requires((color,)),
        ensures
            is_run_hashed(convert, *self, hash_items(writes@)),
    {
        let mut writes: Vec<HashWrite> = Vec::new();
        write_item(&mut writes, HashWrite::Length(self.len));
        assert(hash_items(writes@) =~= seq![HashItem::Length(self.len)]);
        write_all(&mut writes, self.font.hash_writes());
        let text: Rgba = convert(self.color);
        write_color(&mut writes, text);
        let background: Option<Rgba> = write_background(
            &mut writes,
            self.background_color,
            &convert,
        );
        let underline: Option<Rgba> = write_underline(&mut writes, self.underline, &convert);
        let strikethrough: Option<Rgba> = write_strikethrough(
            &mut writes,
            self.strikethrough,
            &convert,
        );
        write_spacing(&mut writes, self.letter_spacing);
        proof {
            let colors = RunColors { text, background, underline, strikethrough };
            assert(are_run_colors(convert, *self, colors));
            assert(hash_items(writes@) == run_items(*self, colors));
        }
        writes
    }
}

/// Whether two optional colors are equal, number by number.
pub open spec fn optional_rgba_equal(left: Option<Rgba>, right: Option<Rgba>) -> bool {
    match (left, right) {
        (None, None) => true,
        (Some(left), Some(right)) => left.equals(right),
        _ => false,
    }
}

/// Equal colors hash the same items.
proof fn lemma_equal_colors_hash_alike(left: Option<Rgba>, right: Option<Rgba>)
    requires
        optional_rgba_equal(left, right),
    ensures
        optional_color_items(left) == optional_color_items(right),
        background_items(left) == background_items(right),
{
    if left is Some {
        law_equal_scalars_have_one_encoding(left->0.red, right->0.red);
        law_equal_scalars_have_one_encoding(left->0.green, right->0.green);
        law_equal_scalars_have_one_encoding(left->0.blue, right->0.blue);
        law_equal_scalars_have_one_encoding(left->0.alpha, right->0.alpha);
    }
}

/// Equal underlines hash the same items.
proof fn lemma_equal_underlines_hash_alike(
    left: Option<UnderlineStyle>,
    right: Option<UnderlineStyle>,
    same_hue: bool,
    left_color: Option<Rgba>,
    right_color: Option<Rgba>,
)
    requires
        underlines_equal(left, right, same_hue),
        optional_rgba_equal(left_color, right_color),
    ensures
        underline_items(left, left_color) == underline_items(right, right_color),
{
    lemma_equal_colors_hash_alike(left_color, right_color);
    if left is Some {
        law_equal_scalars_have_one_encoding(left->0.thickness.0, right->0.thickness.0);
    }
}

/// Equal strikethroughs hash the same items.
proof fn lemma_equal_strikethroughs_hash_alike(
    left: Option<StrikethroughStyle>,
    right: Option<StrikethroughStyle>,
    same_hue: bool,
    left_color: Option<Rgba>,
    right_color: Option<Rgba>,
)
    requires
        strikethroughs_equal(left, right, same_hue),
        optional_rgba_equal(left_color, right_color),
    ensures
        strikethrough_items(left, left_color) == strikethrough_items(right, right_color),
{
    lemma_equal_colors_hash_alike(left_color, right_color);
    if left is Some {
        law_equal_scalars_have_one_encoding(left->0.thickness.0, right->0.thickness.0);
    }
}

/// Equal letter spacings hash the same items.
proof fn lemma_equal_spacings_hash_alike(left: Option<Pixels>, right: Option<Pixels>)
    requires
        optional_lengths_equal(left, right),
    ensures
        spacing_items(left) == spacing_items(right),
{
    match (left, right) {
        (Some(left), Some(right)) => law_equal_scalars_have_one_encoding(left.0, right.0),
        _ => {},
    }
}

/// Equal colors convert to equal ones, where `same_hue` compares hues.
pub open spec fn converts_alike<F: Fn(Hsla) -> Rgba, G: Fn(Scalar, Scalar) -> bool>(
    convert: F,
    same_hue: G,
) -> bool {
    forall|left: Hsla, right: Hsla, left_converted: Rgba, right_converted: Rgba|
        {
            &&& #[trigger] convert.ensures((left,), left_converted)
            &&& #[trigger] convert.ensures((right,), right_converted)
            &&& same_hue.ensures((left.hue, right.hue), true)
            &&& left.equals(right, true)
        } ==> left_converted.equals(right_converted)
}

/// Equal runs hash the same items, as long as their weights hash alike and equal colors convert
/// to equal ones.
///
/// Two weights of zero with different signs are equal and do not hash alike: weights hash their
/// exact encoding.
pub proof fn law_equal_runs_hash_alike<F: Fn(Hsla) -> Rgba, G: Fn(Scalar, Scalar) -> bool>(
    convert: F,
    same_hue: G,
    left: TextRun,
    right: TextRun,
    left_items: Seq<HashItem>,
    right_items: Seq<HashItem>,
)
    requires
        converts_alike(convert, same_hue),
        is_run_compared(same_hue, left, right, true),
        left.font.weight.0.bits == right.font.weight.0.bits,
        is_run_hashed(convert, left, left_items),
        is_run_hashed(convert, right, right_items),
    ensures
        left_items == right_items,
{
    let hues = choose|hues: SameHues|
        #[trigger] are_hues_compared(same_hue, left, right, hues) && left.equals(right, hues);
    let left_colors = choose|colors: RunColors|
        #[trigger] are_run_colors(convert, left, colors) && left_items == run_items(left, colors);
    let right_colors = choose|colors: RunColors|
        #[trigger] are_run_colors(convert, right, colors) && right_items == run_items(
            right,
            colors,
        );
    lemma_equal_colors_hash_alike(Some(left_colors.text), Some(right_colors.text));
    lemma_equal_colors_hash_alike(left_colors.background, right_colors.background);
    lemma_equal_underlines_hash_alike(
        left.underline,
        right.underline,
        hues.underline,
        left_colors.underline,
        right_colors.underline,
    );
    lemma_equal_strikethroughs_hash_alike(
        left.strikethrough,
        right.strikethrough,
        hues.strikethrough,
        left_colors.strikethrough,
        right_colors.strikethrough,
    );
    lemma_equal_spacings_hash_alike(left.letter_spacing, right.letter_spacing);
    assert(optional_color_items(Some(left_colors.text)) == color_items(left_colors.text));
}

} // verus!
