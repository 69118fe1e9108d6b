//! What holds of everything that is told apart: glyph parameters, fonts and runs, as values, as
//! cache keys and as what they hash.

use crate::blob::FontSynthesis;
use crate::design::FontVariation;
use crate::font::{
    feature_items, features_view, font_items, name_items, names_view, Font, FontIdentity,
    FontStyle, FontWeight,
};
use crate::geometry::Pixels;
use crate::hashing::HashItem;
use crate::scalar::Scalar;
use crate::text_run::{
    are_hues_compared, are_run_colors, background_items, color_items, is_run_compared,
    is_run_hashed, optional_color_items, run_items, spacing_items, strikethrough_items,
    underline_items, Hsla, Rgba, RunColors, SameHues, StrikethroughStyle, TextRun, UnderlineStyle,
};
use crate::text_system::RenderGlyphParams;
use vstd::prelude::*;

verus! {

/// Whether two encodings are of one number: they are the same, or both are zero, and neither is no
/// number.
pub open spec fn one_number(left: Scalar, right: Scalar) -> bool {
    &&& left.bits == right.bits || (left.bits % 0x8000_0000 == 0 && right.bits % 0x8000_0000 == 0)
    &&& left.bits % 0x8000_0000 <= 0x7f80_0000
    &&& right.bits % 0x8000_0000 <= 0x7f80_0000
}

/// Two glyph parameters share a cache entry exactly if every one of them is the same, numbers by
/// their encoding, and both numbers are numbers.
pub proof fn law_glyph_keys_hold_every_parameter(left: RenderGlyphParams, right: RenderGlyphParams)
    ensures
        left.same_key(right) <==> {
            &&& left.font_id.0 == right.font_id.0
            &&& left.glyph_id.0 == right.glyph_id.0
            &&& left.font_size.0.bits == right.font_size.0.bits
            &&& left.subpixel_variant.x == right.subpixel_variant.x
            &&& left.subpixel_variant.y == right.subpixel_variant.y
            &&& left.scale_factor.bits == right.scale_factor.bits
            &&& left.is_emoji == right.is_emoji
            &&& left.subpixel_rendering == right.subpixel_rendering
            &&& left.font_size.0.bits % 0x8000_0000 <= 0x7f80_0000
            &&& left.scale_factor.bits % 0x8000_0000 <= 0x7f80_0000
        },
{
    if left.same_key(right) {
        law_glyph_hashes_hold_every_parameter(left, right);
    }
}

/// Two glyph parameters are equal exactly if every one of them is, numbers as numbers.
pub proof fn law_equality_of_glyph_parameters(left: RenderGlyphParams, right: RenderGlyphParams)
    ensures
        left.equals(right) <==> {
            &&& left.font_id.0 == right.font_id.0
            &&& left.glyph_id.0 == right.glyph_id.0
            &&& one_number(left.font_size.0, right.font_size.0)
            &&& left.subpixel_variant.x == right.subpixel_variant.x
            &&& left.subpixel_variant.y == right.subpixel_variant.y
            &&& one_number(left.scale_factor, right.scale_factor)
            &&& left.is_emoji == right.is_emoji
            &&& left.subpixel_rendering == right.subpixel_rendering
        },
{
    if left.subpixel_variant.x == right.subpixel_variant.x && left.subpixel_variant.y
        == right.subpixel_variant.y {
        assert(left.subpixel_variant == right.subpixel_variant);
    }
}

/// Glyph parameters hash the same items exactly if every one of them has one encoding.
pub proof fn law_glyph_hashes_hold_every_parameter(
    left: RenderGlyphParams,
    right: RenderGlyphParams,
)
    ensures
        left.items() == right.items() <==> {
            &&& left.font_id.0 == right.font_id.0
            &&& left.glyph_id.0 == right.glyph_id.0
            &&& left.font_size.0.bits == right.font_size.0.bits
            &&& left.subpixel_variant.x == right.subpixel_variant.x
            &&& left.subpixel_variant.y == right.subpixel_variant.y
            &&& left.scale_factor.bits == right.scale_factor.bits
            &&& left.is_emoji == right.is_emoji
            &&& left.subpixel_rendering == right.subpixel_rendering
        },
{
    if left.items() == right.items() {
        assert(left.items()[0] == right.items()[0]);
        assert(left.items()[1] == right.items()[1]);
        assert(left.items()[2] == right.items()[2]);
        assert(left.items()[3] == right.items()[3]);
        assert(left.items()[4] == right.items()[4]);
        assert(left.items()[5] == right.items()[5]);
        assert(left.items()[6] == right.items()[6]);
        assert(left.items()[7] == right.items()[7]);
    }
}

/// Whether two lists of features hold the same tags and values in the same order.
pub open spec fn same_feature_lists(left: Seq<(String, u32)>, right: Seq<(String, u32)>) -> bool {
    &&& left.len() == right.len()
    &&& forall|at: int|
        0 <= at < left.len() ==> (#[trigger] left[at]).0@ == right[at].0@ && left[at].1
            == right[at].1
}

/// Whether two lists hold the same names in the same order.
pub open spec fn same_name_lists(left: Seq<String>, right: Seq<String>) -> bool {
    &&& left.len() == right.len()
    &&& forall|at: int| 0 <= at < left.len() ==> (#[trigger] left[at])@ == right[at]@
}

/// Whether two fonts have the same family, features, fallbacks and style.
pub open spec fn same_descriptions(left: Font, right: Font) -> bool {
    &&& left.family@ == right.family@
    &&& same_feature_lists(left.features.entries@, right.features.entries@)
    &&& match (left.fallbacks, right.fallbacks) {
        (None, None) => true,
        (Some(left), Some(right)) => same_name_lists(left.families@, right.families@),
        _ => false,
    }
    &&& left.style == right.style
}

/// Fonts have one identity exactly if they have the same family, features, fallbacks and style.
pub proof fn law_identities_of_fonts(left: Font, right: Font)
    ensures
        left.identity() == right.identity() <==> same_descriptions(left, right),
{
    let left_features = features_view(left.features.entries@);
    let right_features = features_view(right.features.entries@);
    if left.identity() == right.identity() {
        lemma_same_features(left.features.entries@, right.features.entries@);
        match (left.fallbacks, right.fallbacks) {
            (Some(left), Some(right)) => {
                lemma_same_names(left.families@, right.families@);
            },
            _ => {},
        }
    }
    if same_descriptions(left, right) {
        assert(left_features =~= right_features);
        match (left.fallbacks, right.fallbacks) {
            (Some(left), Some(right)) => {
                assert(names_view(left.families@) =~= names_view(right.families@));
            },
            _ => {},
        }
    }
}

proof fn lemma_same_features(left: Seq<(String, u32)>, right: Seq<(String, u32)>)
    requires
        features_view(left) == features_view(right),
    ensures
        same_feature_lists(left, right),
{
    assert(left.len() == features_view(left).len());
    assert(right.len() == features_view(right).len());
    assert forall|at: int| 0 <= at < left.len() implies (#[trigger] left[at]).0@ == right[at].0@
        && left[at].1 == right[at].1 by {
        assert(features_view(left)[at] == features_view(right)[at]);
    }
}

proof fn lemma_same_names(left: Seq<String>, right: Seq<String>)
    requires
        names_view(left) == names_view(right),
    ensures
        same_name_lists(left, right),
{
    assert(left.len() == names_view(left).len());
    assert(right.len() == names_view(right).len());
    assert forall|at: int| 0 <= at < left.len() implies (#[trigger] left[at])@ == right[at]@ by {
        assert(names_view(left)[at] == names_view(right)[at]);
    }
}

/// Two fonts are equal exactly if they have the same family, features, fallbacks and style, and
/// weights that are one number. They share a cache entry exactly if their weights have one
/// encoding on top of that.
pub proof fn law_fonts_are_told_apart_by_every_property(left: Font, right: Font)
    ensures
        left.equals(right) <==> same_descriptions(left, right) && one_number(
            left.weight.0,
            right.weight.0,
        ),
        left.same_key(right) <==> same_descriptions(left, right) && left.weight.0.bits
            == right.weight.0.bits && left.weight.0.bits % 0x8000_0000 <= 0x7f80_0000,
{
    law_identities_of_fonts(left, right);
}

/// Two lists of features that hash the same items are the same.
proof fn lemma_feature_items(left: Seq<(Seq<char>, u32)>, right: Seq<(Seq<char>, u32)>)
    ensures
        feature_items(left).len() == 2 * left.len(),
        left.len() == right.len() && feature_items(left) == feature_items(right) ==> left == right,
    decreases left.len(),
{
    if left.len() > 0 {
        let shorter = left.drop_last();
        if right.len() > 0 {
            lemma_feature_items(shorter, right.drop_last());
            lemma_feature_lens(right.drop_last());
        } else {
            lemma_feature_items(shorter, right);
        }
        if left.len() == right.len() && feature_items(left) == feature_items(right) {
            let count = left.len();
            let left_items = feature_items(left);
            let right_items = feature_items(right);
            assert(left_items[2 * count - 2] == HashItem::Text(left.last().0));
            assert(left_items[2 * count - 1] == HashItem::Word(left.last().1));
            assert(right_items[2 * count - 2] == HashItem::Text(right.last().0));
            assert(right_items[2 * count - 1] == HashItem::Word(right.last().1));
            assert(left_items.take(2 * count - 2) =~= feature_items(shorter));
            assert(right_items.take(2 * count - 2) =~= feature_items(right.drop_last()));
            assert(left =~= shorter.push(left.last()));
            assert(right =~= right.drop_last().push(right.last()));
        }
    } else if right.len() == 0 {
        assert(left =~= right);
    }
}

/// A feature hashes two items.
proof fn lemma_feature_lens(features: Seq<(Seq<char>, u32)>)
    ensures
        feature_items(features).len() == 2 * features.len(),
    decreases features.len(),
{
    if features.len() > 0 {
        lemma_feature_lens(features.drop_last());
    }
}

/// Two lists of names that hash the same items are the same.
proof fn lemma_name_items(left: Seq<Seq<char>>, right: Seq<Seq<char>>)
    requires
        name_items(left) == name_items(right),
    ensures
        left == right,
{
    assert(left.len() == name_items(left).len());
    assert(right.len() == name_items(right).len());
    assert forall|at: int| 0 <= at < left.len() implies left[at] == right[at] by {
        assert(name_items(left)[at] == HashItem::Text(left[at]));
        assert(name_items(right)[at] == HashItem::Text(right[at]));
    }
    assert(left =~= right);
}

/// What the fallbacks of a font hash.
pub open spec fn fallback_items(fallbacks: Option<Seq<Seq<char>>>) -> Seq<HashItem> {
    match fallbacks {
        None => seq![HashItem::Variant(0)],
        Some(families) => seq![HashItem::Variant(1), HashItem::Length(families.len() as usize)]
            + name_items(families),
    }
}

/// Fonts that hash the same items have the same family, features, fallbacks and style, and weights
/// with one encoding: no property of a font is left out of its hash.
///
/// `left_rest` and `right_rest` are what is hashed behind them.
#[verifier::spinoff_prover]
#[verifier::rlimit(40)]
pub proof fn law_font_hashes_hold_every_property(
    left: FontIdentity,
    left_weight: FontWeight,
    left_rest: Seq<HashItem>,
    right: FontIdentity,
    right_weight: FontWeight,
    right_rest: Seq<HashItem>,
)
    requires
        left.features.len() <= usize::MAX,
        right.features.len() <= usize::MAX,
        left.fallbacks is Some ==> left.fallbacks->0.len() <= usize::MAX,
        right.fallbacks is Some ==> right.fallbacks->0.len() <= usize::MAX,
        font_items(left, left_weight) + left_rest == font_items(right, right_weight) + right_rest,
    ensures
        left.family == right.family,
        left.features == right.features,
        left.fallbacks == right.fallbacks,
        left.style == right.style,
        left_weight.0.bits == right_weight.0.bits,
        left_rest == right_rest,
{
    let left_items = font_items(left, left_weight) + left_rest;
    let right_items = font_items(right, right_weight) + right_rest;
    let left_features = feature_items(left.features);
    let right_features = feature_items(right.features);
    lemma_feature_lens(left.features);
    lemma_feature_lens(right.features);
    assert(left_items[0] == HashItem::Text(left.family));
    assert(right_items[0] == HashItem::Text(right.family));
    assert(left_items[1] == HashItem::Length(left.features.len() as usize));
    assert(right_items[1] == HashItem::Length(right.features.len() as usize));
    assert(left.features.len() == right.features.len());
    let count = 2 * left.features.len();
    assert(left_items.subrange(2, 2 + count as int) =~= left_features);
    assert(right_items.subrange(2, 2 + count as int) =~= right_features);
    lemma_feature_items(left.features, right.features);
    let left_fallbacks = fallback_items(left.fallbacks);
    let right_fallbacks = fallback_items(right.fallbacks);
    let start = 2 + count as int;
    assert(left_items[start] == left_fallbacks[0]);
    assert(right_items[start] == right_fallbacks[0]);
    if left.fallbacks is Some {
        let left_names = left.fallbacks->0;
        let right_names = right.fallbacks->0;
        assert(left_items[start + 1] == left_fallbacks[1]);
        assert(right_items[start + 1] == right_fallbacks[1]);
        assert(left_names.len() == right_names.len());
        assert(name_items(left_names).len() == left_names.len());
        assert(name_items(right_names).len() == right_names.len());
        assert(left_items.subrange(start + 2, start + 2 + left_names.len() as int) =~= name_items(
            left_names,
        ));
        assert(right_items.subrange(start + 2, start + 2 + left_names.len() as int) =~= name_items(
            right_names,
        ));
        lemma_name_items(left_names, right_names);
    }
    let end = start + left_fallbacks.len();
    assert(left_fallbacks.len() == right_fallbacks.len());
    assert(left_items[end] == HashItem::Word(left_weight.0.bits));
    assert(right_items[end] == HashItem::Word(right_weight.0.bits));
    assert(left_items[end + 1] == HashItem::Variant(left.style.position()));
    assert(right_items[end + 1] == HashItem::Variant(right.style.position()));
    assert(left_items.skip(end + 2) =~= left_rest);
    assert(right_items.skip(end + 2) =~= right_rest);
}

/// Two variation coordinates are equal exactly if they have one tag and values that are one
/// number.
pub proof fn law_equality_of_variations(left: FontVariation, right: FontVariation)
    ensures
        left.equals(right) <==> left.tag == right.tag && one_number(left.value, right.value),
{
}

/// Two stylings are equal exactly if both are heavier or neither is, and both have skews that are
/// one number or neither has one.
pub proof fn law_equality_of_stylings(left: FontSynthesis, right: FontSynthesis)
    ensures
        left.equals(right) <==> {
            &&& left.embolden == right.embolden
            &&& left.skew_degrees is Some <==> right.skew_degrees is Some
            &&& left.skew_degrees is Some && right.skew_degrees is Some ==> one_number(
                left.skew_degrees->0,
                right.skew_degrees->0,
            )
        },
{
}

/// Whether two colors agree but for their hues, which `same_hue` compares.
pub open spec fn same_colors<G: Fn(Scalar, Scalar) -> bool>(
    same_hue: G,
    left: Hsla,
    right: Hsla,
) -> bool {
    &&& same_hue.ensures((left.hue, right.hue), true)
    &&& one_number(left.saturation, right.saturation)
    &&& one_number(left.lightness, right.lightness)
    &&& one_number(left.alpha, right.alpha)
}

/// Runs that compare equal have the same length, the same font, and the same colors, lines and
/// spacing, property by property.
#[verifier::spinoff_prover]
#[verifier::rlimit(40)]
pub proof fn law_equal_runs_agree_in_every_property<G: Fn(Scalar, Scalar) -> bool>(
    same_hue: G,
    left: TextRun,
    right: TextRun,
)
    requires
        is_run_compared(same_hue, left, right, true),
    ensures
        left.len == right.len,
        same_descriptions(left.font, right.font),
        one_number(left.font.weight.0, right.font.weight.0),
        same_colors(same_hue, left.color, right.color),
        left.background_color is Some <==> right.background_color is Some,
        left.background_color is Some ==> same_colors(
            same_hue,
            left.background_color->0,
            right.background_color->0,
        ),
        left.underline is Some <==> right.underline is Some,
        left.underline is Some ==> {
            &&& one_number(left.underline->0.thickness.0, right.underline->0.thickness.0)
            &&& left.underline->0.wavy == right.underline->0.wavy
            &&& left.underline->0.color is Some <==> right.underline->0.color is Some
            &&& left.underline->0.color is Some ==> same_colors(
                same_hue,
                left.underline->0.color->0,
                right.underline->0.color->0,
            )
        },
        left.strikethrough is Some <==> right.strikethrough is Some,
        left.strikethrough is Some ==> {
            &&& one_number(left.strikethrough->0.thickness.0, right.strikethrough->0.thickness.0)
            &&& left.strikethrough->0.color is Some <==> right.strikethrough->0.color is Some
            &&& left.strikethrough->0.color is Some ==> same_colors(
                same_hue,
                left.strikethrough->0.color->0,
                right.strikethrough->0.color->0,
            )
        },
        !differ_in_length(left.letter_spacing, right.letter_spacing),
{
    let hues = choose|hues: SameHues|
        #[trigger] are_hues_compared(same_hue, left, right, hues) && left.equals(right, hues);
    law_fonts_are_told_apart_by_every_property(left.font, right.font);
}

/// Runs that compare unequal differ in one of these.
#[verifier::spinoff_prover]
#[verifier::rlimit(40)]
pub proof fn law_unequal_runs_differ_in_some_property<G: Fn(Scalar, Scalar) -> bool>(
    same_hue: G,
    left: TextRun,
    right: TextRun,
)
    requires
        is_run_compared(same_hue, left, right, false),
    ensures
        ({
            ||| left.len != right.len
            ||| !same_descriptions(left.font, right.font)
            ||| !one_number(left.font.weight.0, right.font.weight.0)
            ||| differ_in_color(same_hue, Some(left.color), Some(right.color))
            ||| differ_in_color(same_hue, left.background_color, right.background_color)
            ||| differ_in_underline(left.underline, right.underline)
            ||| differ_in_strikethrough(left.strikethrough, right.strikethrough)
            ||| (left.underline is Some && right.underline is Some && differ_in_color(
                same_hue,
                left.underline->0.color,
                right.underline->0.color,
            ))
            ||| (left.strikethrough is Some && right.strikethrough is Some && differ_in_color(
                same_hue,
                left.strikethrough->0.color,
                right.strikethrough->0.color,
            ))
            ||| differ_in_length(left.letter_spacing, right.letter_spacing)
        }),
{
    let hues = choose|hues: SameHues|
        #[trigger] are_hues_compared(same_hue, left, right, hues) && !left.equals(right, hues);
    law_fonts_are_told_apart_by_every_property(left.font, right.font);
}

/// Whether one of two colors is missing, or they differ in a number, or `same_hue` may tell their
/// hues apart.
pub open spec fn differ_in_color<G: Fn(Scalar, Scalar) -> bool>(
    same_hue: G,
    left: Option<Hsla>,
    right: Option<Hsla>,
) -> bool {
    match (left, right) {
        (None, None) => false,
        (Some(left), Some(right)) => {
            ||| same_hue.ensures((left.hue, right.hue), false)
            ||| !one_number(left.saturation, right.saturation)
            ||| !one_number(left.lightness, right.lightness)
            ||| !one_number(left.alpha, right.alpha)
        },
        _ => true,
    }
}

/// Whether one of two lengths is missing, or they are not one number.
pub open spec fn differ_in_length(left: Option<Pixels>, right: Option<Pixels>) -> bool {
    match (left, right) {
        (None, None) => false,
        (Some(left), Some(right)) => !one_number(left.0, right.0),
        _ => true,
    }
}

/// Whether one of two underlines is missing, or they differ apart from their colors.
pub open spec fn differ_in_underline(
    left: Option<UnderlineStyle>,
    right: Option<UnderlineStyle>,
) -> bool {
    match (left, right) {
        (None, None) => false,
        (Some(left), Some(right)) => !one_number(left.thickness.0, right.thickness.0) || left.wavy
            != right.wavy,
        _ => true,
    }
}

/// Whether one of two strikethroughs is missing, or they differ apart from their colors.
pub open spec fn differ_in_strikethrough(
    left: Option<StrikethroughStyle>,
    right: Option<StrikethroughStyle>,
) -> bool {
    match (left, right) {
        (None, None) => false,
        (Some(left), Some(right)) => !one_number(left.thickness.0, right.thickness.0),
        _ => true,
    }
}

/// The word that a number hashes: its encoding, and the positive one for zero.
pub open spec fn hashed_word(value: Scalar) -> HashItem {
    HashItem::Word(
        if value.bits == 0x8000_0000 {
            0
        } else {
            value.bits
        },
    )
}

/// The words of a color's numbers: red, green, blue and alpha.
pub open spec fn hashed_color(color: Rgba) -> Seq<HashItem> {
    seq![
        hashed_word(color.red),
        hashed_word(color.green),
        hashed_word(color.blue),
        hashed_word(color.alpha),
    ]
}

/// The words of a color, if there is one.
pub open spec fn hashed_optional_color(color: Option<Rgba>) -> Seq<HashItem> {
    match color {
        Some(color) => hashed_color(color),
        None => Seq::empty(),
    }
}

/// The words of a background, and behind them whether there is one.
pub open spec fn hashed_background(color: Option<Rgba>) -> Seq<HashItem> {
    hashed_optional_color(color) + seq![HashItem::Flag(color is Some)]
}

/// Whether there is an underline, how thick it is, whether it has a color of its own, that color,
/// and whether it is wavy.
pub open spec fn hashed_underline(
    underline: Option<UnderlineStyle>,
    color: Option<Rgba>,
) -> Seq<HashItem> {
    match underline {
        None => seq![HashItem::Flag(false)],
        Some(underline) => seq![
            HashItem::Flag(true),
            hashed_word(underline.thickness.0),
            HashItem::Flag(underline.color is Some),
        ] + hashed_optional_color(color) + seq![HashItem::Flag(underline.wavy)],
    }
}

/// Whether there is a strikethrough, how thick it is, whether it has a color of its own, and that
/// color.
pub open spec fn hashed_strikethrough(
    strikethrough: Option<StrikethroughStyle>,
    color: Option<Rgba>,
) -> Seq<HashItem> {
    match strikethrough {
        None => seq![HashItem::Flag(false)],
        Some(strikethrough) => seq![
            HashItem::Flag(true),
            hashed_word(strikethrough.thickness.0),
            HashItem::Flag(strikethrough.color is Some),
        ] + hashed_optional_color(color),
    }
}

/// Whether there is letter spacing, and how much.
pub open spec fn hashed_spacing(spacing: Option<Pixels>) -> Seq<HashItem> {
    match spacing {
        None => seq![HashItem::Flag(false)],
        Some(spacing) => seq![HashItem::Flag(true), hashed_word(spacing.0)],
    }
}

/// The parts of a run hash whether they are there, and all of their numbers.
#[verifier::spinoff_prover]
#[verifier::rlimit(40)]
pub proof fn law_parts_of_runs_hash_every_property(run: TextRun, colors: RunColors)
    ensures
        color_items(colors.text) == hashed_color(colors.text),
        background_items(colors.background) == hashed_background(colors.background),
        underline_items(run.underline, colors.underline) == hashed_underline(
            run.underline,
            colors.underline,
        ),
        strikethrough_items(run.strikethrough, colors.strikethrough) == hashed_strikethrough(
            run.strikethrough,
            colors.strikethrough,
        ),
        spacing_items(run.letter_spacing) == hashed_spacing(run.letter_spacing),
{
    assert(color_items(colors.text) =~= hashed_color(colors.text));
    lemma_optional_color(colors.background);
    lemma_optional_color(colors.underline);
    lemma_optional_color(colors.strikethrough);
    assert(background_items(colors.background) =~= hashed_background(colors.background));
    assert(underline_items(run.underline, colors.underline) =~= hashed_underline(
        run.underline,
        colors.underline,
    ));
    assert(strikethrough_items(run.strikethrough, colors.strikethrough) =~= hashed_strikethrough(
        run.strikethrough,
        colors.strikethrough,
    ));
    assert(spacing_items(run.letter_spacing) =~= hashed_spacing(run.letter_spacing));
}

/// A color hashes its four words.
proof fn lemma_optional_color(color: Option<Rgba>)
    ensures
        optional_color_items(color) == hashed_optional_color(color),
{
    if color is Some {
        assert(color_items(color->0) =~= hashed_color(color->0));
    }
}

/// A run hashes its length, its font, its colors, and for its background, underline, strikethrough
/// and letter spacing whether it has them, with their numbers; colors as they are converted.
#[verifier::spinoff_prover]
#[verifier::rlimit(40)]
pub proof fn law_run_hashes_hold_every_property(run: TextRun, colors: RunColors)
    ensures
        run_items(run, colors) == seq![HashItem::Length(run.len)] + font_items(
            run.font.identity(),
            run.font.weight,
        ) + hashed_color(colors.text) + hashed_background(colors.background) + hashed_underline(
            run.underline,
            colors.underline,
        ) + hashed_strikethrough(run.strikethrough, colors.strikethrough) + hashed_spacing(
            run.letter_spacing,
        ),
{
    law_parts_of_runs_hash_every_property(run, colors);
}

/// Runs that hash the same items have the same length, and fonts with the same family, features,
/// fallbacks and style and weights with one encoding.
#[verifier::spinoff_prover]
#[verifier::rlimit(40)]
pub proof fn law_runs_that_hash_alike_agree<F: Fn(Hsla) -> Rgba>(
    convert: F,
    left: TextRun,
    right: TextRun,
    items: Seq<HashItem>,
)
    requires
        is_run_hashed(convert, left, items),
        is_run_hashed(convert, right, items),
    ensures
        left.len == right.len,
        same_descriptions(left.font, right.font),
        left.font.weight.0.bits == right.font.weight.0.bits,
{
    let left_colors = choose|colors: RunColors|
        #[trigger] are_run_colors(convert, left, colors) && items == run_items(left, colors);
    let right_colors = choose|colors: RunColors|
        #[trigger] are_run_colors(convert, right, colors) && items == run_items(right, colors);
    let left_rest = color_items(left_colors.text)
        + background_items(left_colors.background)
        + underline_items(left.underline, left_colors.underline)
        + strikethrough_items(left.strikethrough, left_colors.strikethrough)
        + spacing_items(left.letter_spacing);
    let right_rest = color_items(right_colors.text)
        + background_items(right_colors.background)
        + underline_items(right.underline, right_colors.underline)
        + strikethrough_items(right.strikethrough, right_colors.strikethrough)
        + spacing_items(right.letter_spacing);
    lemma_behind_the_length(
        HashItem::Length(left.len),
        font_items(left.font.identity(), left.font.weight),
        color_items(left_colors.text),
        background_items(left_colors.background),
        underline_items(left.underline, left_colors.underline),
        strikethrough_items(left.strikethrough, left_colors.strikethrough),
        spacing_items(left.letter_spacing),
    );
    lemma_behind_the_length(
        HashItem::Length(right.len),
        font_items(right.font.identity(), right.font.weight),
        color_items(right_colors.text),
        background_items(right_colors.background),
        underline_items(right.underline, right_colors.underline),
        strikethrough_items(right.strikethrough, right_colors.strikethrough),
        spacing_items(right.letter_spacing),
    );
    lemma_font_lens(left.font);
    lemma_font_lens(right.font);
    law_font_hashes_hold_every_property(
        left.font.identity(),
        left.font.weight,
        left_rest,
        right.font.identity(),
        right.font.weight,
        right_rest,
    );
    law_identities_of_fonts(left.font, right.font);
}

/// Behind the first of a run's items are those of the font, and behind those the rest.
proof fn lemma_behind_the_length(
    length: HashItem,
    font: Seq<HashItem>,
    text: Seq<HashItem>,
    background: Seq<HashItem>,
    underline: Seq<HashItem>,
    strikethrough: Seq<HashItem>,
    spacing: Seq<HashItem>,
)
    ensures
        ({
            let items = seq![length] + font + text + background + underline + strikethrough
                + spacing;
            &&& items[0] == length
            &&& items.skip(1) == font + (text + background + underline + strikethrough + spacing)
        }),
{
    let items = seq![length] + font + text + background + underline + strikethrough + spacing;
    assert(items.skip(1) =~= font + (text + background + underline + strikethrough + spacing));
}

/// The lists of a font are as long as vectors can be.
proof fn lemma_font_lens(font: Font)
    ensures
        font.identity().features.len() <= usize::MAX,
        font.identity().fallbacks is Some ==> font.identity().fallbacks->0.len() <= usize::MAX,
{
    assert(font.features.entries.len() == font.features.entries@.len());
    assert(font.identity().features.len() == font.features.entries@.len());
    if font.fallbacks is Some {
        let families = font.fallbacks->0.families;
        assert(families.len() == families@.len());
        assert(names_view(families@).len() == families@.len());
    }
}

/// The colors that a run hashes are converted from its own, each where it has one.
pub proof fn law_hashed_colors_are_the_runs_own<F: Fn(Hsla) -> Rgba>(
    convert: F,
    run: TextRun,
    colors: RunColors,
)
    requires
        are_run_colors(convert, run, colors),
    ensures
        convert.ensures((run.color,), colors.text),
        colors.background is Some <==> run.background_color is Some,
        run.background_color is Some ==> convert.ensures(
            (run.background_color->0,),
            colors.background->0,
        ),
        colors.underline is Some <==> run.underline is Some && run.underline->0.color is Some,
        colors.underline is Some ==> convert.ensures(
            (run.underline->0.color->0,),
            colors.underline->0,
        ),
        colors.strikethrough is Some <==> run.strikethrough is Some
            && run.strikethrough->0.color is Some,
        colors.strikethrough is Some ==> convert.ensures(
            (run.strikethrough->0.color->0,),
            colors.strikethrough->0,
        ),
{
}

/// Styles have positions of their own.
pub proof fn law_styles_have_positions_of_their_own(left: FontStyle, right: FontStyle)
    ensures
        left.position() == right.position() <==> left == right,
        left.position() < 3,
{
}

} // verus!
