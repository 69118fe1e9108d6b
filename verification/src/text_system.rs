//! The caches in front of a platform's text system.

use crate::font::{
    are_scaled_bounds, is_scaled, scale_bounds, scale_length, Font, FontMetrics,
};
use crate::geometry::{Bounds, Pixels, Point, Size};
use crate::hashing::{hash_items, write_item, HashItem, HashWrite};
use crate::raster::{RasterizedGlyph, TextRenderingMode};
use crate::scalar::{Arithmetic, Scalar};
use std::collections::HashMap;
use std::sync::Arc;
use vstd::prelude::*;

verus! {

broadcast use vstd::std_specs::hash::group_hash_axioms;

/// An opaque identifier for a specific font.
#[derive(Clone, Copy, Debug, PartialEq, Eq, Hash, Structural)]
pub struct FontId(pub usize);

/// An identifier for a specific glyph of a font.
#[derive(Clone, Copy, Debug, PartialEq, Eq, Hash, Structural)]
pub struct GlyphId(pub u32);

/// Number of subpixel glyph variants along the X axis.
pub const SUBPIXEL_VARIANTS_X: u8 = 4;

/// Number of subpixel glyph variants along the Y axis.
pub const SUBPIXEL_VARIANTS_Y: u8 = 1;

/// Parameters for rendering a glyph, used as cache keys for raster bounds.
///
/// This struct identifies a specific glyph rendering configuration including
/// font, size, subpixel positioning, and scale factor. It's used to look up
/// cached raster bounds and sprite atlas entries.
#[derive(Clone, Copy, Debug)]
pub struct RenderGlyphParams {
    /// The font.
    pub font_id: FontId,
    /// The glyph of that font.
    pub glyph_id: GlyphId,
    /// The font size.
    pub font_size: Pixels,
    /// Where the glyph lies between pixels, in steps.
    pub subpixel_variant: Point<u8>,
    /// The number of device pixels per logical pixel.
    pub scale_factor: Scalar,
    /// Whether the glyph is drawn in its own colors.
    pub is_emoji: bool,
    /// Whether coverage is sampled per color channel.
    pub subpixel_rendering: bool,
}

impl RenderGlyphParams {
    /// Whether two parameters are equal: the size and the scale compare as numbers.
    pub open spec fn equals(self, other: RenderGlyphParams) -> bool {
        &&& self.font_id == other.font_id
        &&& self.glyph_id == other.glyph_id
        &&& self.font_size.0.equals(other.font_size.0)
        &&& self.subpixel_variant == other.subpixel_variant
        &&& self.scale_factor.equals(other.scale_factor)
        &&& self.is_emoji == other.is_emoji
        &&& self.subpixel_rendering == other.subpixel_rendering
    }

    /// What the parameters hash: every field in turn, numbers by their exact encoding.
    pub open spec fn items(self) -> Seq<HashItem> {
        seq![
            HashItem::Length(self.font_id.0),
            HashItem::Word(self.glyph_id.0),
            HashItem::Word(self.font_size.0.bits),
            HashItem::Byte(self.subpixel_variant.x),
            HashItem::Byte(self.subpixel_variant.y),
            HashItem::Word(self.scale_factor.bits),
            HashItem::Flag(self.is_emoji),
            HashItem::Flag(self.subpixel_rendering),
        ]
    }

    /// Whether two parameters share an entry in a map that is keyed by them: they are equal, and
    /// hash alike.
    pub open spec fn same_key(self, other: RenderGlyphParams) -> bool {
        self.equals(other) && self.items() == other.items()
    }

    /// The items that the parameters hash, in order.
    pub fn hash_writes(&self) -> (writes: Vec<HashWrite>)
        ensures
            hash_items(writes@) == self.items(),
    {
        let mut writes: Vec<HashWrite> = Vec::new();
        write_item(&mut writes, HashWrite::Length(self.font_id.0));
        write_item(&mut writes, HashWrite::Word(self.glyph_id.0));
        write_item(&mut writes, HashWrite::Word(self.font_size.0.bits));
        write_item(&mut writes, HashWrite::Byte(self.subpixel_variant.x));
        write_item(&mut writes, HashWrite::Byte(self.subpixel_variant.y));
        write_item(&mut writes, HashWrite::Word(self.scale_factor.bits));
        write_item(&mut writes, HashWrite::Flag(self.is_emoji));
        write_item(&mut writes, HashWrite::Flag(self.subpixel_rendering));
        assert(hash_items(writes@) =~= self.items());
        writes
    }

    /// Whether two parameters share an entry in a map that is keyed by them.
    pub fn shares_key(&self, other: &RenderGlyphParams) -> (shares: bool)
        ensures
            shares == self.same_key(*other),
    {
        let shares: bool = self == other && self.font_size.0.bits == other.font_size.0.bits
            && self.scale_factor.bits == other.scale_factor.bits;
        proof {
            if self.items() == other.items() {
                assert(self.items()[2] == other.items()[2]);
                assert(self.items()[5] == other.items()[5]);
            }
        }
        shares
    }
}

impl PartialEq for RenderGlyphParams {
    fn eq(&self, other: &Self) -> (equal: bool) {
        self.font_id == other.font_id && self.glyph_id == other.glyph_id && self.font_size.0
            == other.font_size.0 && self.subpixel_variant.x == other.subpixel_variant.x
            && self.subpixel_variant.y == other.subpixel_variant.y && self.scale_factor
            == other.scale_factor && self.is_emoji == other.is_emoji && self.subpixel_rendering
            == other.subpixel_rendering
    }
}

impl vstd::std_specs::cmp::PartialEqSpecImpl for RenderGlyphParams {
    open spec fn obeys_eq_spec() -> bool {
        true
    }

    open spec fn eq_spec(&self, other: &Self) -> bool {
        self.equals(*other)
    }
}

/// What a platform does for text. Errors are messages.
pub trait PlatformTextSystem {
    /// Adds font data.
    fn add_fonts(&self, fonts: Vec<Vec<u8>>) -> Result<(), String>;

    /// The names of all available fonts.
    fn all_font_names(&self) -> Vec<String>;

    /// The font for a description.
    fn font_id(&self, font: &Font) -> Result<FontId, String>;

    /// The measurements of a font.
    fn font_metrics(&self, font_id: FontId) -> FontMetrics;

    /// The bounds of a glyph, in font units.
    fn typographic_bounds(&self, font_id: FontId, glyph_id: GlyphId) -> Result<
        Bounds<Scalar>,
        String,
    >;

    /// The advance of a glyph, in font units.
    fn advance(&self, font_id: FontId, glyph_id: GlyphId) -> Result<Size<Scalar>, String>;

    /// The glyph for a character, if the font has one.
    fn glyph_for_char(&self, font_id: FontId, character: char) -> Option<GlyphId>;

    /// The raster of a glyph.
    fn rasterize_glyph(&self, params: &RenderGlyphParams) -> Result<RasterizedGlyph, String>;

    /// The rendering mode for a font and size, which is a definite one.
    fn recommended_rendering_mode(&self, font_id: FontId, font_size: Pixels) -> (mode:
        TextRenderingMode)
        ensures
            mode != TextRenderingMode::PlatformDefault,
    ;
}

/// Why a measurement of a character could not be had.
#[derive(Clone, Debug, PartialEq, Eq)]
pub enum GlyphError {
    /// The font has no glyph for the character.
    GlyphNotFound(char),
    /// The platform failed, with this message.
    Platform(String),
}

/// A font that the platform cannot resolve.
#[derive(Clone, Debug, PartialEq, Eq)]
pub struct FontResolveError {
    /// The family that was asked for.
    pub family: String,
    /// What the platform said.
    pub message: String,
}

/// The GPUI text rendering sub system.
pub struct TextSystem<P> {
    platform_text_system: Arc<P>,
    font_ids_by_font: Vec<(Font, Result<FontId, String>)>,
    font_metrics: HashMap<usize, FontMetrics>,
    rasterized_glyphs: Vec<(RenderGlyphParams, Arc<RasterizedGlyph>)>,
}

/// The position of the entry for `font`, if there is one.
pub open spec fn font_entry(
    entries: Seq<(Font, Result<FontId, String>)>,
    font: Font,
    position: int,
) -> bool {
    0 <= position < entries.len() && entries[position].0.same_key(font)
}

/// The position of the entry for `params`, if there is one.
pub open spec fn raster_entry(
    entries: Seq<(RenderGlyphParams, Arc<RasterizedGlyph>)>,
    params: RenderGlyphParams,
    position: int,
) -> bool {
    0 <= position < entries.len() && entries[position].0.same_key(params)
}

/// No two entries are for one font.
pub open spec fn fonts_differ(entries: Seq<(Font, Result<FontId, String>)>) -> bool {
    forall|i: int, j: int|
        0 <= i < j < entries.len() ==> !(#[trigger] entries[i]).0.same_key(
            (#[trigger] entries[j]).0,
        )
}

/// No two entries are for the same parameters.
pub open spec fn rasters_differ(entries: Seq<(RenderGlyphParams, Arc<RasterizedGlyph>)>) -> bool {
    forall|i: int, j: int|
        0 <= i < j < entries.len() ==> !(#[trigger] entries[i]).0.same_key(
            (#[trigger] entries[j]).0,
        )
}

/// Whether two results of a font lookup are the same: the same font, or the same message.
pub open spec fn same_lookup(left: Result<FontId, String>, right: Result<FontId, String>) -> bool {
    match (left, right) {
        (Ok(left), Ok(right)) => left == right,
        (Err(left), Err(right)) => left@ == right@,
        _ => false,
    }
}

/// `after` and `answer` are what looking a font up makes of `before` and gives.
///
/// A font that was looked up has the answer that it had. Another is asked of the platform, and
/// the answer is remembered.
pub open spec fn is_font_lookup<P: PlatformTextSystem>(
    platform: &P,
    before: Seq<(Font, Result<FontId, String>)>,
    font: &Font,
    after: Seq<(Font, Result<FontId, String>)>,
    answer: Result<FontId, String>,
) -> bool {
    &&& forall|position: int| #[trigger]
        font_entry(before, *font, position) ==> same_lookup(answer, before[position].1) && after
            == before
    &&& (forall|position: int| !#[trigger] font_entry(before, *font, position)) ==> {
        &&& call_ensures(P::font_id, (platform, font), answer)
        &&& after.len() == before.len() + 1
        &&& after.drop_last() == before
        &&& after.last().0.identity() == font.identity()
        &&& after.last().0.weight == font.weight
        &&& same_lookup(after.last().1, answer)
    }
}

/// `after` and `result` are what rasterizing a glyph makes of `before` and gives.
///
/// Parameters for which a raster was made have that raster. Others are handed to the platform,
/// and what it makes is remembered; a failure is not.
pub open spec fn is_rasterized<P: PlatformTextSystem>(
    platform: &P,
    before: Seq<(RenderGlyphParams, Arc<RasterizedGlyph>)>,
    params: &RenderGlyphParams,
    after: Seq<(RenderGlyphParams, Arc<RasterizedGlyph>)>,
    result: Result<Arc<RasterizedGlyph>, String>,
) -> bool {
    &&& forall|position: int| #[trigger]
        raster_entry(before, *params, position) ==> result == Ok::<Arc<RasterizedGlyph>, String>(
            before[position].1,
        ) && after == before
    &&& (forall|position: int| !#[trigger] raster_entry(before, *params, position)) ==> exists|
        answer: Result<RasterizedGlyph, String>,
    |
        {
            &&& #[trigger] call_ensures(P::rasterize_glyph, (platform, params), answer)
            &&& match answer {
                Ok(made) => {
                    &&& result matches Ok(glyph)
                    &&& *glyph == made
                    &&& after == before.push((*params, glyph))
                },
                Err(message) => result == Err::<Arc<RasterizedGlyph>, String>(message) && after
                    == before,
            }
        }
}

impl<P> TextSystem<P> {
    /// The platform that does the work.
    pub closed spec fn platform(&self) -> P {
        *self.platform_text_system
    }

    /// What fonts were resolved to, the oldest first.
    pub closed spec fn resolved(&self) -> Seq<(Font, Result<FontId, String>)> {
        self.font_ids_by_font@
    }

    /// The measurements that are known, by font.
    pub closed spec fn measured(&self) -> Map<usize, FontMetrics> {
        self.font_metrics@
    }

    /// The rasters that were made, the oldest first.
    pub closed spec fn rasters(&self) -> Seq<(RenderGlyphParams, Arc<RasterizedGlyph>)> {
        self.rasterized_glyphs@
    }

    /// No font and no parameters have two entries.
    pub open spec fn well_formed(&self) -> bool {
        fonts_differ(self.resolved()) && rasters_differ(self.rasters())
    }
}

impl<P: PlatformTextSystem> TextSystem<P> {
    /// Whether a font can be resolved: it was, or the platform answers with nothing but a font.
    pub open spec fn resolves(&self, font: &Font) -> bool {
        forall|after: Seq<(Font, Result<FontId, String>)>, answer: Result<FontId, String>|
            #[trigger]
            is_font_lookup(&self.platform(), self.resolved(), font, after, answer) ==> answer is Ok
    }

    /// Whether this is what `before` becomes when the measurements of a font are read: they are
    /// asked of the platform unless they were known, and nothing else changes.
    pub open spec fn measured_from(&self, before: TextSystem<P>, font_id: FontId) -> bool {
        &&& self.platform() == before.platform()
        &&& self.resolved() == before.resolved()
        &&& self.rasters() == before.rasters()
        &&& self.measured() == if before.measured().contains_key(font_id.0) {
            before.measured()
        } else {
            before.measured().insert(font_id.0, self.measured()[font_id.0])
        }
        &&& !before.measured().contains_key(font_id.0) ==> call_ensures(
            P::font_metrics,
            (&before.platform(), font_id),
            self.measured()[font_id.0],
        )
    }
}

/// A copy of the result of a font lookup.
fn clone_font_id_result(font_id: &Result<FontId, String>) -> (copy: Result<FontId, String>)
    ensures
        same_lookup(copy, *font_id),
{
    match font_id {
        Ok(font_id) => Ok(*font_id),
        Err(message) => Err(message.clone()),
    }
}

impl<P: PlatformTextSystem> TextSystem<P> {
    /// Create a new TextSystem with the given platform text system.
    pub fn new(platform_text_system: Arc<P>) -> (system: Self)
        ensures
            system.platform() == *platform_text_system,
            system.resolved().len() == 0,
            system.measured() == Map::<usize, FontMetrics>::empty(),
            system.rasters().len() == 0,
            system.well_formed(),
    {
        TextSystem {
            platform_text_system,
            font_ids_by_font: Vec::new(),
            font_metrics: HashMap::new(),
            rasterized_glyphs: Vec::new(),
        }
    }

    /// The platform that does the work, to be shared.
    pub(crate) fn share_platform(&self) -> (platform: Arc<P>)
        ensures
            *platform == self.platform(),
    {
        self.platform_text_system.clone()
    }

    /// Get a list of all available font names from the operating system.
    pub fn all_font_names(&self) -> (names: Vec<String>)
        ensures
            call_ensures(P::all_font_names, (&self.platform(),), names),
    {
        self.platform_text_system.all_font_names()
    }

    /// Add a font's data to the text system.
    ///
    /// A missing font may have been looked up before its data was registered, so success forgets
    /// what fonts were resolved to.
    pub fn add_fonts(&mut self, fonts: Vec<Vec<u8>>) -> (result: Result<(), String>)
        requires
            old(self).well_formed(),
        ensures
            call_ensures(P::add_fonts, (&old(self).platform(), fonts), result),
            final(self).platform() == old(self).platform(),
            final(self).measured() == old(self).measured(),
            final(self).rasters() == old(self).rasters(),
            final(self).resolved() == if result is Ok {
                Seq::empty()
            } else {
                old(self).resolved()
            },
            final(self).well_formed(),
    {
        let result: Result<(), String> = self.platform_text_system.add_fonts(fonts);
        if result.is_ok() {
            self.font_ids_by_font.clear();
        }
        result
    }

    /// Get the FontId for the configured font family and style.
    ///
    /// What the platform answers is remembered, failures included. So whoever got a font knows
    /// that it can be resolved from then on; a weight that is not a number is left out, as it
    /// equals no weight.
    pub fn font_id(&mut self, font: &Font) -> (result: Result<FontId, String>)
        requires
            old(self).well_formed(),
        ensures
            !font.weight.0.nan() ==> final(self).resolves(font) == (result is Ok),
            final(self).platform() == old(self).platform(),
            final(self).measured() == old(self).measured(),
            final(self).rasters() == old(self).rasters(),
            is_font_lookup(
                &old(self).platform(),
                old(self).resolved(),
                font,
                final(self).resolved(),
                result,
            ),
            final(self).well_formed(),
    {
        let mut index: usize = 0;
        while index < self.font_ids_by_font.len()
            invariant
                *self == *old(self),
                self.well_formed(),
                index <= self.resolved().len(),
                self.resolved() == self.font_ids_by_font@,
                forall|position: int|
                    0 <= position < index ==> !#[trigger] font_entry(
                        self.resolved(),
                        *font,
                        position,
                    ),
            decreases self.resolved().len() - index,
        {
            if self.font_ids_by_font[index].0.shares_key(font) {
                proof {
                    assert(font_entry(self.resolved(), *font, index as int));
                    assert forall|position: int| #[trigger]
                        font_entry(self.resolved(), *font, position) implies position == index by {
                        if position != index {
                            let (early, late) = if position < index {
                                (position, index as int)
                            } else {
                                (index as int, position)
                            };
                            assert(self.resolved()[early].0.same_key(self.resolved()[late].0));
                        }
                    }
                }
                let copy: Result<FontId, String> = clone_font_id_result(
                    &self.font_ids_by_font[index].1,
                );
                assert(is_font_lookup(
                    &self.platform(),
                    self.resolved(),
                    font,
                    self.resolved(),
                    copy,
                ));
                return copy;
            }
            index += 1;
        }
        let font_id: Result<FontId, String> = self.platform_text_system.font_id(font);
        let copy: Result<FontId, String> = clone_font_id_result(&font_id);
        self.font_ids_by_font.push((font.clone(), copy));
        proof {
            assert(self.resolved().drop_last() =~= old(self).resolved());
            assert forall|i: int, j: int| 0 <= i < j < self.resolved().len() implies !(
            #[trigger] self.resolved()[i]).0.same_key((#[trigger] self.resolved()[j]).0) by {
                assert(self.resolved()[i] == old(self).resolved()[i]);
                if j < old(self).resolved().len() {
                    assert(self.resolved()[j] == old(self).resolved()[j]);
                } else {
                    assert(!font_entry(old(self).resolved(), *font, i));
                }
            }
            if !font.weight.0.nan() {
                let last = self.resolved().len() - 1;
                assert(font_entry(self.resolved(), *font, last));
                assert forall|position: int| #[trigger]
                    font_entry(self.resolved(), *font, position) implies position == last by {
                    if position < last {
                        assert(font_entry(old(self).resolved(), *font, position));
                    }
                }
                assert(is_font_lookup(
                    &self.platform(),
                    self.resolved(),
                    font,
                    self.resolved(),
                    font_id,
                ));
            }
        }
        font_id
    }

    /// Resolves the specified font using backend-owned aliases and fallbacks.
    ///
    /// The backend has to be able to resolve the font. [`Self::try_resolve_font`] finds out.
    pub fn resolve_font(&mut self, font: &Font) -> (font_id: FontId)
        requires
            old(self).well_formed(),
            old(self).resolves(font),
        ensures
            final(self).platform() == old(self).platform(),
            final(self).measured() == old(self).measured(),
            final(self).rasters() == old(self).rasters(),
            is_font_lookup(
                &old(self).platform(),
                old(self).resolved(),
                font,
                final(self).resolved(),
                Ok::<FontId, String>(font_id),
            ),
            final(self).well_formed(),
    {
        let answer: Result<FontId, String> = self.font_id(font);
        assert(is_font_lookup(
            &old(self).platform(),
            old(self).resolved(),
            font,
            self.resolved(),
            answer,
        ));
        answer.unwrap()
    }

    /// Resolves the specified font using backend-owned aliases and fallbacks.
    ///
    /// Fails if the backend cannot resolve the font, with its message and the font's family.
    pub fn try_resolve_font(&mut self, font: &Font) -> (result: Result<FontId, FontResolveError>)
        requires
            old(self).well_formed(),
        ensures
            final(self).platform() == old(self).platform(),
            final(self).measured() == old(self).measured(),
            final(self).rasters() == old(self).rasters(),
            exists|answer: Result<FontId, String>|
                {
                    &&& #[trigger] is_font_lookup(
                        &old(self).platform(),
                        old(self).resolved(),
                        font,
                        final(self).resolved(),
                        answer,
                    )
                    &&& match (result, answer) {
                        (Ok(font_id), Ok(expected)) => font_id == expected,
                        (Err(error), Err(message)) => error.family@ == font.family@
                            && error.message@ == message@,
                        _ => false,
                    }
                },
            !font.weight.0.nan() ==> final(self).resolves(font) == (result is Ok),
            final(self).well_formed(),
    {
        let answer: Result<FontId, String> = self.font_id(font);
        match answer {
            Ok(font_id) => Ok(font_id),
            Err(message) => Err(FontResolveError { family: font.family.clone(), message }),
        }
    }

    /// The measurements of a font, from the platform unless they are known.
    fn metrics(&mut self, font_id: FontId) -> (metrics: FontMetrics)
        ensures
            final(self).measured_from(*old(self), font_id),
            metrics == final(self).measured()[font_id.0],
    {
        if let Some(metrics) = self.font_metrics.get(&font_id.0) {
            return *metrics;
        }
        let metrics: FontMetrics = self.platform_text_system.font_metrics(font_id);
        self.font_metrics.insert(font_id.0, metrics);
        assert(self.measured() =~= old(self).measured().insert(font_id.0, metrics));
        metrics
    }

    /// Reads the measurements of a font, from the platform unless they are known.
    pub fn read_metrics<T, F: FnOnce(&FontMetrics) -> T>(&mut self, font_id: FontId, read: F)
        -> (result: T)
        requires
            forall|metrics: &FontMetrics| #[trigger] read.requires((metrics,)),
        ensures
            final(self).measured_from(*old(self), font_id),
            read.ensures((&final(self).measured()[font_id.0],), result),
    {
        let metrics: FontMetrics = self.metrics(font_id);
        read(&metrics)
    }

    /// Get the bounding box for the given font and font size.
    /// A font's bounding box is the smallest rectangle that could enclose all glyphs
    /// in the font. superimposed over one another.
    pub fn bounding_box<A: Arithmetic>(
        &mut self,
        font_id: FontId,
        font_size: Pixels,
        arithmetic: &A,
    ) -> (bounds: Bounds<Pixels>)
        ensures
            final(self).measured_from(*old(self), font_id),
            are_scaled_bounds(
                arithmetic,
                final(self).measured()[font_id.0].bounding_box,
                final(self).measured()[font_id.0].units_per_em,
                font_size,
                bounds,
            ),
    {
        self.metrics(font_id).bounding_box(font_size, arithmetic)
    }

    /// Get the typographic bounds for the given character, in the given font and size.
    pub fn typographic_bounds<A: Arithmetic>(
        &mut self,
        font_id: FontId,
        font_size: Pixels,
        character: char,
        arithmetic: &A,
    ) -> (result: Result<Bounds<Pixels>, GlyphError>)
        ensures
            exists|glyph: Option<GlyphId>|
                {
                    &&& #[trigger] call_ensures(
                        P::glyph_for_char,
                        (&old(self).platform(), font_id, character),
                        glyph,
                    )
                    &&& glyph is None ==> *final(self) == *old(self) && result == Err::<
                        Bounds<Pixels>,
                        GlyphError,
                    >(GlyphError::GlyphNotFound(character))
                    &&& glyph matches Some(glyph) ==> exists|
                        unscaled: Result<Bounds<Scalar>, String>,
                    |
                        {
                            &&& #[trigger] call_ensures(
                                P::typographic_bounds,
                                (&old(self).platform(), font_id, glyph),
                                unscaled,
                            )
                            &&& match unscaled {
                                Err(message) => *final(self) == *old(self) && result == Err::<
                                    Bounds<Pixels>,
                                    GlyphError,
                                >(GlyphError::Platform(message)),
                                Ok(unscaled) => {
                                    &&& final(self).measured_from(*old(self), font_id)
                                    &&& result matches Ok(bounds)
                                    &&& are_scaled_bounds(
                                        arithmetic,
                                        unscaled,
                                        final(self).measured()[font_id.0].units_per_em,
                                        font_size,
                                        bounds,
                                    )
                                },
                            }
                        }
                },
    {
        let glyph: Option<GlyphId> = self.platform_text_system.glyph_for_char(font_id, character);
        let glyph_id: GlyphId = match glyph {
            Some(glyph_id) => glyph_id,
            None => return Err(GlyphError::GlyphNotFound(character)),
        };
        let unscaled: Result<Bounds<Scalar>, String> =
            self.platform_text_system.typographic_bounds(font_id, glyph_id);
        match unscaled {
            Err(message) => Err(GlyphError::Platform(message)),
            Ok(unscaled) => {
                let units_per_em: u32 = self.metrics(font_id).units_per_em;
                Ok(scale_bounds(arithmetic, unscaled, units_per_em, font_size))
            },
        }
    }

    /// Get the advance width for the given character, in the given font and size.
    pub fn advance<A: Arithmetic>(
        &mut self,
        font_id: FontId,
        font_size: Pixels,
        ch: char,
        arithmetic: &A,
    ) -> (result: Result<Size<Pixels>, GlyphError>)
        ensures
            exists|glyph: Option<GlyphId>|
                {
                    &&& #[trigger] call_ensures(
                        P::glyph_for_char,
                        (&old(self).platform(), font_id, ch),
                        glyph,
                    )
                    &&& glyph is None ==> *final(self) == *old(self) && result == Err::<
                        Size<Pixels>,
                        GlyphError,
                    >(GlyphError::GlyphNotFound(ch))
                    &&& glyph matches Some(glyph) ==> exists|unscaled: Result<Size<Scalar>, String>|
                        {
                            &&& #[trigger] call_ensures(
                                P::advance,
                                (&old(self).platform(), font_id, glyph),
                                unscaled,
                            )
                            &&& match unscaled {
                                Err(message) => *final(self) == *old(self) && result == Err::<
                                    Size<Pixels>,
                                    GlyphError,
                                >(GlyphError::Platform(message)),
                                Ok(unscaled) => {
                                    &&& final(self).measured_from(*old(self), font_id)
                                    &&& result matches Ok(advance)
                                    &&& is_scaled(
                                        arithmetic,
                                        unscaled.width,
                                        final(self).measured()[font_id.0].units_per_em,
                                        font_size,
                                        advance.width,
                                    )
                                    &&& is_scaled(
                                        arithmetic,
                                        unscaled.height,
                                        final(self).measured()[font_id.0].units_per_em,
                                        font_size,
                                        advance.height,
                                    )
                                },
                            }
                        }
                },
    {
        let glyph: Option<GlyphId> = self.platform_text_system.glyph_for_char(font_id, ch);
        let glyph_id: GlyphId = match glyph {
            Some(glyph_id) => glyph_id,
            None => return Err(GlyphError::GlyphNotFound(ch)),
        };
        let unscaled: Result<Size<Scalar>, String> = self.platform_text_system.advance(
            font_id,
            glyph_id,
        );
        match unscaled {
            Err(message) => Err(GlyphError::Platform(message)),
            Ok(unscaled) => {
                let units_per_em: u32 = self.metrics(font_id).units_per_em;
                Ok(
                    Size {
                        width: scale_length(arithmetic, unscaled.width, units_per_em, font_size),
                        height: scale_length(arithmetic, unscaled.height, units_per_em, font_size),
                    },
                )
            },
        }
    }

    /// Get the number of font size units per 'em square',
    /// Per MDN: "an abstract square whose height is the intended distance between
    /// lines of type in the same type size"
    pub fn units_per_em(&mut self, font_id: FontId) -> (units: u32)
        ensures
            final(self).measured_from(*old(self), font_id),
            units == final(self).measured()[font_id.0].units_per_em,
    {
        self.metrics(font_id).units_per_em
    }

    /// Get the recommended distance from the baseline for the given font
    pub fn ascent<A: Arithmetic>(
        &mut self,
        font_id: FontId,
        font_size: Pixels,
        arithmetic: &A,
    ) -> (ascent: Pixels)
        ensures
            final(self).measured_from(*old(self), font_id),
            is_scaled(
                arithmetic,
                final(self).measured()[font_id.0].ascent,
                final(self).measured()[font_id.0].units_per_em,
                font_size,
                ascent,
            ),
    {
        self.metrics(font_id).ascent(font_size, arithmetic)
    }

    /// Get the recommended distance below the baseline for the given font,
    /// in single spaced text.
    pub fn descent<A: Arithmetic>(
        &mut self,
        font_id: FontId,
        font_size: Pixels,
        arithmetic: &A,
    ) -> (descent: Pixels)
        ensures
            final(self).measured_from(*old(self), font_id),
            is_scaled(
                arithmetic,
                final(self).measured()[font_id.0].descent,
                final(self).measured()[font_id.0].units_per_em,
                font_size,
                descent,
            ),
    {
        self.metrics(font_id).descent(font_size, arithmetic)
    }

    /// Get the recommended baseline offset for the given font and line height.
    pub fn baseline_offset<A: Arithmetic>(
        &mut self,
        font_id: FontId,
        font_size: Pixels,
        line_height: Pixels,
        arithmetic: &A,
    ) -> (offset: Pixels)
        ensures
            final(self).measured_from(*old(self), font_id),
            exists|ascent: Pixels, descent: Pixels|
                {
                    &&& #[trigger] is_scaled(
                        arithmetic,
                        final(self).measured()[font_id.0].ascent,
                        final(self).measured()[font_id.0].units_per_em,
                        font_size,
                        ascent,
                    )
                    &&& #[trigger] is_scaled(
                        arithmetic,
                        final(self).measured()[font_id.0].descent,
                        final(self).measured()[font_id.0].units_per_em,
                        font_size,
                        descent,
                    )
                    &&& is_baseline_offset(arithmetic, line_height, ascent, descent, offset)
                },
    {
        let ascent: Pixels = self.ascent(font_id, font_size, arithmetic);
        let descent: Pixels = self.descent(font_id, font_size, arithmetic);
        let above: Scalar = arithmetic.difference(line_height.0, ascent.0);
        let padding: Scalar = arithmetic.difference(above, descent.0);
        Pixels(arithmetic.sum(padding.halve(), ascent.0))
    }

    /// Returns one cached rasterization containing both atlas geometry and pixels.
    pub fn rasterize_glyph(&mut self, params: &RenderGlyphParams) -> (result: Result<
        Arc<RasterizedGlyph>,
        String,
    >)
        requires
            old(self).well_formed(),
        ensures
            final(self).platform() == old(self).platform(),
            final(self).measured() == old(self).measured(),
            final(self).resolved() == old(self).resolved(),
            is_rasterized(
                &old(self).platform(),
                old(self).rasters(),
                params,
                final(self).rasters(),
                result,
            ),
            final(self).well_formed(),
    {
        let mut index: usize = 0;
        while index < self.rasterized_glyphs.len()
            invariant
                *self == *old(self),
                self.well_formed(),
                index <= self.rasters().len(),
                self.rasters() == self.rasterized_glyphs@,
                forall|position: int|
                    0 <= position < index ==> !#[trigger] raster_entry(
                        self.rasters(),
                        *params,
                        position,
                    ),
            decreases self.rasters().len() - index,
        {
            if self.rasterized_glyphs[index].0.shares_key(params) {
                proof {
                    assert(raster_entry(self.rasters(), *params, index as int));
                    assert forall|position: int| #[trigger]
                        raster_entry(self.rasters(), *params, position) implies position
                        == index by {
                        if position != index {
                            let (early, late) = if position < index {
                                (position, index as int)
                            } else {
                                (index as int, position)
                            };
                            assert(self.rasters()[early].0.same_key(self.rasters()[late].0));
                        }
                    }
                }
                return Ok(self.rasterized_glyphs[index].1.clone());
            }
            index += 1;
        }
        let answer: Result<RasterizedGlyph, String> = self.platform_text_system.rasterize_glyph(
            params,
        );
        match answer {
            Err(message) => Err(message),
            Ok(glyph) => {
                let glyph: Arc<RasterizedGlyph> = Arc::new(glyph);
                self.rasterized_glyphs.push((*params, glyph.clone()));
                proof {
                    assert forall|i: int, j: int| 0 <= i < j < self.rasters().len() implies !(
                    #[trigger] self.rasters()[i]).0.same_key((#[trigger] self.rasters()[j]).0) by {
                        assert(self.rasters()[i] == old(self).rasters()[i]);
                        if j < old(self).rasters().len() {
                            assert(self.rasters()[j] == old(self).rasters()[j]);
                        } else {
                            assert(!raster_entry(old(self).rasters(), *params, i));
                        }
                    }
                }
                Ok(glyph)
            },
        }
    }

    /// Returns the text rendering mode recommended by the platform for the given font and size.
    /// It is never [`TextRenderingMode::PlatformDefault`].
    pub fn recommended_rendering_mode(
        &self,
        font_id: FontId,
        font_size: Pixels,
    ) -> (mode: TextRenderingMode)
        ensures
            call_ensures(
                P::recommended_rendering_mode,
                (&self.platform(), font_id, font_size),
                mode,
            ),
            mode != TextRenderingMode::PlatformDefault,
    {
        self.platform_text_system.recommended_rendering_mode(font_id, font_size)
    }
}

/// `offset` is where the baseline lies in a line: half of what the line is higher than the font,
/// and the ascent.
pub open spec fn is_baseline_offset<A: Arithmetic>(
    arithmetic: &A,
    line_height: Pixels,
    ascent: Pixels,
    descent: Pixels,
    offset: Pixels,
) -> bool {
    exists|above: Scalar, padding: Scalar|
        {
            &&& #[trigger] call_ensures(
                A::difference,
                (arithmetic, line_height.0, ascent.0),
                above,
            )
            &&& #[trigger] call_ensures(A::difference, (arithmetic, above, descent.0), padding)
            &&& call_ensures(A::sum, (arithmetic, padding.halved(), ascent.0), offset.0)
        }
}

/// `later` is what lookups of fonts, and operations that keep what fonts were resolved to, make
/// of `earlier`.
pub open spec fn resolved_after<P: PlatformTextSystem>(
    platform: &P,
    earlier: Seq<(Font, Result<FontId, String>)>,
    later: Seq<(Font, Result<FontId, String>)>,
) -> bool {
    later == earlier || exists|font: Font, answer: Result<FontId, String>| #[trigger]
        is_font_lookup(platform, earlier, &font, later, answer)
}

/// `later` is what rasters of glyphs, and operations that keep the rasters, make of `earlier`.
pub open spec fn rasters_after<P: PlatformTextSystem>(
    platform: &P,
    earlier: Seq<(RenderGlyphParams, Arc<RasterizedGlyph>)>,
    later: Seq<(RenderGlyphParams, Arc<RasterizedGlyph>)>,
) -> bool {
    later == earlier || exists|
        params: RenderGlyphParams,
        result: Result<Arc<RasterizedGlyph>, String>,
    | #[trigger]
        is_rasterized(platform, earlier, &params, later, result)
}

/// Operations that forget no font keep every entry in its place.
proof fn lemma_lookups_keep_entries<P: PlatformTextSystem>(
    platform: &P,
    history: Seq<Seq<(Font, Result<FontId, String>)>>,
    position: int,
)
    requires
        history.len() > 0,
        forall|step: int|
            0 <= step < history.len() - 1 ==> resolved_after(
                platform,
                #[trigger] history[step],
                history[step + 1],
            ),
        0 <= position < history.first().len(),
    ensures
        position < history.last().len(),
        history.last()[position] == history.first()[position],
    decreases history.len(),
{
    if history.len() > 1 {
        let earlier = history.drop_last();
        lemma_lookups_keep_entries(platform, earlier, position);
        assert(resolved_after(platform, history[history.len() - 2], history.last()));
        if history.last() != earlier.last() {
            let (font, answer) = choose|font: Font, answer: Result<FontId, String>| #[trigger]
                is_font_lookup(platform, earlier.last(), &font, history.last(), answer);
            if exists|entry: int| #[trigger] font_entry(earlier.last(), font, entry) {
                assert(false);
            }
            assert(history.last().drop_last()[position] == history.last()[position]);
        }
    }
}

/// Operations that forget no raster keep every entry in its place.
proof fn lemma_rasters_keep_entries<P: PlatformTextSystem>(
    platform: &P,
    history: Seq<Seq<(RenderGlyphParams, Arc<RasterizedGlyph>)>>,
    position: int,
)
    requires
        history.len() > 0,
        forall|step: int|
            0 <= step < history.len() - 1 ==> rasters_after(
                platform,
                #[trigger] history[step],
                history[step + 1],
            ),
        0 <= position < history.first().len(),
    ensures
        position < history.last().len(),
        history.last()[position] == history.first()[position],
    decreases history.len(),
{
    if history.len() > 1 {
        let earlier = history.drop_last();
        lemma_rasters_keep_entries(platform, earlier, position);
        assert(rasters_after(platform, history[history.len() - 2], history.last()));
        if history.last() != earlier.last() {
            let (params, result) = choose|
                params: RenderGlyphParams,
                result: Result<Arc<RasterizedGlyph>, String>,
            | #[trigger]
                is_rasterized(platform, earlier.last(), &params, history.last(), result);
            if exists|entry: int| #[trigger] raster_entry(earlier.last(), params, entry) {
                assert(false);
            }
        }
    }
}

/// A font that was looked up is found again with the same answer, and the platform is not asked
/// for it, whatever was looked up, measured or rasterized in between, until fonts are added.
///
/// `history` is what fonts were resolved to between the two lookups, step by step. A weight that
/// is not a number is left out: it equals no weight.
pub proof fn law_lookups_are_remembered<P: PlatformTextSystem>(
    platform: &P,
    before: Seq<(Font, Result<FontId, String>)>,
    font: &Font,
    first: Result<FontId, String>,
    history: Seq<Seq<(Font, Result<FontId, String>)>>,
    after: Seq<(Font, Result<FontId, String>)>,
    second: Result<FontId, String>,
)
    requires
        !font.weight.0.nan(),
        history.len() > 0,
        is_font_lookup(platform, before, font, history.first(), first),
        forall|step: int|
            0 <= step < history.len() - 1 ==> resolved_after(
                platform,
                #[trigger] history[step],
                history[step + 1],
            ),
        is_font_lookup(platform, history.last(), font, after, second),
    ensures
        same_lookup(second, first),
        after == history.last(),
{
    let between = history.first();
    let position = if exists|position: int| #[trigger] font_entry(before, *font, position) {
        choose|position: int| #[trigger] font_entry(before, *font, position)
    } else {
        between.len() - 1
    };
    assert(font_entry(between, *font, position));
    lemma_lookups_keep_entries(platform, history, position);
    assert(font_entry(history.last(), *font, position));
}

/// A glyph that was rasterized is given out again, and the platform is not asked for it,
/// whatever was rasterized, looked up or measured in between.
///
/// `history` is what rasters there were between the two calls, step by step. A font size or a
/// scale that is not a number is left out: it equals no number.
pub proof fn law_rasters_are_made_once<P: PlatformTextSystem>(
    platform: &P,
    before: Seq<(RenderGlyphParams, Arc<RasterizedGlyph>)>,
    params: &RenderGlyphParams,
    first: Result<Arc<RasterizedGlyph>, String>,
    history: Seq<Seq<(RenderGlyphParams, Arc<RasterizedGlyph>)>>,
    after: Seq<(RenderGlyphParams, Arc<RasterizedGlyph>)>,
    second: Result<Arc<RasterizedGlyph>, String>,
)
    requires
        !params.font_size.0.nan(),
        !params.scale_factor.nan(),
        first is Ok,
        history.len() > 0,
        is_rasterized(platform, before, params, history.first(), first),
        forall|step: int|
            0 <= step < history.len() - 1 ==> rasters_after(
                platform,
                #[trigger] history[step],
                history[step + 1],
            ),
        is_rasterized(platform, history.last(), params, after, second),
    ensures
        second == first,
        after == history.last(),
{
    let between = history.first();
    let position = if exists|position: int| #[trigger] raster_entry(before, *params, position) {
        choose|position: int| #[trigger] raster_entry(before, *params, position)
    } else {
        between.len() - 1
    };
    assert(raster_entry(between, *params, position));
    lemma_rasters_keep_entries(platform, history, position);
    assert(raster_entry(history.last(), *params, position));
}

} // verus!
