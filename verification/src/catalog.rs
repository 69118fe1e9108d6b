//! The fonts that text can be set in: those of the system, and those that are registered.

use crate::blob::{blob_bytes, blob_clone, blob_from, setting_parts, FontSynthesis};
use crate::font::FontStyle;
use crate::text_order::{
    law_ordered_texts_are_unique, ordered_texts, strictly_ordered, texts_of,
};
use fontique::{
    Attributes, Blob, Collection, CollectionOptions, FontWeight, FontWidth, GenericFamily,
    QueryFamily, QueryFont, QueryStatus, SourceCache,
};
use skrifa::setting::VariationSetting;
use vstd::prelude::*;

verus! {

/// A collection of fonts, from `fontique`.
#[verifier::external_type_specification]
#[verifier::external_body]
pub struct ExCollection(fontique::Collection);

/// A cache of font bytes, from `fontique`.
#[verifier::external_type_specification]
#[verifier::external_body]
pub struct ExSourceCache(fontique::SourceCache);

/// A font that a query found, from `fontique`.
#[verifier::external_type_specification]
#[verifier::external_body]
pub struct ExQueryFont(fontique::QueryFont);

/// The attributes that a query asks for, from `fontique`.
#[verifier::external_type_specification]
#[verifier::external_body]
pub struct ExAttributes(fontique::Attributes);

/// Controls whether a Parley text system loads operating-system fonts.
#[derive(Clone, Copy, Debug, PartialEq, Eq, Structural)]
pub enum SystemFonts {
    /// Enumerate fonts installed on the operating system.
    Load,
    /// Start with an empty catalog. Applications can still register font data.
    Skip,
}

impl Default for SystemFonts {
    fn default() -> (fonts: SystemFonts)
        ensures
            fonts == SystemFonts::Load,
    {
        SystemFonts::Load
    }
}

/// Why fonts are not registered.
#[derive(Clone, Copy, Debug, PartialEq, Eq, Structural)]
pub enum CatalogError {
    /// Font data did not contain a supported font face.
    UnsupportedFont,
}

/// A face that a query offers.
pub struct OfferedFace {
    /// The bytes that the face is in.
    pub data: Seq<u8>,
    /// The index of the face in the bytes.
    pub index: u32,
    /// The variation settings that the face needs: tags, and values by their encoding.
    pub settings: Seq<(u32, u32)>,
    /// The synthetic styling that the face needs.
    pub styling: FontSynthesis,
    /// The characters that the face has glyphs for.
    pub characters: Set<char>,
}

/// A named or generic family used for direct font resolution.
#[derive(Clone, Copy, Debug)]
pub enum FaceFamily<'a> {
    /// A concrete family name.
    Named(&'a str),
    /// The platform's user-interface font.
    SystemUi,
}

/// The mathematical value of a [`FaceFamily`].
pub enum FamilyKey {
    /// A concrete family name.
    Named(Seq<char>),
    /// The platform's user-interface font.
    SystemUi,
}

impl<'a> View for FaceFamily<'a> {
    type V = FamilyKey;

    open spec fn view(&self) -> FamilyKey {
        match self {
            FaceFamily::Named(name) => FamilyKey::Named(name@),
            FaceFamily::SystemUi => FamilyKey::SystemUi,
        }
    }
}

/// The bytes that were registered with a collection, the oldest first.
pub uninterp spec fn registered_fonts(collection: Collection) -> Seq<Seq<u8>>;

/// Whether a collection was made to offer the fonts of the system.
pub uninterp spec fn offers_system_fonts(collection: Collection) -> bool;

/// Whether bytes hold a font face that a collection takes.
pub uninterp spec fn has_supported_face(data: Seq<u8>) -> bool;

/// The names of the families that registered fonts belong to.
pub uninterp spec fn registered_families(fonts: Seq<Seq<u8>>) -> Set<Seq<char>>;

/// The names of the families that a collection lists.
pub uninterp spec fn listed_families(collection: Collection) -> Set<Seq<char>>;

/// What a font that a query found is.
pub uninterp spec fn offered_face(font: QueryFont) -> OfferedFace;

/// The style, and the weight by its encoding, that attributes stand for: none for those of
/// another width than the normal one or with an oblique angle.
pub uninterp spec fn requested_attributes(attributes: Attributes) -> Option<(FontStyle, u32)>;

/// The style that attributes stand for.
pub open spec fn requested_style(attributes: Attributes) -> FontStyle {
    match requested_attributes(attributes) {
        Some((style, _)) => style,
        None => FontStyle::Normal,
    }
}

/// The weight that attributes stand for, by its encoding.
pub open spec fn requested_weight(attributes: Attributes) -> u32 {
    match requested_attributes(attributes) {
        Some((_, weight)) => weight,
        None => 0,
    }
}

/// The faces that registered fonts offer for families, a style and a weight, the best first.
pub uninterp spec fn offered_faces(
    fonts: Seq<Seq<u8>>,
    families: Seq<FamilyKey>,
    style: FontStyle,
    weight: u32,
) -> Seq<OfferedFace>;

/// Calls `Collection::new` for a collection that is not shared.
#[verifier::external_body]
fn new_collection(system_fonts: bool) -> (collection: Collection)
    ensures
        registered_fonts(collection).len() == 0,
        offers_system_fonts(collection) == system_fonts,
{
    Collection::new(CollectionOptions { shared: false, system_fonts })
}

/// Calls `SourceCache::default`. The cache holds copies of what it is asked for, so nothing is
/// said of it.
#[verifier::external_body]
fn new_source_cache() -> (cache: SourceCache) {
    SourceCache::default()
}

/// Calls `Collection::register_fonts`. Whether any face is added depends on the bytes alone, and
/// the collection answers from then on as one with these bytes registered. It goes on to list the
/// families that it listed.
#[verifier::external_body]
fn register_blob(collection: &mut Collection, blob: Blob<u8>) -> (nothing_added: bool)
    ensures
        nothing_added == !has_supported_face(blob_bytes(blob)),
        registered_fonts(*final(collection)) == registered_fonts(*old(collection)).push(
            blob_bytes(blob),
        ),
        listed_families(*old(collection)).subset_of(listed_families(*final(collection))),
        offers_system_fonts(*final(collection)) == offers_system_fonts(*old(collection)),
{
    collection.register_fonts(blob, None).is_empty()
}

/// Calls `Collection::family_names`, which hands the names that the collection lists out in no
/// particular order. Those of the registered fonts are among them; without the fonts of the
/// system, there are no others.
#[verifier::external_body]
fn collection_families(collection: &mut Collection) -> (names: Vec<String>)
    ensures
        names@.map_values(|name: String| name@).to_set() == listed_families(*old(collection)),
        registered_families(registered_fonts(*old(collection))).subset_of(
            names@.map_values(|name: String| name@).to_set(),
        ),
        !offers_system_fonts(*old(collection)) ==> names@.map_values(
            |name: String| name@,
        ).to_set() == registered_families(registered_fonts(*old(collection))),
        registered_fonts(*final(collection)) == registered_fonts(*old(collection)),
        listed_families(*final(collection)) == listed_families(*old(collection)),
        offers_system_fonts(*final(collection)) == offers_system_fonts(*old(collection)),
{
    collection.family_names().map(|name| name.to_owned()).collect()
}

/// Calls `Attributes::new` for the normal width, a style without an angle, and a weight.
#[verifier::external_body]
fn face_attributes(style: FontStyle, weight: &VariationSetting) -> (attributes: Attributes)
    ensures
        requested_attributes(attributes) == Some((style, setting_parts(*weight).1)),
{
    let style = match style {
        FontStyle::Normal => fontique::FontStyle::Normal,
        FontStyle::Italic => fontique::FontStyle::Italic,
        FontStyle::Oblique => fontique::FontStyle::Oblique(None),
    };
    Attributes::new(FontWidth::NORMAL, style, FontWeight::new(weight.value))
}

/// Calls `Query::matches_with` for families and attributes, and collects the fonts in the order
/// in which they are offered. Without the fonts of the system, they are those that the
/// registered fonts offer.
#[verifier::external_body]
fn query_fonts(
    collection: &mut Collection,
    cache: &mut SourceCache,
    families: &[FaceFamily<'_>],
    attributes: Attributes,
) -> (fonts: Vec<QueryFont>)
    requires
        requested_attributes(attributes) is Some,
    ensures
        !offers_system_fonts(*old(collection)) ==> fonts@.map_values(
            |font: QueryFont| offered_face(font),
        ) == offered_faces(
            registered_fonts(*old(collection)),
            families@.map_values(|family: FaceFamily<'_>| family@),
            requested_style(attributes),
            requested_weight(attributes),
        ),
        registered_fonts(*final(collection)) == registered_fonts(*old(collection)),
        listed_families(*final(collection)) == listed_families(*old(collection)),
        offers_system_fonts(*final(collection)) == offers_system_fonts(*old(collection)),
{
    let mut fonts = Vec::new();
    let mut query = collection.query(cache);
    query.set_families(families.iter().map(|family| match family {
        FaceFamily::Named(name) => QueryFamily::Named(name),
        FaceFamily::SystemUi => QueryFamily::Generic(GenericFamily::SystemUi),
    }));
    query.set_attributes(attributes);
    query.matches_with(|font| { fonts.push(font.clone()); QueryStatus::Continue });
    fonts
}

/// Calls `Charmap::map` on the font's character map. A font whose map cannot be read covers no
/// character.
#[verifier::external_body]
fn font_covers(font: &QueryFont, character: char) -> (covers: bool)
    ensures
        covers == offered_face(*font).characters.contains(character),
{
    font.charmap().and_then(|charmap| charmap.map(character)).is_some()
}

/// The fonts that text can be set in.
pub struct FontContext {
    collection: Collection,
    source_cache: SourceCache,
}

impl FontContext {
    /// The bytes that were registered, the oldest first.
    pub closed spec fn registered(&self) -> Seq<Seq<u8>> {
        registered_fonts(self.collection)
    }

    /// The names of the families that are listed.
    pub closed spec fn families(&self) -> Set<Seq<char>> {
        listed_families(self.collection)
    }

    /// The cache of font files.
    pub closed spec fn sources(&self) -> SourceCache {
        self.source_cache
    }

    /// Whether the fonts of the system are offered.
    pub closed spec fn has_system_fonts(&self) -> bool {
        offers_system_fonts(self.collection)
    }

    /// The collection and the cache of which a layout engine makes its own context.
    pub fn into_parts(self) -> (parts: (Collection, SourceCache))
        ensures
            registered_fonts(parts.0) == self.registered(),
            listed_families(parts.0) == self.families(),
            parts.1 == self.sources(),
            offers_system_fonts(parts.0) == self.has_system_fonts(),
    {
        (self.collection, self.source_cache)
    }
}

/// A context without registered fonts.
pub fn new_font_context(system_fonts: SystemFonts) -> (context: FontContext)
    ensures
        context.registered().len() == 0,
        context.has_system_fonts() == (system_fonts == SystemFonts::Load),
{
    FontContext {
        collection: new_collection(system_fonts == SystemFonts::Load),
        source_cache: new_source_cache(),
    }
}

/// The bytes of a list of blobs.
pub open spec fn blobs_bytes(blobs: Seq<Blob<u8>>) -> Seq<Seq<u8>> {
    blobs.map_values(|blob: Blob<u8>| blob_bytes(blob))
}

/// Whether all bytes hold a supported face.
pub open spec fn all_supported(fonts: Seq<Seq<u8>>) -> bool {
    forall|i: int| 0 <= i < fonts.len() ==> has_supported_face(#[trigger] fonts[i])
}

/// Checks that every blob holds a supported face. No context takes part in this.
pub fn validate_font_blobs(fonts: &[Blob<u8>]) -> (result: Result<(), CatalogError>)
    ensures
        match result {
            Ok(()) => all_supported(blobs_bytes(fonts@)),
            Err(error) => !all_supported(blobs_bytes(fonts@)) && error
                == CatalogError::UnsupportedFont,
        },
{
    let mut validator: Collection = new_collection(false);
    let mut index: usize = 0;
    while index < fonts.len()
        invariant
            index <= fonts@.len(),
            forall|i: int|
                0 <= i < index ==> has_supported_face(#[trigger] blobs_bytes(fonts@)[i]),
        decreases fonts@.len() - index,
    {
        if register_blob(&mut validator, blob_clone(&fonts[index])) {
            assert(!has_supported_face(blobs_bytes(fonts@)[index as int]));
            return Err(CatalogError::UnsupportedFont);
        }
        index += 1;
    }
    Ok(())
}

/// Registers every blob.
pub fn register_font_blobs(context: &mut FontContext, fonts: &[Blob<u8>])
    ensures
        final(context).registered() == old(context).registered() + blobs_bytes(fonts@),
        old(context).families().subset_of(final(context).families()),
        final(context).sources() == old(context).sources(),
        final(context).has_system_fonts() == old(context).has_system_fonts(),
{
    let ghost before = context.registered();
    let mut index: usize = 0;
    while index < fonts.len()
        invariant
            index <= fonts@.len(),
            context.registered() == before + blobs_bytes(fonts@).take(index as int),
            old(context).families().subset_of(context.families()),
            context.sources() == old(context).sources(),
            context.has_system_fonts() == old(context).has_system_fonts(),
        decreases fonts@.len() - index,
    {
        register_blob(&mut context.collection, blob_clone(&fonts[index]));
        index += 1;
        assert(context.registered() =~= before + blobs_bytes(fonts@).take(index as int));
    }
    assert(blobs_bytes(fonts@).take(index as int) =~= blobs_bytes(fonts@));
}

/// The bytes of a list of fonts.
pub open spec fn fonts_bytes(fonts: Seq<&[u8]>) -> Seq<Seq<u8>> {
    fonts.map_values(|font: &[u8]| font@)
}

/// Registers fonts, all or none: where one of them is not supported, nothing changes.
pub fn register_bytes(context: &mut FontContext, fonts: &[&[u8]]) -> (result: Result<
    (),
    CatalogError,
>)
    ensures
        final(context).has_system_fonts() == old(context).has_system_fonts(),
        final(context).sources() == old(context).sources(),
        old(context).families().subset_of(final(context).families()),
        match result {
            Ok(()) => all_supported(fonts_bytes(fonts@)) && final(context).registered() == old(
                context,
            ).registered() + fonts_bytes(fonts@),
            Err(error) => !all_supported(fonts_bytes(fonts@)) && error
                == CatalogError::UnsupportedFont && *final(context) == *old(context),
        },
{
    let ghost given = fonts_bytes(fonts@);
    let mut blobs: Vec<Blob<u8>> = Vec::new();
    let mut index: usize = 0;
    while index < fonts.len()
        invariant
            index <= fonts@.len(),
            fonts_bytes(fonts@) == given,
            blobs_bytes(blobs@) == given.take(index as int),
        decreases fonts@.len() - index,
    {
        let ghost earlier = blobs@;
        let blob: Blob<u8> = blob_from(vstd::slice::slice_to_vec(fonts[index]));
        assert(blobs_bytes(earlier.push(blob)) =~= blobs_bytes(earlier).push(blob_bytes(blob)));
        assert(given.take(index + 1) =~= given.take(index as int).push(given[index as int]));
        blobs.push(blob);
        index += 1;
    }
    assert(given.take(index as int) =~= given);
    if let Err(error) = validate_font_blobs(blobs.as_slice()) {
        return Err(error);
    }
    register_font_blobs(context, blobs.as_slice());
    Ok(())
}

/// `names` are the listed families of a context in the order of their characters, each once.
pub open spec fn are_family_names(context: FontContext, names: Seq<String>) -> bool {
    strictly_ordered(texts_of(names)) && texts_of(names).to_set() == context.families()
}

/// Family names are listed in one order: two listings of the same families are the same, as those
/// before and after fonts were refused.
pub proof fn law_family_names_are_listed_alike(
    before: FontContext,
    after: FontContext,
    first: Seq<String>,
    second: Seq<String>,
)
    requires
        after.families() == before.families(),
        are_family_names(before, first),
        are_family_names(after, second),
    ensures
        texts_of(first) == texts_of(second),
{
    law_ordered_texts_are_unique(texts_of(first), texts_of(second));
}

/// Returns the available family names in stable display order.
///
/// The names come in the order of their characters, each once. Those of the registered fonts are
/// among them; without the fonts of the system, there are no others.
pub fn family_names(context: &mut FontContext) -> (names: Vec<String>)
    ensures
        are_family_names(*old(context), names@),
        registered_families(old(context).registered()).subset_of(texts_of(names@).to_set()),
        !old(context).has_system_fonts() ==> texts_of(names@).to_set() == registered_families(
            old(context).registered(),
        ),
        final(context).registered() == old(context).registered(),
        final(context).families() == old(context).families(),
        final(context).sources() == old(context).sources(),
        final(context).has_system_fonts() == old(context).has_system_fonts(),
{
    let names: Vec<String> = collection_families(&mut context.collection);
    ordered_texts(names)
}

/// Font attributes used for direct font queries.
pub struct FaceRequest<'a> {
    /// Ordered font families to query.
    pub families: &'a [FaceFamily<'a>],
    /// OpenType weight, normally in the range 1 through 1000, as a setting of the weight axis.
    pub weight: VariationSetting,
    /// Requested style.
    pub style: FontStyle,
    /// Optional character that the selected face must cover.
    pub character: Option<char>,
}

/// Whether a face has a glyph for a character, if one is asked for.
pub open spec fn covers(face: OfferedFace, character: Option<char>) -> bool {
    character matches Some(character) ==> face.characters.contains(character)
}

/// What fonts that a query found are.
pub open spec fn offered_by(fonts: Seq<QueryFont>) -> Seq<OfferedFace> {
    fonts.map_values(|font: QueryFont| offered_face(font))
}

/// `selected` is the first of the fonts that covers a character.
pub open spec fn is_first_covering(
    fonts: Seq<QueryFont>,
    character: Option<char>,
    selected: Option<QueryFont>,
) -> bool {
    match selected {
        Some(font) => exists|position: int|
            {
                &&& 0 <= position < fonts.len()
                &&& #[trigger] fonts[position] == font
                &&& covers(offered_face(font), character)
                &&& forall|earlier: int|
                    0 <= earlier < position ==> !covers(
                        offered_face(#[trigger] fonts[earlier]),
                        character,
                    )
            },
        None => forall|position: int|
            0 <= position < fonts.len() ==> !covers(
                offered_face(#[trigger] fonts[position]),
                character,
            ),
    }
}

/// The families of a request.
pub open spec fn family_keys(families: Seq<FaceFamily<'_>>) -> Seq<FamilyKey> {
    families.map_values(|family: FaceFamily<'_>| family@)
}

/// The first font that covers a character, if one is asked for.
pub fn first_covering(fonts: Vec<QueryFont>, character: Option<char>) -> (selected: Option<
    QueryFont,
>)
    ensures
        is_first_covering(fonts@, character, selected),
{
    let mut remaining: Vec<QueryFont> = fonts;
    let mut position: usize = 0;
    while position < remaining.len()
        invariant
            position <= remaining@.len(),
            remaining@ == fonts@,
            forall|earlier: int|
                0 <= earlier < position ==> !covers(
                    offered_face(#[trigger] fonts@[earlier]),
                    character,
                ),
        decreases remaining@.len() - position,
    {
        let covered: bool = match character {
            Some(character) => font_covers(&remaining[position], character),
            None => true,
        };
        if covered {
            assert(covers(offered_face(fonts@[position as int]), character));
            return Some(remaining.swap_remove(position));
        }
        position += 1;
    }
    None
}

/// The best face of the requested families that covers the requested character.
pub fn resolve_face(context: &mut FontContext, request: &FaceRequest<'_>) -> (selected: Option<
    QueryFont,
>)
    ensures
        final(context).registered() == old(context).registered(),
        final(context).has_system_fonts() == old(context).has_system_fonts(),
        final(context).families() == old(context).families(),
        exists|fonts: Seq<QueryFont>|
            {
                &&& #[trigger] is_first_covering(fonts, request.character, selected)
                &&& !old(context).has_system_fonts() ==> offered_by(fonts) == offered_faces(
                    old(context).registered(),
                    family_keys(request.families@),
                    request.style,
                    setting_parts(request.weight).1,
                )
            },
{
    let fonts: Vec<QueryFont> = query_fonts(
        &mut context.collection,
        &mut context.source_cache,
        request.families,
        face_attributes(request.style, &request.weight),
    );
    first_covering(fonts, request.character)
}

/// The face that is selected covers the character that is asked for, and no face that is offered
/// before it does. Where none is selected, none covers it. Without a character the first face is
/// selected.
pub proof fn law_the_first_covering_face_is_selected(
    fonts: Seq<QueryFont>,
    character: Option<char>,
    selected: Option<QueryFont>,
)
    requires
        is_first_covering(fonts, character, selected),
    ensures
        character is None && fonts.len() > 0 ==> selected == Some(fonts[0]),
        character is None && fonts.len() == 0 ==> selected is None,
        character matches Some(character) ==> {
            &&& selected matches Some(font) ==> {
                &&& offered_face(font).characters.contains(character)
                &&& exists|position: int|
                    {
                        &&& 0 <= position < fonts.len()
                        &&& #[trigger] fonts[position] == font
                        &&& forall|earlier: int|
                            0 <= earlier < position ==> !offered_face(
                                #[trigger] fonts[earlier],
                            ).characters.contains(character)
                    }
            }
            &&& selected is None ==> forall|position: int|
                0 <= position < fonts.len() ==> !offered_face(
                    #[trigger] fonts[position],
                ).characters.contains(character)
        },
{
    if character is None && fonts.len() > 0 {
        assert(covers(offered_face(fonts[0]), character));
    }
}

/// Fonts are supported together exactly if each of them is.
pub proof fn law_fonts_are_supported_one_by_one(fonts: Seq<Seq<u8>>)
    ensures
        all_supported(fonts) <==> forall|which: int|
            0 <= which < fonts.len() ==> has_supported_face(#[trigger] fonts[which]),
{
}

/// The bytes of a list of fonts are those of its fonts, and the families of a request are those
/// that it names, one for one.
pub proof fn law_lists_are_read_one_for_one(
    fonts: Seq<&[u8]>,
    blobs: Seq<Blob<u8>>,
    families: Seq<FaceFamily<'_>>,
    at: int,
)
    ensures
        fonts_bytes(fonts).len() == fonts.len(),
        0 <= at < fonts.len() ==> fonts_bytes(fonts)[at] == fonts[at]@,
        blobs_bytes(blobs).len() == blobs.len(),
        0 <= at < blobs.len() ==> blobs_bytes(blobs)[at] == blob_bytes(blobs[at]),
        family_keys(families).len() == families.len(),
        0 <= at < families.len() ==> match families[at] {
            FaceFamily::Named(name) => family_keys(families)[at] == FamilyKey::Named(name@),
            FaceFamily::SystemUi => family_keys(families)[at] == FamilyKey::SystemUi,
        },
{
}

} // verus!
