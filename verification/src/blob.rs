//! Shared font bytes and the styling that a font lookup asks for.

use crate::scalar::Scalar;
use fontique::{Blob, Synthesis};
use skrifa::setting::VariationSetting;
use vstd::prelude::*;

verus! {

/// Shared bytes with an identifier, from `fontique`.
#[verifier::external_type_specification]
#[verifier::external_body]
#[verifier::reject_recursive_types(T)]
pub struct ExBlob<T>(fontique::Blob<T>);

/// What a font lookup asks of a rasterizer, from `fontique`.
#[verifier::external_type_specification]
#[verifier::external_body]
pub struct ExSynthesis(fontique::Synthesis);

/// A variation axis and a position on it, from `skrifa`.
#[verifier::external_type_specification]
#[verifier::external_body]
#[verifier::reject_recursive_types(T)]
pub struct ExSetting<T>(skrifa::setting::Setting<T>);

/// The bytes that a blob holds.
pub uninterp spec fn blob_bytes(blob: Blob<u8>) -> Seq<u8>;

/// The identifier that a blob carries.
pub uninterp spec fn blob_id(blob: Blob<u8>) -> u64;

/// Whether a synthesis asks for a heavier outline, and by how many degrees it skews one, if at
/// all.
pub uninterp spec fn synthesis_styling(synthesis: Synthesis) -> FontSynthesis;

/// The variation settings that a synthesis asks for: tags, and values by their encoding.
pub uninterp spec fn synthesis_settings(synthesis: Synthesis) -> Seq<(u32, u32)>;

/// The tag of a setting, and its value by its encoding.
pub uninterp spec fn setting_parts(setting: VariationSetting) -> (u32, u32);

/// The tags and values of a list of settings.
pub open spec fn settings_parts(settings: Seq<VariationSetting>) -> Seq<(u32, u32)> {
    settings.map_values(|setting: VariationSetting| setting_parts(setting))
}

/// Synthetic styling attached to an exact font instance.
#[derive(Clone, Copy, Debug)]
pub struct FontSynthesis {
    /// Whether the rasterizer should synthesize a heavier outline.
    pub embolden: bool,
    /// Synthetic clockwise skew in degrees.
    pub skew_degrees: Option<Scalar>,
}

impl Default for FontSynthesis {
    fn default() -> (synthesis: FontSynthesis)
        ensures
            !synthesis.embolden,
            synthesis.skew_degrees is None,
    {
        FontSynthesis { embolden: false, skew_degrees: None }
    }
}

impl FontSynthesis {
    /// Whether two stylings are equal; skews compare as numbers do.
    pub open spec fn equals(self, other: FontSynthesis) -> bool {
        &&& self.embolden == other.embolden
        &&& match (self.skew_degrees, other.skew_degrees) {
            (None, None) => true,
            (Some(left), Some(right)) => left.equals(right),
            _ => false,
        }
    }
}

impl PartialEq for FontSynthesis {
    fn eq(&self, other: &Self) -> (equal: bool) {
        let same_skew: bool = match (self.skew_degrees, other.skew_degrees) {
            (None, None) => true,
            (Some(left), Some(right)) => left == right,
            _ => false,
        };
        self.embolden == other.embolden && same_skew
    }
}

impl vstd::std_specs::cmp::PartialEqSpecImpl for FontSynthesis {
    open spec fn obeys_eq_spec() -> bool {
        true
    }

    open spec fn eq_spec(&self, other: &Self) -> bool {
        self.equals(*other)
    }
}

/// Calls `Blob::data`, which hands out the bytes that the blob holds.
#[verifier::external_body]
pub(crate) fn blob_data(blob: &Blob<u8>) -> (data: &[u8])
    ensures
        data@ == blob_bytes(*blob),
{
    blob.data()
}

/// Calls `Blob::id`, which returns the identifier that the blob carries.
#[verifier::external_body]
pub(crate) fn blob_identity(blob: &Blob<u8>) -> (id: u64)
    ensures
        id == blob_id(*blob),
{
    blob.id()
}

/// Calls `Blob::clone`: the copy shares the bytes and the identifier.
#[verifier::external_body]
pub(crate) fn blob_clone(blob: &Blob<u8>) -> (copy: Blob<u8>)
    ensures
        blob_bytes(copy) == blob_bytes(*blob),
        blob_id(copy) == blob_id(*blob),
{
    blob.clone()
}

/// Calls `Blob::from`, which takes the bytes over. The identifier comes from a counter of the
/// process, so nothing is said of it.
#[verifier::external_body]
pub(crate) fn blob_from(bytes: Vec<u8>) -> (blob: Blob<u8>)
    ensures
        blob_bytes(blob) == bytes@,
{
    Blob::from(bytes)
}

/// Calls `Synthesis::embolden` and `Synthesis::skew`, and keeps the skew by its encoding.
#[verifier::external_body]
pub(crate) fn font_synthesis(synthesis: &Synthesis) -> (styling: FontSynthesis)
    ensures
        styling == synthesis_styling(*synthesis),
{
    FontSynthesis {
        embolden: synthesis.embolden(),
        skew_degrees: synthesis.skew().map(|degrees| Scalar { bits: degrees.to_bits() }),
    }
}

/// Calls `Synthesis::variation_settings`, and hands each setting out as one of `skrifa`'s.
#[verifier::external_body]
pub(crate) fn variation_settings(synthesis: &Synthesis) -> (settings: Vec<VariationSetting>)
    ensures
        settings@.map_values(|setting: VariationSetting| setting_parts(setting))
            == synthesis_settings(*synthesis),
{
    synthesis.variation_settings().iter().map(|setting| setting.into()).collect()
}

} // verus!
