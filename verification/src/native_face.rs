//! Native faces, for rasterizers that draw through CoreText.
//!
//! The native calls are made by the host. This module picks what a native face is made from: the
//! platform's own descriptor of a collection face, or a font extracted from the collection.

use crate::design::FontVariation;
use crate::sfnt::{
    collection_face_offset, compact_sfnt_for_face, compacted, face_offset_in, face_table,
    head_tag, identity_table_matches, is_collection, same_identity, starts_collection, table_in,
    SfntError,
};
use vstd::prelude::*;

verus! {

/// The tables by which a native font descriptor identifies its physical face.
#[derive(Clone, Debug)]
pub struct DescriptorTables {
    /// The naming table.
    pub name: Option<Vec<u8>>,
    /// The font header table.
    pub head: Option<Vec<u8>>,
    /// The maximum profile table.
    pub maxp: Option<Vec<u8>>,
}

/// The tag of the naming table.
pub open spec fn name_tag() -> Seq<u8> {
    seq![0x6eu8, 0x61u8, 0x6du8, 0x65u8]
}

/// The tag of the maximum profile table.
pub open spec fn maxp_tag() -> Seq<u8> {
    seq![0x6du8, 0x61u8, 0x78u8, 0x70u8]
}

/// Whether the table that a descriptor exposes under `tag` is that of the face at
/// `face_offset`.
pub open spec fn table_identifies(
    data: Seq<u8>,
    face_offset: int,
    tag: Seq<u8>,
    actual: Option<Vec<u8>>,
) -> Result<bool, SfntError> {
    match table_in(data, face_offset, tag) {
        Err(error) => Err(error),
        Ok(None) => Ok(false),
        Ok(Some(expected)) => match actual {
            None => Ok(false),
            Some(actual) => Ok(same_identity(tag, actual@, expected)),
        },
    }
}

/// Whether a descriptor is the face at `face_offset`: its `name`, `head` and `maxp` tables all
/// are. The first table that is not, or cannot be read, decides.
pub open spec fn descriptor_is_face(
    tables: DescriptorTables,
    data: Seq<u8>,
    face_offset: int,
) -> Result<bool, SfntError> {
    match table_identifies(data, face_offset, name_tag(), tables.name) {
        Ok(true) => match table_identifies(data, face_offset, head_tag(), tables.head) {
            Ok(true) => table_identifies(data, face_offset, maxp_tag(), tables.maxp),
            decided => decided,
        },
        decided => decided,
    }
}

/// The first descriptor, from `index` on, that is the face at `face_offset`.
pub open spec fn descriptor_from(
    descriptors: Seq<DescriptorTables>,
    data: Seq<u8>,
    face_offset: int,
    face_index: u32,
    index: int,
) -> Result<int, SfntError>
    decreases descriptors.len() - index,
{
    if index >= descriptors.len() {
        Err(
            SfntError::NoMatchingDescriptor {
                descriptor_count: descriptors.len() as usize,
                face_index,
            },
        )
    } else {
        match descriptor_is_face(descriptors[index], data, face_offset) {
            Err(error) => Err(error),
            Ok(true) => Ok(index),
            Ok(false) => descriptor_from(descriptors, data, face_offset, face_index, index + 1),
        }
    }
}

/// The first descriptor that is face `face_index` of the collection.
pub open spec fn descriptor_of(
    descriptors: Seq<DescriptorTables>,
    data: Seq<u8>,
    face_index: u32,
) -> Result<int, SfntError> {
    match face_offset_in(data, face_index) {
        Err(error) => Err(error),
        Ok(face_offset) => descriptor_from(descriptors, data, face_offset, face_index, 0),
    }
}

/// Whether one exposed table is the face's own.
fn table_matches(
    data: &[u8],
    face_offset: usize,
    tag: &[u8; 4],
    actual: &Option<Vec<u8>>,
) -> (matches: Result<bool, SfntError>)
    ensures
        matches == table_identifies(data@, face_offset as int, tag@, *actual),
{
    let expected: &[u8] = match face_table(data, face_offset, tag) {
        Err(error) => return Err(error),
        Ok(None) => return Ok(false),
        Ok(Some(expected)) => expected,
    };
    match actual {
        None => Ok(false),
        Some(actual) => Ok(identity_table_matches(tag, actual.as_slice(), expected)),
    }
}

/// Whether a native descriptor stands for the physical face at `face_offset`.
///
/// The platform expands variable faces into named-instance descriptors, so positions in its
/// descriptor list are not face indexes. These raw tables identify the physical face.
pub fn descriptor_matches_face(
    tables: &DescriptorTables,
    data: &[u8],
    face_offset: usize,
) -> (matches: Result<bool, SfntError>)
    ensures
        matches == descriptor_is_face(*tables, data@, face_offset as int),
{
    proof {
        assert([0x6eu8, 0x61u8, 0x6du8, 0x65u8]@ =~= name_tag());
        assert([0x68u8, 0x65u8, 0x61u8, 0x64u8]@ =~= head_tag());
        assert([0x6du8, 0x61u8, 0x78u8, 0x70u8]@ =~= maxp_tag());
    }
    match table_matches(data, face_offset, &[0x6eu8, 0x61u8, 0x6du8, 0x65u8], &tables.name) {
        Ok(true) => {},
        decided => return decided,
    }
    match table_matches(data, face_offset, &[0x68u8, 0x65u8, 0x61u8, 0x64u8], &tables.head) {
        Ok(true) => {},
        decided => return decided,
    }
    table_matches(data, face_offset, &[0x6du8, 0x61u8, 0x78u8, 0x70u8], &tables.maxp)
}

/// The native descriptor of a collection face, as an index into `descriptors`.
pub fn collection_descriptor(
    descriptors: &Vec<DescriptorTables>,
    data: &[u8],
    face_index: u32,
) -> (selected: Result<usize, SfntError>)
    ensures
        match (selected, descriptor_of(descriptors@, data@, face_index)) {
            (Ok(selected), Ok(expected)) => selected == expected,
            (Err(error), Err(expected)) => error == expected,
            _ => false,
        },
{
    let face_offset: usize = match collection_face_offset(data, face_index) {
        Ok(face_offset) => face_offset,
        Err(error) => return Err(error),
    };
    let mut index: usize = 0;
    while index < descriptors.len()
        invariant
            index <= descriptors@.len(),
            descriptor_of(descriptors@, data@, face_index) == descriptor_from(
                descriptors@,
                data@,
                face_offset as int,
                face_index,
                index as int,
            ),
        decreases descriptors@.len() - index,
    {
        match descriptor_matches_face(&descriptors[index], data, face_offset) {
            Err(error) => return Err(error),
            Ok(true) => return Ok(index),
            Ok(false) => {},
        }
        index += 1;
    }
    Err(SfntError::NoMatchingDescriptor { descriptor_count: descriptors.len(), face_index })
}

/// What a native face is made from.
#[derive(Clone, Debug, PartialEq, Eq)]
pub enum NativeSource {
    /// The whole bytes, which hold a single font.
    WholeFont,
    /// The platform's own descriptor with this index, over the whole collection.
    Descriptor(usize),
    /// A font extracted from the collection.
    Extracted(Vec<u8>),
}

/// Picks what a native face is made from.
///
/// `descriptors` is what the platform made of the bytes, or `None` where it rejected them. A
/// collection face that the platform does not offer is extracted.
pub fn native_source(
    data: &[u8],
    face_index: u32,
    descriptors: &Option<Vec<DescriptorTables>>,
) -> (source: Result<NativeSource, SfntError>)
    ensures
        !is_collection(data@) && face_index == 0 ==> source == Ok::<NativeSource, SfntError>(
            NativeSource::WholeFont,
        ),
        !is_collection(data@) && face_index != 0 ==> source == Err::<NativeSource, SfntError>(
            SfntError::SingleFontFace { face_index },
        ),
        is_collection(data@) ==> match (*descriptors) {
            Some(offered) if descriptor_of(offered@, data@, face_index) is Ok => source matches Ok(
                NativeSource::Descriptor(index),
            ) && Ok::<int, SfntError>(index as int) == descriptor_of(offered@, data@, face_index),
            _ => match compacted(data@, face_index) {
                Ok(font) => source matches Ok(NativeSource::Extracted(bytes)) && bytes@ == font,
                Err(error) => source == Err::<NativeSource, SfntError>(error),
            },
        },
{
    if !starts_collection(data) {
        if face_index != 0 {
            return Err(SfntError::SingleFontFace { face_index });
        }
        return Ok(NativeSource::WholeFont);
    }
    match descriptors {
        Some(offered) => match collection_descriptor(offered, data, face_index) {
            Ok(index) => return Ok(NativeSource::Descriptor(index)),
            Err(_) => {},
        },
        None => {},
    }
    match compact_sfnt_for_face(data, face_index) {
        Ok(font) => Ok(NativeSource::Extracted(font)),
        Err(error) => Err(error),
    }
}

/// Why a native face could not be made.
#[derive(Clone, Copy, Debug, PartialEq, Eq, Structural)]
pub enum NativeFaceError {
    /// The face is not in the font bytes, or cannot be extracted from them.
    Sfnt(SfntError),
    /// The platform rejected the selected font face.
    FaceRejected,
    /// The platform rejected the extracted font face.
    ExtractedFaceRejected,
    /// The platform rejected the variation coordinates.
    VariationsRejected,
}

/// The platform's fonts. The host supplies them.
pub trait NativeFonts {
    /// Font bytes that the platform holds on to.
    type Source;

    /// A face that the platform can size and draw.
    type Descriptor;

    /// The descriptors that the platform makes of a collection.
    type Listing;

    /// Hands font bytes to the platform.
    fn source_from_bytes(&self, bytes: Vec<u8>) -> Self::Source;

    /// Another handle to the same bytes.
    fn share(&self, source: &Self::Source) -> Self::Source;

    /// The descriptors that the platform makes of a collection, with their identifying tables,
    /// unless it rejects the collection.
    fn collection_tables(&self, source: &Self::Source) -> Option<
        (Self::Listing, Vec<DescriptorTables>),
    >;

    /// One of the descriptors that the platform made of a collection.
    fn collection_descriptor(&self, listing: &Self::Listing, index: usize) -> Self::Descriptor;

    /// The descriptor of a single font, unless the platform rejects it.
    fn single_descriptor(&self, source: &Self::Source) -> Option<Self::Descriptor>;

    /// A descriptor at the given design-space coordinates, unless the platform rejects them.
    fn vary(
        &self,
        descriptor: Self::Descriptor,
        variations: &[FontVariation],
    ) -> Option<Self::Descriptor>;
}

/// A face that the platform can draw, and the bytes that it reads from.
///
/// The platform may defer reading tables until a sized font first draws, so the bytes are kept as
/// long as the face.
pub struct NativeFace<F: NativeFonts> {
    /// The platform's descriptor.
    pub descriptor: F::Descriptor,
    /// The bytes.
    pub source_data: F::Source,
}

/// `result` is the descriptor of a face, with the bytes that it reads from and whether those are
/// the shared ones: the whole font, a face of the collection that the platform offers, or a font
/// extracted from the collection.
pub open spec fn is_selected<F: NativeFonts>(
    fonts: &F,
    data: Seq<u8>,
    face_index: u32,
    shared: F::Source,
    result: Result<(F::Descriptor, F::Source, bool), NativeFaceError>,
) -> bool {
    if !is_collection(data) {
        if face_index != 0 {
            result == Err::<(F::Descriptor, F::Source, bool), NativeFaceError>(
                NativeFaceError::Sfnt(SfntError::SingleFontFace { face_index }),
            )
        } else {
            exists|descriptor: Option<F::Descriptor>|
                {
                    &&& #[trigger] call_ensures(F::single_descriptor, (fonts, &shared), descriptor)
                    &&& match descriptor {
                        Some(descriptor) => result == Ok::<
                            (F::Descriptor, F::Source, bool),
                            NativeFaceError,
                        >((descriptor, shared, true)),
                        None => result == Err::<
                            (F::Descriptor, F::Source, bool),
                            NativeFaceError,
                        >(NativeFaceError::FaceRejected),
                    }
                }
        }
    } else {
        exists|offered: Option<(F::Listing, Vec<DescriptorTables>)>|
            {
                &&& #[trigger] call_ensures(F::collection_tables, (fonts, &shared), offered)
                &&& match offered {
                    Some((listing, offered)) if descriptor_of(offered@, data, face_index) is Ok => {
                        &&& result matches Ok(selected)
                        &&& selected.1 == shared
                        &&& selected.2
                        &&& call_ensures(
                            F::collection_descriptor,
                            (
                                fonts,
                                &listing,
                                descriptor_of(offered@, data, face_index)->Ok_0 as usize,
                            ),
                            selected.0,
                        )
                    },
                    _ => is_extracted(fonts, data, face_index, result),
                }
            }
    }
}

/// `result` is the descriptor of a font extracted from a collection, with the extracted bytes.
pub open spec fn is_extracted<F: NativeFonts>(
    fonts: &F,
    data: Seq<u8>,
    face_index: u32,
    result: Result<(F::Descriptor, F::Source, bool), NativeFaceError>,
) -> bool {
    match compacted(data, face_index) {
        Err(error) => result == Err::<(F::Descriptor, F::Source, bool), NativeFaceError>(
            NativeFaceError::Sfnt(error),
        ),
        Ok(font) => exists|bytes: Vec<u8>, source: F::Source, descriptor: Option<F::Descriptor>|
            {
                &&& #[trigger] call_ensures(F::source_from_bytes, (fonts, bytes), source)
                &&& bytes@ == font
                &&& #[trigger] call_ensures(F::single_descriptor, (fonts, &source), descriptor)
                &&& match descriptor {
                    Some(descriptor) => result == Ok::<
                        (F::Descriptor, F::Source, bool),
                        NativeFaceError,
                    >((descriptor, source, false)),
                    None => result == Err::<(F::Descriptor, F::Source, bool), NativeFaceError>(
                        NativeFaceError::ExtractedFaceRejected,
                    ),
                }
            },
    }
}

/// The descriptor of a face, with the bytes that it reads from and whether those are the shared
/// ones.
fn select_face<F: NativeFonts>(fonts: &F, data: &[u8], face_index: u32, shared: F::Source)
    -> (result: Result<(F::Descriptor, F::Source, bool), NativeFaceError>)
    ensures
        is_selected(fonts, data@, face_index, shared, result),
{
    let listed: Option<(F::Listing, Vec<DescriptorTables>)> = if starts_collection(data) {
        fonts.collection_tables(&shared)
    } else {
        None
    };
    let (listing, offered): (Option<F::Listing>, Option<Vec<DescriptorTables>>) = match listed {
        Some((listing, offered)) => (Some(listing), Some(offered)),
        None => (None, None),
    };
    match native_source(data, face_index, &offered) {
        Err(error) => Err(NativeFaceError::Sfnt(error)),
        Ok(NativeSource::WholeFont) => match fonts.single_descriptor(&shared) {
            Some(descriptor) => Ok((descriptor, shared, true)),
            None => Err(NativeFaceError::FaceRejected),
        },
        Ok(NativeSource::Descriptor(index)) => {
            let descriptor: F::Descriptor = fonts.collection_descriptor(
                listing.as_ref().unwrap(),
                index,
            );
            Ok((descriptor, shared, true))
        },
        Ok(NativeSource::Extracted(bytes)) => {
            let source: F::Source = fonts.source_from_bytes(bytes);
            match fonts.single_descriptor(&source) {
                Some(descriptor) => Ok((descriptor, source, false)),
                None => Err(NativeFaceError::ExtractedFaceRejected),
            }
        },
    }
}

/// `result` is a native face at design-space coordinates, and whether it reads from the shared
/// bytes.
pub open spec fn is_native_face<F: NativeFonts>(
    fonts: &F,
    data: Seq<u8>,
    face_index: u32,
    variations: &[FontVariation],
    shared: F::Source,
    result: Result<(NativeFace<F>, bool), NativeFaceError>,
) -> bool {
    exists|selected: Result<(F::Descriptor, F::Source, bool), NativeFaceError>|
        {
            &&& #[trigger] is_selected(fonts, data, face_index, shared, selected)
            &&& match selected {
                Err(error) => result == Err::<(NativeFace<F>, bool), NativeFaceError>(error),
                Ok((descriptor, source, is_shared)) => if variations@.len() == 0 {
                    result == Ok::<(NativeFace<F>, bool), NativeFaceError>(
                        (NativeFace { descriptor, source_data: source }, is_shared),
                    )
                } else {
                    exists|varied: Option<F::Descriptor>|
                        {
                            &&& #[trigger] call_ensures(
                                F::vary,
                                (fonts, descriptor, variations),
                                varied,
                            )
                            &&& match varied {
                                Some(varied) => result == Ok::<
                                    (NativeFace<F>, bool),
                                    NativeFaceError,
                                >((NativeFace { descriptor: varied, source_data: source }, is_shared)),
                                None => result == Err::<(NativeFace<F>, bool), NativeFaceError>(
                                    NativeFaceError::VariationsRejected,
                                ),
                            }
                        }
                },
            }
        }
}

impl<F: NativeFonts> NativeFace<F> {
    /// A native face, and whether it reads from the shared bytes.
    pub fn new(
        fonts: &F,
        data: &[u8],
        face_index: u32,
        variations: &[FontVariation],
        shared: F::Source,
    ) -> (result: Result<(NativeFace<F>, bool), NativeFaceError>)
        ensures
            is_native_face(fonts, data@, face_index, variations, shared, result),
    {
        let selected: Result<(F::Descriptor, F::Source, bool), NativeFaceError> = select_face(
            fonts,
            data,
            face_index,
            shared,
        );
        match selected {
            Err(error) => Err(error),
            Ok((descriptor, source, is_shared)) => {
                if variations.len() == 0 {
                    return Ok((NativeFace { descriptor, source_data: source }, is_shared));
                }
                match fonts.vary(descriptor, variations) {
                    Some(varied) => Ok(
                        (NativeFace { descriptor: varied, source_data: source }, is_shared),
                    ),
                    None => Err(NativeFaceError::VariationsRejected),
                }
            },
        }
    }
}

} // verus!
