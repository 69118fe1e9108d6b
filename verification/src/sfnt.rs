//! The binary layout of font collections and of the faces inside them.

use vstd::prelude::*;

verus! {

/// Why a face could not be located in, or extracted from, font bytes.
#[derive(Clone, Copy, Debug, PartialEq, Eq, Structural)]
pub enum SfntError {
    /// Compact extraction requires a font collection.
    NotACollection,
    /// The collection header ends before the face count.
    TruncatedCollectionHeader,
    /// The collection holds fewer faces than the requested index needs.
    FaceOutOfRange { face_count: u32, face_index: u32 },
    /// The position of the face's offset does not fit in memory.
    FaceOffsetOverflow,
    /// The collection ends inside its list of face offsets.
    TruncatedFaceOffsets,
    /// The face ends before its table count.
    TruncatedHeader,
    /// The end of the table directory does not fit in memory.
    DirectoryOffsetOverflow,
    /// The bytes end inside the table directory.
    TruncatedDirectory,
    /// The position of a table record does not fit in memory.
    TableRecordOverflow,
    /// The bytes end inside a table record's tag.
    TruncatedTableTag,
    /// The bytes end inside a table record's offset.
    TruncatedTableOffset,
    /// The bytes end inside a table record's length.
    TruncatedTableLength,
    /// The end of a table does not fit in memory.
    TableEndOverflow,
    /// The bytes end inside a table.
    TruncatedTable,
    /// The extracted face exceeds the OpenType offset range.
    OffsetRangeExceeded,
    /// The `head` table is too short to hold a checksum adjustment.
    TruncatedHead,
    /// The face has no `head` table.
    MissingHead,
    /// A single font holds only face zero.
    SingleFontFace { face_index: u32 },
    /// None of the native descriptors is the requested physical face.
    NoMatchingDescriptor { descriptor_count: usize, face_index: u32 },
}

/// The value that the checksum of a whole font has.
pub const CHECKSUM_MAGIC: u32 = 0xb1b0_afba;

/// The tag that a font collection starts with, as a number.
pub const COLLECTION_TAG: u32 = 0x7474_6366;

/// Whether a number is the version that a table directory starts with: that of TrueType outlines,
/// that of PostScript outlines, or that of older fonts with TrueType outlines.
pub open spec fn is_font_version(version: int) -> bool {
    version == 0x0001_0000 || version == 0x4f54_544f || version == 0x7472_7565
}

/// The modulus of 32-bit wrapping arithmetic.
pub open spec fn word_modulus() -> int {
    0x1_0000_0000
}

/// The big-endian 16-bit number at `at`.
pub open spec fn be16(data: Seq<u8>, at: int) -> int {
    data[at] * 0x100 + data[at + 1]
}

/// The big-endian 32-bit number at `at`.
pub open spec fn be32(data: Seq<u8>, at: int) -> int {
    data[at] * 0x100_0000 + data[at + 1] * 0x1_0000 + data[at + 2] * 0x100 + data[at + 3]
}

/// The four bytes of a 32-bit number, most significant first.
pub open spec fn be32_bytes(value: int) -> Seq<u8> {
    seq![
        (value / 0x100_0000) as u8,
        (value / 0x1_0000 % 0x100) as u8,
        (value / 0x100 % 0x100) as u8,
        (value % 0x100) as u8,
    ]
}

/// `data` with `patch` written over it at `at`.
pub open spec fn overwrite(data: Seq<u8>, at: int, patch: Seq<u8>) -> Seq<u8> {
    Seq::new(
        data.len(),
        |i: int| if at <= i < at + patch.len() { patch[i - at] } else { data[i] },
    )
}

/// The number of zero bytes that bring `len` to a multiple of four.
pub open spec fn padding_of(len: int) -> int {
    (4 - len % 4) % 4
}

/// `data` with zero bytes appended up to a multiple of four.
pub open spec fn padded(data: Seq<u8>) -> Seq<u8> {
    data + Seq::new(padding_of(data.len() as int) as nat, |i: int| 0u8)
}

/// The sum of the first `words` big-endian 32-bit words.
pub open spec fn word_sum(data: Seq<u8>, words: nat) -> int
    decreases words,
{
    if words == 0 {
        0
    } else {
        word_sum(data, (words - 1) as nat) + be32(data, 4 * (words - 1))
    }
}

/// The wrapping sum of all complete 32-bit words.
pub open spec fn checksum_of(data: Seq<u8>) -> int {
    word_sum(data, data.len() / 4) % word_modulus()
}

/// A table tag, as the four bytes that name it.
pub open spec fn tag_at(data: Seq<u8>, at: int) -> Seq<u8> {
    data.subrange(at, at + 4)
}

/// The tag that opens a font collection.
pub open spec fn ttc_tag() -> Seq<u8> {
    seq![0x74u8, 0x74u8, 0x63u8, 0x66u8]
}

/// The tag of the font header table.
pub open spec fn head_tag() -> Seq<u8> {
    seq![0x68u8, 0x65u8, 0x61u8, 0x64u8]
}

/// Whether the bytes open with the collection tag.
pub open spec fn is_collection(data: Seq<u8>) -> bool {
    data.len() >= 4 && tag_at(data, 0) == ttc_tag()
}

/// Where the face `face_index` of a collection starts, or why that cannot be told.
pub open spec fn face_offset_in(data: Seq<u8>, face_index: u32) -> Result<int, SfntError> {
    if data.len() < 12 {
        Err(SfntError::TruncatedCollectionHeader)
    } else if face_index >= be32(data, 8) {
        Err(SfntError::FaceOutOfRange { face_count: be32(data, 8) as u32, face_index })
    } else if 12 + face_index * 4 > usize::MAX {
        Err(SfntError::FaceOffsetOverflow)
    } else if data.len() < 12 + face_index * 4 + 4 {
        Err(SfntError::TruncatedFaceOffsets)
    } else {
        Ok(be32(data, 12 + face_index * 4))
    }
}

/// Reads a big-endian 16-bit number, if the bytes reach that far.
pub fn read_u16(data: &[u8], offset: usize) -> (value: Option<u16>)
    ensures
        value == if offset + 2 <= data@.len() {
            Some(be16(data@, offset as int) as u16)
        } else {
            None
        },
{
    if offset >= data.len() || data.len() - offset < 2 {
        return None;
    }
    Some(data[offset] as u16 * 0x100 + data[offset + 1] as u16)
}

/// Reads a big-endian 32-bit number, if the bytes reach that far.
pub fn read_u32(data: &[u8], offset: usize) -> (value: Option<u32>)
    ensures
        value == if offset + 4 <= data@.len() {
            Some(be32(data@, offset as int) as u32)
        } else {
            None
        },
{
    if offset >= data.len() || data.len() - offset < 4 {
        return None;
    }
    Some(
        data[offset] as u32 * 0x100_0000 + data[offset + 1] as u32 * 0x1_0000 + data[offset
            + 2] as u32 * 0x100 + data[offset + 3] as u32,
    )
}

/// Appends zero bytes up to a multiple of four.
pub fn pad_to_u32(data: &mut Vec<u8>)
    ensures
        final(data)@ == padded(old(data)@),
{
    let padding: usize = (4 - data.len() % 4) % 4;
    let ghost start = data@;
    let mut added: usize = 0;
    while added < padding
        invariant
            added <= padding,
            data@ == start + Seq::new(added as nat, |i: int| 0u8),
        decreases padding - added,
    {
        data.push(0);
        added += 1;
    }
}

/// Adding to a sum wraps as adding to its remainder does.
proof fn lemma_wrapped_sum(sum: int, remainder: u32, value: u32)
    requires
        remainder == sum % word_modulus(),
    ensures
        remainder.wrapping_add(value) == (sum + value) % word_modulus(),
{
    vstd::arithmetic::div_mod::lemma_add_mod_noop(sum, value as int, word_modulus());
}

/// The wrapping sum of the big-endian 32-bit words of `data`; a trailing partial word does not
/// count.
pub fn sfnt_checksum(data: &[u8]) -> (checksum: u32)
    ensures
        checksum == checksum_of(data@),
{
    let len: usize = data.len();
    let words: usize = len / 4;
    let mut checksum: u32 = 0;
    let mut word: usize = 0;
    while word < words
        invariant
            len == data@.len(),
            words == len / 4,
            word <= words,
            checksum == word_sum(data@, word as nat) % word_modulus(),
        decreases words - word,
    {
        let at: usize = word * 4;
        let value: u32 = data[at] as u32 * 0x100_0000 + data[at + 1] as u32 * 0x1_0000 + data[at
            + 2] as u32 * 0x100 + data[at + 3] as u32;
        proof {
            let sum = word_sum(data@, word as nat);
            assert(word_sum(data@, (word + 1) as nat) == sum + value);
            lemma_wrapped_sum(sum, checksum, value);
        }
        checksum = checksum.wrapping_add(value);
        word += 1;
    }
    checksum
}

/// The byte position at which a collection face starts.
pub fn collection_face_offset(data: &[u8], face_index: u32) -> (offset: Result<usize, SfntError>)
    ensures
        match (offset, face_offset_in(data@, face_index)) {
            (Ok(offset), Ok(expected)) => offset == expected,
            (Err(error), Err(expected)) => error == expected,
            _ => false,
        },
{
    let face_count: u32 = match read_u32(data, 8) {
        Some(face_count) => face_count,
        None => return Err(SfntError::TruncatedCollectionHeader),
    };
    if face_index >= face_count {
        return Err(SfntError::FaceOutOfRange { face_count, face_index });
    }
    let position: usize = match (face_index as usize).checked_mul(4) {
        Some(relative) => match relative.checked_add(12) {
            Some(position) => position,
            None => return Err(SfntError::FaceOffsetOverflow),
        },
        None => return Err(SfntError::FaceOffsetOverflow),
    };
    match read_u32(data, position) {
        Some(offset) => Ok(offset as usize),
        None => Err(SfntError::TruncatedFaceOffsets),
    }
}


/// What a lookup of `tag` finds when it starts at table record `index` of `count`.
pub open spec fn table_from(
    data: Seq<u8>,
    face_offset: int,
    tag: Seq<u8>,
    index: int,
    count: int,
) -> Result<Option<Seq<u8>>, SfntError>
    decreases count - index,
{
    let at = face_offset + 12 + index * 16;
    if index >= count {
        Ok(None)
    } else if at > usize::MAX {
        Err(SfntError::TableRecordOverflow)
    } else if at + 4 > data.len() {
        Err(SfntError::TruncatedTableTag)
    } else if tag_at(data, at) != tag {
        table_from(data, face_offset, tag, index + 1, count)
    } else if at + 12 > data.len() {
        Err(SfntError::TruncatedTableOffset)
    } else if at + 16 > data.len() {
        Err(SfntError::TruncatedTableLength)
    } else if be32(data, at + 8) + be32(data, at + 12) > usize::MAX {
        Err(SfntError::TableEndOverflow)
    } else if be32(data, at + 8) + be32(data, at + 12) > data.len() {
        Err(SfntError::TruncatedTable)
    } else {
        Ok(Some(data.subrange(be32(data, at + 8), be32(data, at + 8) + be32(data, at + 12))))
    }
}

/// The first table of the face at `face_offset` that is named `tag`, if there is one.
pub open spec fn table_in(data: Seq<u8>, face_offset: int, tag: Seq<u8>) -> Result<
    Option<Seq<u8>>,
    SfntError,
> {
    if face_offset + 6 > data.len() {
        Err(SfntError::TruncatedHeader)
    } else {
        table_from(data, face_offset, tag, 0, be16(data, face_offset + 4))
    }
}

/// Whether two tables named `tag` identify one physical face. A `head` table does so whatever
/// its checksum adjustment is.
pub open spec fn same_identity(tag: Seq<u8>, actual: Seq<u8>, expected: Seq<u8>) -> bool {
    if tag != head_tag() {
        actual == expected
    } else {
        &&& actual.len() >= 12
        &&& actual.len() == expected.len()
        &&& actual.subrange(0, 8) == expected.subrange(0, 8)
        &&& actual.skip(12) == expected.skip(12)
    }
}

/// Whether the bytes from `start` to `end` are the same in both.
fn same_bytes(left: &[u8], right: &[u8], start: usize, end: usize) -> (same: bool)
    requires
        start <= end <= left@.len(),
        end <= right@.len(),
    ensures
        same == (left@.subrange(start as int, end as int) == right@.subrange(
            start as int,
            end as int,
        )),
{
    let mut at: usize = start;
    while at < end
        invariant
            start <= at <= end <= left@.len(),
            end <= right@.len(),
            forall|i: int| start <= i < at ==> left@[i] == right@[i],
        decreases end - at,
    {
        if left[at] != right[at] {
            proof {
                let offset = at - start;
                assert(left@.subrange(start as int, end as int)[offset] != right@.subrange(
                    start as int,
                    end as int,
                )[offset]);
            }
            return false;
        }
        at += 1;
    }
    assert(left@.subrange(start as int, end as int) =~= right@.subrange(start as int, end as int));
    true
}

/// Whether the four bytes at `at` are `tag`.
fn tag_matches(data: &[u8], at: usize, tag: &[u8; 4]) -> (matches: bool)
    requires
        at + 4 <= data@.len(),
    ensures
        matches == (tag_at(data@, at as int) == tag@),
{
    let matches: bool = data[at] == tag[0] && data[at + 1] == tag[1] && data[at + 2] == tag[2]
        && data[at + 3] == tag[3];
    proof {
        let found = tag_at(data@, at as int);
        assert(found[0] == data@[at as int] && found[1] == data@[at + 1] && found[2] == data@[at
            + 2] && found[3] == data@[at + 3]);
        if matches {
            assert(found =~= tag@);
        }
    }
    matches
}

/// Whether the bytes open with the collection tag.
pub fn starts_collection(data: &[u8]) -> (collection: bool)
    ensures
        collection == is_collection(data@),
{
    proof {
        assert([0x74u8, 0x74u8, 0x63u8, 0x66u8]@ =~= ttc_tag());
    }
    data.len() >= 4 && tag_matches(data, 0, &[0x74u8, 0x74u8, 0x63u8, 0x66u8])
}

/// Whether a table exposed by the platform is the face's own table of that name.
///
/// The platform clears a `head` table's checksum adjustment when it exposes a face from a
/// collection, so those four bytes do not count.
pub fn identity_table_matches(tag: &[u8; 4], actual: &[u8], expected: &[u8]) -> (matches: bool)
    ensures
        matches == same_identity(tag@, actual@, expected@),
{
    let is_head: bool = tag_matches(tag.as_slice(), 0, &[0x68u8, 0x65u8, 0x61u8, 0x64u8]);
    proof {
        assert(tag_at(tag@, 0) =~= tag@);
        assert([0x68u8, 0x65u8, 0x61u8, 0x64u8]@ =~= head_tag());
        assert(actual@.subrange(0, actual@.len() as int) =~= actual@);
        assert(expected@.subrange(0, expected@.len() as int) =~= expected@);
        if actual@.len() >= 12 && actual@.len() == expected@.len() {
            assert(actual@.skip(12) =~= actual@.subrange(12, actual@.len() as int));
            assert(expected@.skip(12) =~= expected@.subrange(12, expected@.len() as int));
        }
    }
    if !is_head {
        return actual.len() == expected.len() && same_bytes(actual, expected, 0, actual.len());
    }
    actual.len() >= 12 && actual.len() == expected.len() && same_bytes(actual, expected, 0, 8)
        && same_bytes(actual, expected, 12, actual.len())
}

/// The bytes of the first table named `target_tag` in the face at `face_offset`.
pub fn face_table<'a>(data: &'a [u8], face_offset: usize, target_tag: &[u8; 4]) -> (table: Result<
    Option<&'a [u8]>,
    SfntError,
>)
    ensures
        match (table, table_in(data@, face_offset as int, target_tag@)) {
            (Ok(Some(table)), Ok(Some(expected))) => table@ == expected,
            (Ok(None), Ok(None)) => true,
            (Err(error), Err(expected)) => error == expected,
            _ => false,
        },
{
    if face_offset > data.len() || data.len() - face_offset < 6 {
        return Err(SfntError::TruncatedHeader);
    }
    let table_count: usize = match read_u16(data, face_offset + 4) {
        Some(table_count) => table_count as usize,
        None => return Err(SfntError::TruncatedHeader),
    };
    let mut table_idx: usize = 0;
    while table_idx < table_count
        invariant
            face_offset + 6 <= data@.len(),
            table_count == be16(data@, face_offset + 4),
            table_count <= 0xffff,
            table_idx <= table_count,
            table_in(data@, face_offset as int, target_tag@) == table_from(
                data@,
                face_offset as int,
                target_tag@,
                table_idx as int,
                table_count as int,
            ),
        decreases table_count - table_idx,
    {
        let position: usize = match face_offset.checked_add(12 + table_idx * 16) {
            Some(position) => position,
            None => return Err(SfntError::TableRecordOverflow),
        };
        if position > data.len() || data.len() - position < 4 {
            return Err(SfntError::TruncatedTableTag);
        }
        if tag_matches(data, position, target_tag) {
            if data.len() - position < 12 {
                return Err(SfntError::TruncatedTableOffset);
            }
            if data.len() - position < 16 {
                return Err(SfntError::TruncatedTableLength);
            }
            let table_offset: usize = match read_u32(data, position + 8) {
                Some(table_offset) => table_offset as usize,
                None => return Err(SfntError::TruncatedTableOffset),
            };
            let table_len: usize = match read_u32(data, position + 12) {
                Some(table_len) => table_len as usize,
                None => return Err(SfntError::TruncatedTableLength),
            };
            let table_end: usize = match table_offset.checked_add(table_len) {
                Some(table_end) => table_end,
                None => return Err(SfntError::TableEndOverflow),
            };
            if table_end > data.len() {
                return Err(SfntError::TruncatedTable);
            }
            return Ok(Some(vstd::slice::slice_subrange(data, table_offset, table_end)));
        }
        table_idx += 1;
    }
    Ok(None)
}

/// The bytes and the `head` position after the first `count` tables named by `directory` have
/// been appended to it, each padded to a multiple of four and each record pointing at its copy.
pub open spec fn assembled(data: Seq<u8>, directory: Seq<u8>, count: nat) -> Result<
    (Seq<u8>, Option<int>),
    SfntError,
>
    decreases count,
{
    if count == 0 {
        Ok((directory, None))
    } else {
        match assembled(data, directory, (count - 1) as nat) {
            Err(error) => Err(error),
            Ok((bytes, head)) => {
                let at = 12 + (count - 1) * 16;
                let start = be32(directory, at + 8);
                let len = be32(directory, at + 12);
                let target = padded(bytes).len();
                if start + len > usize::MAX {
                    Err(SfntError::TableEndOverflow)
                } else if start + len > data.len() {
                    Err(SfntError::TruncatedTable)
                } else if target > u32::MAX {
                    Err(SfntError::OffsetRangeExceeded)
                } else if tag_at(directory, at) == head_tag() && len < 12 {
                    Err(SfntError::TruncatedHead)
                } else {
                    Ok(
                        (
                            overwrite(padded(bytes), at + 8, be32_bytes(target as int))
                                + data.subrange(start, start + len),
                            if tag_at(directory, at) == head_tag() {
                                Some(target as int)
                            } else {
                                head
                            },
                        ),
                    )
                }
            },
        }
    }
}

/// A font whose checksum adjustment, at `head + 8`, makes its checksum `CHECKSUM_MAGIC`.
pub open spec fn adjusted(font: Seq<u8>, head: int) -> Seq<u8> {
    let cleared = overwrite(font, head + 8, be32_bytes(0));
    overwrite(
        cleared,
        head + 8,
        be32_bytes((CHECKSUM_MAGIC - checksum_of(cleared)) % word_modulus()),
    )
}

/// One face of a collection as a font of its own, or why it cannot be extracted.
pub open spec fn compacted(data: Seq<u8>, face_index: u32) -> Result<Seq<u8>, SfntError> {
    if !is_collection(data) {
        Err(SfntError::NotACollection)
    } else {
        match face_offset_in(data, face_index) {
            Err(error) => Err(error),
            Ok(face_offset) => if face_offset + 6 > data.len() {
                Err(SfntError::TruncatedHeader)
            } else {
                let count = be16(data, face_offset + 4);
                let end = face_offset + 12 + count * 16;
                if end > usize::MAX {
                    Err(SfntError::DirectoryOffsetOverflow)
                } else if end > data.len() {
                    Err(SfntError::TruncatedDirectory)
                } else {
                    match assembled(data, data.subrange(face_offset, end), count as nat) {
                        Err(error) => Err(error),
                        Ok((bytes, None)) => Err(SfntError::MissingHead),
                        Ok((bytes, Some(head))) => Ok(adjusted(padded(bytes), head)),
                    }
                }
            },
        }
    }
}

/// Writes a big-endian 32-bit number over four bytes.
fn write_u32(data: &mut Vec<u8>, at: usize, value: u32)
    requires
        at + 4 <= old(data)@.len(),
    ensures
        final(data)@ == overwrite(old(data)@, at as int, be32_bytes(value as int)),
{
    let ghost start = data@;
    let len: usize = data.len();
    assert(at + 4 <= len);
    data.set(at, (value / 0x100_0000) as u8);
    data.set(at + 1, (value / 0x1_0000 % 0x100) as u8);
    data.set(at + 2, (value / 0x100 % 0x100) as u8);
    data.set(at + 3, (value % 0x100) as u8);
    assert(data@ =~= overwrite(start, at as int, be32_bytes(value as int)));
}

/// What an assembly step may rely on: every copy lies behind the directory.
proof fn lemma_assembled_covers_directory(data: Seq<u8>, directory: Seq<u8>, count: nat)
    requires
        directory.len() >= 12 + count * 16,
    ensures
        assembled(data, directory, count) matches Ok((bytes, head)) ==> {
            &&& bytes.len() >= directory.len()
            &&& head matches Some(head) ==> directory.len() <= head && head + 12 <= bytes.len()
        },
    decreases count,
{
    if count > 0 {
        lemma_assembled_covers_directory(data, directory, (count - 1) as nat);
    }
}

/// Once one table fails, the whole assembly fails the same way.
proof fn lemma_assembled_error_stays(data: Seq<u8>, directory: Seq<u8>, early: nat, late: nat)
    requires
        early <= late,
        assembled(data, directory, early) is Err,
    ensures
        assembled(data, directory, late) == assembled(data, directory, early),
    decreases late,
{
    if early < late {
        lemma_assembled_error_stays(data, directory, early, (late - 1) as nat);
    }
}

/// Copies the tables that `directory` names behind it and points its records at the copies.
/// Returns the bytes and where the `head` table came to lie.
fn assemble_tables(data: &[u8], directory: &[u8], table_count: usize) -> (assembly: Result<
    (Vec<u8>, Option<usize>),
    SfntError,
>)
    requires
        table_count <= 0xffff,
        directory@.len() == 12 + table_count * 16,
    ensures
        match (assembly, assembled(data@, directory@, table_count as nat)) {
            (Ok((bytes, Some(head))), Ok((expected, Some(expected_head)))) => bytes@ == expected
                && head == expected_head,
            (Ok((bytes, None)), Ok((expected, None))) => bytes@ == expected,
            (Err(error), Err(expected)) => error == expected,
            _ => false,
        },
{
    proof {
        assert([0x68u8, 0x65u8, 0x61u8, 0x64u8]@ =~= head_tag());
    }
    let mut sfnt: Vec<u8> = vstd::slice::slice_to_vec(directory);
    let mut head_offset: Option<usize> = None;
    let mut table_idx: usize = 0;
    while table_idx < table_count
        invariant
            table_count <= 0xffff,
            table_idx <= table_count,
            directory@.len() == 12 + table_count * 16,
            [0x68u8, 0x65u8, 0x61u8, 0x64u8]@ == head_tag(),
            match assembled(data@, directory@, table_idx as nat) {
                Ok((bytes, head)) => {
                    &&& sfnt@ == bytes
                    &&& head == match head_offset {
                        Some(head_offset) => Some(head_offset as int),
                        None => None,
                    }
                },
                Err(_) => false,
            },
        decreases table_count - table_idx,
    {
        proof {
            lemma_assembled_covers_directory(data@, directory@, table_idx as nat);
            if assembled(data@, directory@, (table_idx + 1) as nat) is Err {
                lemma_assembled_error_stays(
                    data@,
                    directory@,
                    (table_idx + 1) as nat,
                    table_count as nat,
                );
            }
        }
        let position: usize = 12 + table_idx * 16;
        let source_offset: usize = match read_u32(directory, position + 8) {
            Some(source_offset) => source_offset as usize,
            None => return Err(SfntError::TruncatedTableOffset),
        };
        let table_len: usize = match read_u32(directory, position + 12) {
            Some(table_len) => table_len as usize,
            None => return Err(SfntError::TruncatedTableLength),
        };
        let source_end: usize = match source_offset.checked_add(table_len) {
            Some(source_end) => source_end,
            None => return Err(SfntError::TableEndOverflow),
        };
        if source_end > data.len() {
            return Err(SfntError::TruncatedTable);
        }
        pad_to_u32(&mut sfnt);
        let target_offset: usize = sfnt.len();
        if target_offset as u64 > u32::MAX as u64 {
            return Err(SfntError::OffsetRangeExceeded);
        }
        let is_head: bool = tag_matches(directory, position, &[0x68u8, 0x65u8, 0x61u8, 0x64u8]);
        if is_head && table_len < 12 {
            return Err(SfntError::TruncatedHead);
        }
        write_u32(&mut sfnt, position + 8, target_offset as u32);
        append_slice(&mut sfnt, vstd::slice::slice_subrange(data, source_offset, source_end));
        if is_head {
            head_offset = Some(target_offset);
        }
        table_idx += 1;
    }
    Ok((sfnt, head_offset))
}

/// Recomputes the checksum adjustment of the font whose `head` table lies at `head`.
fn adjust_checksum(sfnt: &mut Vec<u8>, head: usize)
    requires
        head + 12 <= old(sfnt)@.len(),
    ensures
        final(sfnt)@ == adjusted(old(sfnt)@, head as int),
{
    let len: usize = sfnt.len();
    assert(head + 12 <= len);
    write_u32(sfnt, head + 8, 0);
    let checksum: u32 = sfnt_checksum(sfnt.as_slice());
    let adjustment: u32 = CHECKSUM_MAGIC.wrapping_sub(checksum);
    assert(adjustment == (CHECKSUM_MAGIC - checksum) % word_modulus());
    write_u32(sfnt, head + 8, adjustment);
}

/// Extracts one face of a collection as a font of its own.
///
/// Tables that several faces share are copied, every other face is left behind, and the font's
/// checksum adjustment is recomputed.
pub fn compact_sfnt_for_face(data: &[u8], face_index: u32) -> (font: Result<Vec<u8>, SfntError>)
    ensures
        match (font, compacted(data@, face_index)) {
            (Ok(font), Ok(expected)) => font@ == expected,
            (Err(error), Err(expected)) => error == expected,
            _ => false,
        },
{
    if !starts_collection(data) {
        return Err(SfntError::NotACollection);
    }
    let face_offset: usize = match collection_face_offset(data, face_index) {
        Ok(face_offset) => face_offset,
        Err(error) => return Err(error),
    };
    if face_offset > data.len() || data.len() - face_offset < 6 {
        return Err(SfntError::TruncatedHeader);
    }
    let table_count: usize = match read_u16(data, face_offset + 4) {
        Some(table_count) => table_count as usize,
        None => return Err(SfntError::TruncatedHeader),
    };
    let directory_end: usize = match face_offset.checked_add(12 + table_count * 16) {
        Some(directory_end) => directory_end,
        None => return Err(SfntError::DirectoryOffsetOverflow),
    };
    if directory_end > data.len() {
        return Err(SfntError::TruncatedDirectory);
    }
    let directory: &[u8] = vstd::slice::slice_subrange(data, face_offset, directory_end);
    let (mut sfnt, head_offset): (Vec<u8>, Option<usize>) = match assemble_tables(
        data,
        directory,
        table_count,
    ) {
        Ok(assembly) => assembly,
        Err(error) => return Err(error),
    };
    proof {
        lemma_assembled_covers_directory(data@, directory@, table_count as nat);
    }
    pad_to_u32(&mut sfnt);
    match head_offset {
        Some(head) => {
            adjust_checksum(&mut sfnt, head);
            Ok(sfnt)
        },
        None => Err(SfntError::MissingHead),
    }
}

/// Appends every byte of `tail`.
fn append_slice(data: &mut Vec<u8>, tail: &[u8])
    ensures
        final(data)@ == old(data)@ + tail@,
{
    let ghost start = data@;
    data.extend_from_slice(tail);
    assert(data@ =~= start + tail@);
}

} // verus!
