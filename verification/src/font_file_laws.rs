//! What holds of everything that is read out of font bytes.

use crate::bitmap_location::{cut_off, list_is_cut, record_covers, record_is_cut};
use crate::design::FontVariation;
use crate::face::face_parses;
use crate::native_face::{
    descriptor_from, descriptor_of, is_extracted, is_native_face, is_selected, DescriptorTables,
    NativeFace, NativeFaceError, NativeFonts,
};
use crate::sfnt::{
    assembled, be16, be32, checksum_of, compacted, face_offset_in, is_collection, padded,
    same_identity, table_from, table_in, tag_at, word_sum, SfntError,
};
use crate::swash_laws::{font_starts_at, spelled};
use vstd::prelude::*;

verus! {

/// The number that two bytes spell, the most significant first.
pub open spec fn spelled_short(data: Seq<u8>, at: int) -> int {
    data[at] * 256 + data[at + 1]
}

/// Numbers are read as their bytes spell them.
pub proof fn law_numbers_are_read_as_spelled(data: Seq<u8>, at: int)
    ensures
        be16(data, at) == spelled_short(data, at),
        be32(data, at) == spelled(data, at),
        0 <= be16(data, at) < 0x1_0000,
        0 <= be32(data, at) < 0x1_0000_0000,
{
}

/// Whether a directory of tables starts at a place: one of the tags that a font starts with, and
/// the rest of twelve bytes.
pub open spec fn directory_starts_at(data: Seq<u8>, at: int) -> bool {
    font_starts_at(data, at) && at + 12 <= data.len()
}

/// Whether bytes start as a collection does, `ttcf`.
pub open spec fn collection_starts(data: Seq<u8>) -> bool {
    data.len() >= 4 && data.subrange(0, 4) == seq![0x74u8, 0x74u8, 0x63u8, 0x66u8]
}

/// Four bytes that spell the same number are the same.
proof fn lemma_spelled(data: Seq<u8>, at: int, tag: Seq<u8>)
    requires
        0 <= at,
        at + 4 <= data.len(),
        tag.len() == 4,
    ensures
        spelled(data, at) == spelled(tag, 0) <==> data.subrange(at, at + 4) == tag,
{
    let held = data.subrange(at, at + 4);
    assert(held[0] == data[at] && held[1] == data[at + 1] && held[2] == data[at + 2] && held[3]
        == data[at + 3]);
    if spelled(data, at) == spelled(tag, 0) {
        assert(held =~= tag);
    }
}

/// The tags that a font starts with, by their numbers.
proof fn lemma_directory_starts(data: Seq<u8>, at: int)
    requires
        0 <= at,
        at + 12 <= data.len(),
    ensures
        directory_starts_at(data, at) <==> {
            ||| spelled(data, at) == 0x0001_0000
            ||| spelled(data, at) == 0x4f54_544f
            ||| spelled(data, at) == 0x7472_7565
        },
{
    lemma_spelled(data, at, seq![0u8, 1u8, 0u8, 0u8]);
    lemma_spelled(data, at, seq![0x4fu8, 0x54u8, 0x54u8, 0x4fu8]);
    lemma_spelled(data, at, seq![0x74u8, 0x72u8, 0x75u8, 0x65u8]);
}

/// A face can be read exactly if a directory of tables starts where it should: at the start of a
/// single font, for its only face, or where the header of a collection says, for a face that the
/// collection has and a header that is there in full.
pub proof fn law_faces_are_read_where_directories_start(data: Seq<u8>, index: u32)
    ensures
        data.len() >= 12 && collection_starts(data) ==> (face_parses(data, index) <==> {
            &&& 12 + 4 * spelled(data, 8) <= data.len()
            &&& index < spelled(data, 8)
            &&& directory_starts_at(data, spelled(data, 12 + 4 * index))
        }),
        !(data.len() >= 12 && collection_starts(data)) ==> (face_parses(data, index) <==> index == 0
            && directory_starts_at(data, 0)),
{
    if data.len() >= 12 {
        lemma_spelled(data, 0, seq![0x74u8, 0x74u8, 0x63u8, 0x66u8]);
        lemma_directory_starts(data, 0);
        let at = spelled(data, 12 + 4 * index);
        if at + 12 <= data.len() {
            lemma_directory_starts(data, at);
        }
    }
}

/// Bytes are a collection exactly if they start with `ttcf`.
pub proof fn law_collections_are_told_by_their_tag(data: Seq<u8>)
    ensures
        is_collection(data) <==> collection_starts(data),
{
}

/// A face of a collection starts where the list behind the header says. Otherwise the header ends
/// too early, the collection has fewer faces, or the list does.
pub proof fn law_faces_start_where_collections_say(data: Seq<u8>, face_index: u32)
    ensures
        ({
            let headed = data.len() >= 12;
            let count = spelled(data, 8);
            let listed = 16 + 4 * face_index <= data.len();
            let found = face_offset_in(data, face_index);
            &&& headed && face_index < count && listed && data.len() <= usize::MAX ==> found == Ok::<
                int,
                SfntError,
            >(spelled(data, 12 + 4 * face_index))
            &&& !headed ==> found == Err::<int, SfntError>(SfntError::TruncatedCollectionHeader)
            &&& headed && face_index >= count ==> found is Err && found->Err_0 is FaceOutOfRange
                && found->Err_0->FaceOutOfRange_face_index == face_index
                && found->Err_0->face_count == count
            &&& headed && face_index < count && !listed ==> found is Err && (found->Err_0
                == SfntError::TruncatedFaceOffsets || found->Err_0 == SfntError::FaceOffsetOverflow)
            &&& found matches Ok(offset) ==> headed && face_index < count && listed && offset
                == spelled(data, 12 + 4 * face_index)
        }),
{
}

/// The bytes of a tag at a place.
pub open spec fn is_tag_at(data: Seq<u8>, at: int, tag: Seq<u8>) -> bool {
    data.subrange(at, at + 4) == tag
}

/// Whether a record in the directory of a face has a tag.
pub open spec fn record_has_tag(data: Seq<u8>, face: int, record: int, tag: Seq<u8>) -> bool {
    is_tag_at(data, face + 12 + 16 * record, tag)
}

/// A table that is found is the one that the first record with its tag tells of: the record's
/// third and fourth number say where it starts and how long it is. Where no record has the tag,
/// there is no table. A lookup fails only where bytes are missing.
pub proof fn law_tables_are_those_of_their_first_record(
    data: Seq<u8>,
    face_offset: int,
    tag: Seq<u8>,
)
    requires
        0 <= face_offset,
        data.len() <= usize::MAX,
    ensures
        ({
            let found = table_in(data, face_offset, tag);
            let count = spelled_short(data, face_offset + 4);
            &&& found matches Ok(Some(table)) ==> exists|record: int|
                {
                    let at = face_offset + 12 + 16 * record;
                    let start = spelled(data, at + 8);
                    let len = spelled(data, at + 12);
                    &&& 0 <= record < count
                    &&& #[trigger] record_has_tag(data, face_offset, record, tag)
                    &&& at + 16 <= data.len()
                    &&& start + len <= data.len()
                    &&& table == data.subrange(start, start + len)
                    &&& forall|earlier: int|
                        0 <= earlier < record ==> !#[trigger] record_has_tag(
                            data,
                            face_offset,
                            earlier,
                            tag,
                        )
                }
            &&& found == Ok::<Option<Seq<u8>>, SfntError>(None) ==> forall|record: int|
                0 <= record < count ==> !#[trigger] record_has_tag(
                            data,
                            face_offset,
                            record,
                            tag,
                        )
            &&& face_offset + 6 > data.len() <==> found == Err::<Option<Seq<u8>>, SfntError>(
                SfntError::TruncatedHeader,
            )
            &&& face_offset + 12 + 16 * count <= data.len() && face_offset + 12 <= data.len()
                && found is Err ==> exists|record: int|
                {
                    let at = face_offset + 12 + 16 * record;
                    &&& 0 <= record < count
                    &&& #[trigger] record_has_tag(data, face_offset, record, tag)
                    &&& spelled(data, at + 8) + spelled(data, at + 12) > data.len()
                }
        }),
{
    if face_offset + 6 <= data.len() {
        lemma_table_from(data, face_offset, tag, 0, be16(data, face_offset + 4));
    }
}

/// A lookup from a record on finds the first table there with the tag.
proof fn lemma_table_from(data: Seq<u8>, face_offset: int, tag: Seq<u8>, index: int, count: int)
    requires
        0 <= face_offset,
        0 <= index,
        data.len() <= usize::MAX,
    ensures
        ({
            let found = table_from(data, face_offset, tag, index, count);
            &&& found matches Ok(Some(table)) ==> exists|record: int|
                {
                    let at = face_offset + 12 + 16 * record;
                    let start = spelled(data, at + 8);
                    let len = spelled(data, at + 12);
                    &&& index <= record < count
                    &&& #[trigger] record_has_tag(data, face_offset, record, tag)
                    &&& at + 16 <= data.len()
                    &&& start + len <= data.len()
                    &&& table == data.subrange(start, start + len)
                    &&& forall|earlier: int|
                        index <= earlier < record ==> !#[trigger] record_has_tag(
                            data,
                            face_offset,
                            earlier,
                            tag,
                        )
                }
            &&& found == Ok::<Option<Seq<u8>>, SfntError>(None) ==> forall|record: int|
                index <= record < count ==> !#[trigger] record_has_tag(
                            data,
                            face_offset,
                            record,
                            tag,
                        )
            &&& found != Err::<Option<Seq<u8>>, SfntError>(SfntError::TruncatedHeader)
            &&& face_offset + 12 + 16 * count <= data.len() && found is Err ==> exists|record: int|
                {
                    let at = face_offset + 12 + 16 * record;
                    &&& index <= record < count
                    &&& #[trigger] record_has_tag(data, face_offset, record, tag)
                    &&& spelled(data, at + 8) + spelled(data, at + 12) > data.len()
                }
        }),
    decreases count - index,
{
    let at = face_offset + 12 + index * 16;
    assert(at == face_offset + 12 + 16 * index);
    if index < count && at <= usize::MAX && at + 4 <= data.len() {
        if tag_at(data, at) != tag {
            lemma_table_from(data, face_offset, tag, index + 1, count);
            assert(!record_has_tag(data, face_offset, index, tag));
            let found = table_from(data, face_offset, tag, index, count);
            if found is Ok && found->Ok_0 is None {
                assert forall|record: int| index <= record < count implies !#[trigger] record_has_tag(
                            data,
                            face_offset,
                            record,
                            tag,
                        ) by {
                    if record > index {
                        assert(index + 1 <= record < count);
                    }
                }
            }
            if found is Ok && found->Ok_0 is Some {
                let record = choose|record: int|
                    {
                        let at = face_offset + 12 + 16 * record;
                        let start = spelled(data, at + 8);
                        let len = spelled(data, at + 12);
                        &&& index + 1 <= record < count
                        &&& #[trigger] record_has_tag(data, face_offset, record, tag)
                        &&& at + 16 <= data.len()
                        &&& start + len <= data.len()
                        &&& found->Ok_0->0 == data.subrange(start, start + len)
                        &&& forall|earlier: int|
                            index + 1 <= earlier < record ==> !#[trigger] record_has_tag(
                            data,
                            face_offset,
                            earlier,
                            tag,
                        )
                    };
                assert(record_has_tag(data, face_offset, record, tag));
                assert forall|earlier: int|
                    index <= earlier < record implies !#[trigger] record_has_tag(
                            data,
                            face_offset,
                            earlier,
                            tag,
                        ) by {
                    if earlier > index {
                        assert(index + 1 <= earlier < record);
                    }
                }
            }
        } else {
            assert(record_has_tag(data, face_offset, index, tag));
        }
    }
}

/// Two tables identify one face exactly if they have the same bytes; for `head` tables, which are
/// twelve bytes long at least, the four from the ninth on do not count.
pub proof fn law_tables_identify_faces_by_their_bytes(
    tag: Seq<u8>,
    actual: Seq<u8>,
    expected: Seq<u8>,
)
    ensures
        tag != seq![0x68u8, 0x65u8, 0x61u8, 0x64u8] ==> (same_identity(tag, actual, expected)
            <==> actual == expected),
        tag == seq![0x68u8, 0x65u8, 0x61u8, 0x64u8] ==> (same_identity(tag, actual, expected)
            <==> actual.len() == expected.len() && actual.len() >= 12 && forall|at: int|
            0 <= at < actual.len() && !(8 <= at < 12) ==> #[trigger] actual[at] == expected[at]),
{
    if tag == seq![0x68u8, 0x65u8, 0x61u8, 0x64u8] {
        if same_identity(tag, actual, expected) {
            assert forall|at: int| 0 <= at < actual.len() && !(8 <= at < 12) implies
                #[trigger] actual[at] == expected[at] by {
                if at < 8 {
                    assert(actual.subrange(0, 8)[at] == expected.subrange(0, 8)[at]);
                } else {
                    assert(actual.skip(12)[at - 12] == expected.skip(12)[at - 12]);
                }
            }
        }
        if actual.len() == expected.len() && actual.len() >= 12 && forall|at: int|
            0 <= at < actual.len() && !(8 <= at < 12) ==> #[trigger] actual[at] == expected[at] {
            assert(actual.subrange(0, 8) =~= expected.subrange(0, 8));
            assert(actual.skip(12) =~= expected.skip(12));
        }
    }
}

/// The checksum of no bytes is zero, that of four bytes is the number that they spell, and that of
/// bytes behind complete words is added to that of the words. Bytes that complete no word do not
/// count.
pub proof fn law_checksums_add_up(words: Seq<u8>, more: Seq<u8>)
    requires
        words.len() % 4 == 0,
    ensures
        words.len() == 0 ==> checksum_of(words) == 0,
        words.len() == 4 ==> checksum_of(words) == spelled(words, 0),
        checksum_of(words + more) == (checksum_of(words) + checksum_of(more)) % 0x1_0000_0000,
        more.len() < 4 ==> checksum_of(words + more) == checksum_of(words),
        0 <= checksum_of(words) < 0x1_0000_0000,
{
    reveal_with_fuel(word_sum, 2);
    lemma_word_sums(words, more, more.len() / 4);
    let left = word_sum(words, words.len() / 4);
    let right = word_sum(more, more.len() / 4);
    assert((words + more).len() / 4 == words.len() / 4 + more.len() / 4);
    assert(word_sum(words + more, (words + more).len() / 4) == left + right);
    vstd::arithmetic::div_mod::lemma_add_mod_noop(left, right, 0x1_0000_0000);
    if more.len() < 4 {
        assert(right == 0);
    }
}

/// The words of two parts, the first of which is made of complete words, are the words of both.
proof fn lemma_word_sums(words: Seq<u8>, more: Seq<u8>, count: nat)
    requires
        words.len() % 4 == 0,
        4 * count <= more.len(),
    ensures
        word_sum(words + more, words.len() / 4 + count) == word_sum(words, words.len() / 4)
            + word_sum(more, count),
    decreases count,
{
    if count > 0 {
        lemma_word_sums(words, more, (count - 1) as nat);
        let at = 4 * (words.len() / 4 + count - 1);
        assert(be32(words + more, at) == be32(more, 4 * (count - 1)));
    } else {
        lemma_word_sum_of_prefix(words, more, words.len() / 4);
    }
}

/// The words of a part are the same with more behind it.
proof fn lemma_word_sum_of_prefix(words: Seq<u8>, more: Seq<u8>, count: nat)
    requires
        4 * count <= words.len(),
    ensures
        word_sum(words + more, count) == word_sum(words, count),
    decreases count,
{
    if count > 0 {
        lemma_word_sum_of_prefix(words, more, (count - 1) as nat);
        assert(be32(words + more, 4 * (count - 1)) == be32(words, 4 * (count - 1)));
    }
}

/// An extracted face has the checksum that fonts have.
pub proof fn law_extracted_faces_have_the_fonts_checksum(data: Seq<u8>, face_index: u32)
    requires
        compacted(data, face_index) is Ok,
    ensures
        checksum_of(compacted(data, face_index)->Ok_0) == 0xb1b0_afba,
{
    crate::sfnt_laws::law_compacted_checksum(data, face_index);
}

/// Whether a table that a directory tells of lies in the bytes, and is long enough to be adjusted
/// if it is a `head` table.
pub open spec fn is_extractable(data: Seq<u8>, at: int) -> bool {
    &&& spelled(data, at + 8) + spelled(data, at + 12) <= data.len()
    &&& is_tag_at(data, at, seq![0x68u8, 0x65u8, 0x61u8, 0x64u8]) ==> spelled(data, at + 12) >= 12
}

/// Whether a record in the directory of a face is that of a `head` table.
pub open spec fn record_is_head(data: Seq<u8>, face: int, record: int) -> bool {
    is_tag_at(data, face + 12 + 16 * record, seq![0x68u8, 0x65u8, 0x61u8, 0x64u8])
}

/// Whether the table that a record in the directory of a face tells of is there.
pub open spec fn record_is_extractable(data: Seq<u8>, face: int, record: int) -> bool {
    is_extractable(data, face + 12 + 16 * record)
}

/// A face is extracted from every collection that holds it in full: its directory, all of its
/// tables, and among those a `head` table. A face without a `head` table is refused for that.
pub proof fn law_complete_faces_are_extracted(data: Seq<u8>, face_index: u32)
    requires
        data.len() <= usize::MAX,
        collection_starts(data),
        face_offset_in(data, face_index) is Ok,
        ({
            let face = face_offset_in(data, face_index)->Ok_0;
            let count = spelled_short(data, face + 4);
            &&& face + 12 + 16 * count <= data.len()
            &&& face + 12 <= data.len()
            &&& 12 + 16 * count + count * (data.len() + 3) <= u32::MAX
            &&& forall|record: int|
                0 <= record < count ==> #[trigger] record_is_extractable(data, face, record)
        }),
    ensures
        ({
            let face = face_offset_in(data, face_index)->Ok_0;
            let count = spelled_short(data, face + 4);
            let headed = exists|record: int|
                0 <= record < count && #[trigger] record_is_head(data, face, record);
            &&& headed ==> compacted(data, face_index) is Ok
            &&& !headed ==> compacted(data, face_index) == Err::<Seq<u8>, SfntError>(
                SfntError::MissingHead,
            )
        }),
{
    let face = face_offset_in(data, face_index)->Ok_0;
    let count = be16(data, face + 4);
    let directory = data.subrange(face, face + 12 + count * 16);
    lemma_assembles(data, face, directory, count, count as nat);
}

/// Tables that lie in the bytes are assembled one by one.
proof fn lemma_assembles(data: Seq<u8>, face: int, directory: Seq<u8>, total: int, count: nat)
    requires
        data.len() <= usize::MAX,
        0 <= face,
        count <= total < 0x1_0000,
        face + 12 + 16 * total <= data.len(),
        directory == data.subrange(face, face + 12 + total * 16),
        12 + 16 * total + total * (data.len() + 3) <= u32::MAX,
        forall|record: int|
            0 <= record < total ==> #[trigger] record_is_extractable(data, face, record),
    ensures
        assembled(data, directory, count) matches Ok((bytes, head)) && {
            &&& bytes.len() <= 12 + 16 * total + count * (data.len() + 3)
            &&& head is Some <==> exists|record: int|
                0 <= record < count && #[trigger] record_is_head(data, face, record)
        },
    decreases count,
{
    let tag = seq![0x68u8, 0x65u8, 0x61u8, 0x64u8];
    if count > 0 {
        let less = (count - 1) as nat;
        lemma_assembles(data, face, directory, total, less);
        let (bytes, head) = assembled(data, directory, less)->Ok_0;
        let at = 12 + (count - 1) * 16;
        let there = face + 12 + 16 * (count - 1);
        assert(record_is_extractable(data, face, count - 1));
        assert(directory[at + 8] == data[there + 8] && directory[at + 9] == data[there + 9]
            && directory[at + 10] == data[there + 10] && directory[at + 11] == data[there + 11]);
        assert(directory[at + 12] == data[there + 12] && directory[at + 13] == data[there + 13]
            && directory[at + 14] == data[there + 14] && directory[at + 15] == data[there + 15]);
        assert(tag_at(directory, at) =~= data.subrange(there, there + 4));
        let len = be32(directory, at + 12);
        assert(padded(bytes).len() <= bytes.len() + 3);
        assert(count * (data.len() + 3) == less * (data.len() + 3) + (data.len() + 3))
            by (nonlinear_arith)
            requires
                count == less + 1,
        ;
        assert(count * (data.len() + 3) <= total * (data.len() + 3)) by (nonlinear_arith)
            requires
                count <= total,
        ;
        if tag_at(directory, at) == tag {
            assert(record_is_head(data, face, count - 1));
        } else {
            assert(!record_is_head(data, face, count - 1));
            if exists|record: int|
                0 <= record < count && #[trigger] record_is_head(data, face, record) {
                let record = choose|record: int|
                    0 <= record < count && #[trigger] record_is_head(data, face, record);
                assert(record < less);
            }
        }
    } else {
        assert(0 * (data.len() + 3) == 0) by (nonlinear_arith);
    }
}

/// What is extracted is refused unless the bytes are a collection that has the face and holds its
/// directory and every table.
pub proof fn law_only_complete_faces_are_extracted(data: Seq<u8>, face_index: u32, record: int)
    requires
        compacted(data, face_index) is Ok,
    ensures
        collection_starts(data),
        face_offset_in(data, face_index) is Ok,
        ({
            let face = face_offset_in(data, face_index)->Ok_0;
            let count = spelled_short(data, face + 4);
            &&& face + 12 + 16 * count <= data.len()
            &&& 0 <= record < count ==> record_is_extractable(data, face, record)
        }),
{
    let face = face_offset_in(data, face_index)->Ok_0;
    let count = be16(data, face + 4);
    let directory = data.subrange(face, face + 12 + count * 16);
    if 0 <= record < count {
        lemma_assembled_is_extractable(data, face, directory, count, count as nat, record);
    }
}

/// Every table that was assembled lies in the bytes.
proof fn lemma_assembled_is_extractable(
    data: Seq<u8>,
    face: int,
    directory: Seq<u8>,
    total: int,
    count: nat,
    record: int,
)
    requires
        0 <= face,
        count <= total,
        face + 12 + 16 * total <= data.len(),
        directory == data.subrange(face, face + 12 + total * 16),
        assembled(data, directory, count) is Ok,
        0 <= record < count,
    ensures
        record_is_extractable(data, face, record),
    decreases count,
{
    let less = (count - 1) as nat;
    if record < less {
        lemma_assembled_is_extractable(data, face, directory, total, less, record);
    } else {
        let at = 12 + (count - 1) * 16;
        let there = face + 12 + 16 * (count - 1);
        assert(directory[at + 8] == data[there + 8] && directory[at + 9] == data[there + 9]
            && directory[at + 10] == data[there + 10] && directory[at + 11] == data[there + 11]);
        assert(directory[at + 12] == data[there + 12] && directory[at + 13] == data[there + 13]
            && directory[at + 14] == data[there + 14] && directory[at + 15] == data[there + 15]);
        assert(tag_at(directory, at) =~= data.subrange(there, there + 4));
    }
}

/// Whether a table that a descriptor exposes is the one that a face has under a tag.
pub open spec fn exposes(
    actual: Option<Vec<u8>>,
    data: Seq<u8>,
    face_offset: int,
    tag: Seq<u8>,
) -> bool {
    &&& actual is Some
    &&& table_in(data, face_offset, tag) is Ok
    &&& table_in(data, face_offset, tag)->Ok_0 is Some
    &&& same_identity(tag, actual->0@, table_in(data, face_offset, tag)->Ok_0->0)
}

/// Whether a descriptor exposes the `name`, the `head` and the `maxp` table of a face.
pub open spec fn stands_for(tables: DescriptorTables, data: Seq<u8>, face_offset: int) -> bool {
    &&& exposes(tables.name, data, face_offset, seq![0x6eu8, 0x61u8, 0x6du8, 0x65u8])
    &&& exposes(tables.head, data, face_offset, seq![0x68u8, 0x65u8, 0x61u8, 0x64u8])
    &&& exposes(tables.maxp, data, face_offset, seq![0x6du8, 0x61u8, 0x78u8, 0x70u8])
}

/// The descriptor that is chosen for a face is the first that exposes its three identifying
/// tables. Where all can be read and none is chosen, none exposes them.
pub proof fn law_the_first_matching_descriptor_is_chosen(
    descriptors: Seq<DescriptorTables>,
    data: Seq<u8>,
    face_index: u32,
)
    requires
        face_offset_in(data, face_index) is Ok,
    ensures
        ({
            let face = face_offset_in(data, face_index)->Ok_0;
            let chosen = descriptor_of(descriptors, data, face_index);
            &&& chosen matches Ok(index) ==> {
                &&& 0 <= index < descriptors.len()
                &&& stands_for(descriptors[index], data, face)
                &&& forall|earlier: int|
                    0 <= earlier < index ==> !stands_for(
                        #[trigger] descriptors[earlier],
                        data,
                        face,
                    )
            }
            &&& chosen is Err && chosen->Err_0 is NoMatchingDescriptor ==> forall|index: int|
                0 <= index < descriptors.len() ==> !stands_for(
                    #[trigger] descriptors[index],
                    data,
                    face,
                )
            &&& chosen is Err && !(chosen->Err_0 is NoMatchingDescriptor) ==> ({
                ||| table_in(data, face, seq![0x6eu8, 0x61u8, 0x6du8, 0x65u8]) is Err
                ||| table_in(data, face, seq![0x68u8, 0x65u8, 0x61u8, 0x64u8]) is Err
                ||| table_in(data, face, seq![0x6du8, 0x61u8, 0x78u8, 0x70u8]) is Err
            })
        }),
{
    lemma_descriptor_from(
        descriptors,
        data,
        face_offset_in(data, face_index)->Ok_0,
        face_index,
        0,
    );
}

/// No lookup of a table fails as a choice of descriptors does.
proof fn lemma_lookup_errors(
    data: Seq<u8>,
    face_offset: int,
    tag: Seq<u8>,
    index: int,
    count: int,
)
    ensures
        table_from(data, face_offset, tag, index, count) matches Err(error) ==> !(error
            is NoMatchingDescriptor),
    decreases count - index,
{
    if index < count {
        lemma_lookup_errors(data, face_offset, tag, index + 1, count);
    }
}

/// The first descriptor from an index on.
proof fn lemma_descriptor_from(
    descriptors: Seq<DescriptorTables>,
    data: Seq<u8>,
    face: int,
    face_index: u32,
    start: int,
)
    requires
        0 <= start,
    ensures
        ({
            let chosen = descriptor_from(descriptors, data, face, face_index, start);
            &&& chosen matches Ok(index) ==> {
                &&& start <= index < descriptors.len()
                &&& stands_for(descriptors[index], data, face)
                &&& forall|earlier: int|
                    start <= earlier < index ==> !stands_for(
                        #[trigger] descriptors[earlier],
                        data,
                        face,
                    )
            }
            &&& chosen is Err && chosen->Err_0 is NoMatchingDescriptor ==> forall|index: int|
                start <= index < descriptors.len() ==> !stands_for(
                    #[trigger] descriptors[index],
                    data,
                    face,
                )
            &&& chosen is Err && !(chosen->Err_0 is NoMatchingDescriptor) ==> ({
                ||| table_in(data, face, seq![0x6eu8, 0x61u8, 0x6du8, 0x65u8]) is Err
                ||| table_in(data, face, seq![0x68u8, 0x65u8, 0x61u8, 0x64u8]) is Err
                ||| table_in(data, face, seq![0x6du8, 0x61u8, 0x78u8, 0x70u8]) is Err
            })
        }),
    decreases descriptors.len() - start,
{
    let count = be16(data, face + 4);
    lemma_lookup_errors(data, face, seq![0x6eu8, 0x61u8, 0x6du8, 0x65u8], 0, count);
    lemma_lookup_errors(data, face, seq![0x68u8, 0x65u8, 0x61u8, 0x64u8], 0, count);
    lemma_lookup_errors(data, face, seq![0x6du8, 0x61u8, 0x78u8, 0x70u8], 0, count);
    if start < descriptors.len() {
        lemma_descriptor_from(descriptors, data, face, face_index, start + 1);
    }
}

/// Whether a descriptor is one that the platform offers for a collection, and stands for a face of
/// it.
pub open spec fn is_offered_for_face<F: NativeFonts>(
    fonts: &F,
    data: Seq<u8>,
    face_index: u32,
    shared: F::Source,
    descriptor: F::Descriptor,
    offered: (F::Listing, Vec<DescriptorTables>),
    index: usize,
) -> bool {
    &&& call_ensures(F::collection_tables, (fonts, &shared), Some(offered))
    &&& face_offset_in(data, face_index) is Ok
    &&& index < offered.1@.len()
    &&& stands_for(offered.1@[index as int], data, face_offset_in(data, face_index)->Ok_0)
    &&& call_ensures(F::collection_descriptor, (fonts, &offered.0, index), descriptor)
}

/// A native face is made of the whole bytes for the only face of a single font.
#[verifier::spinoff_prover]
pub proof fn law_single_fonts_are_read_whole<F: NativeFonts>(
    fonts: &F,
    data: Seq<u8>,
    face_index: u32,
    shared: F::Source,
    selected: (F::Descriptor, F::Source, bool),
)
    requires
        !collection_starts(data),
        is_selected(
            fonts,
            data,
            face_index,
            shared,
            Ok::<(F::Descriptor, F::Source, bool), NativeFaceError>(selected),
        ),
    ensures
        face_index == 0,
        selected.1 == shared,
        selected.2,
        call_ensures(F::single_descriptor, (fonts, &shared), Some(selected.0)),
{
}

/// Of a collection a native face that reads the shared bytes is made through the platform's own
/// descriptor, one that stands for the face.
#[verifier::spinoff_prover]
#[verifier::rlimit(40)]
pub proof fn law_offered_descriptors_stand_for_the_face<F: NativeFonts>(
    fonts: &F,
    data: Seq<u8>,
    face_index: u32,
    shared: F::Source,
    selected: (F::Descriptor, F::Source, bool),
)
    requires
        collection_starts(data),
        selected.2,
        is_selected(
            fonts,
            data,
            face_index,
            shared,
            Ok::<(F::Descriptor, F::Source, bool), NativeFaceError>(selected),
        ),
    ensures
        selected.1 == shared,
        exists|offered: (F::Listing, Vec<DescriptorTables>), index: usize| #[trigger]
            is_offered_for_face(
                fonts,
                data,
                face_index,
                shared,
                selected.0,
                offered,
                index,
            ),
{
    let result = Ok::<(F::Descriptor, F::Source, bool), NativeFaceError>(selected);
    let listed = choose|listed: Option<(F::Listing, Vec<DescriptorTables>)>|
        {
            &&& #[trigger] call_ensures(F::collection_tables, (fonts, &shared), listed)
            &&& match listed {
                Some((listing, offered)) if descriptor_of(offered@, data, face_index) is Ok => {
                    &&& selected.1 == shared
                    &&& call_ensures(
                        F::collection_descriptor,
                        (
                            fonts,
                            &listing,
                            descriptor_of(offered@, data, face_index)->Ok_0 as usize,
                        ),
                        selected.0,
                    )
                },
                _ => is_extracted(fonts, data, face_index, result),
            }
        };
    let offered = listed->0;
    assert(call_ensures(F::collection_tables, (fonts, &shared), Some(offered)));
    assert(face_offset_in(data, face_index) is Ok);
    law_the_first_matching_descriptor_is_chosen(offered.1@, data, face_index);
    let index = descriptor_of(offered.1@, data, face_index)->Ok_0;
    assert(offered.1.len() == offered.1@.len());
    assert(is_offered_for_face(
        fonts,
        data,
        face_index,
        shared,
        selected.0,
        offered,
        index as usize,
    ));
}

/// A native face that does not read the shared bytes is made of the face extracted from the
/// collection, and reads that.
#[verifier::spinoff_prover]
#[verifier::rlimit(40)]
pub proof fn law_other_faces_are_extracted<F: NativeFonts>(
    fonts: &F,
    data: Seq<u8>,
    face_index: u32,
    shared: F::Source,
    selected: (F::Descriptor, F::Source, bool),
)
    requires
        !selected.2,
        is_selected(
            fonts,
            data,
            face_index,
            shared,
            Ok::<(F::Descriptor, F::Source, bool), NativeFaceError>(selected),
        ),
    ensures
        collection_starts(data),
        compacted(data, face_index) is Ok,
        exists|bytes: Vec<u8>|
            {
                &&& #[trigger] call_ensures(F::source_from_bytes, (fonts, bytes), selected.1)
                &&& bytes@ == compacted(data, face_index)->Ok_0
                &&& call_ensures(F::single_descriptor, (fonts, &selected.1), Some(selected.0))
            },
{
    let result = Ok::<(F::Descriptor, F::Source, bool), NativeFaceError>(selected);
    assert(is_extracted(fonts, data, face_index, result));
    let (bytes, source, descriptor) = choose|
        bytes: Vec<u8>,
        source: F::Source,
        descriptor: Option<F::Descriptor>,
    |
        {
            &&& #[trigger] call_ensures(F::source_from_bytes, (fonts, bytes), source)
            &&& bytes@ == compacted(data, face_index)->Ok_0
            &&& #[trigger] call_ensures(F::single_descriptor, (fonts, &source), descriptor)
            &&& descriptor is Some && result == Ok::<
                (F::Descriptor, F::Source, bool),
                NativeFaceError,
            >((descriptor->0, source, false))
        };
    assert(call_ensures(F::source_from_bytes, (fonts, bytes), selected.1));
    assert(descriptor == Some(selected.0));
}

/// A face that is no collection's has but one index, and every other is refused.
pub proof fn law_single_fonts_have_one_face<F: NativeFonts>(
    fonts: &F,
    data: Seq<u8>,
    face_index: u32,
    shared: F::Source,
    result: Result<(F::Descriptor, F::Source, bool), NativeFaceError>,
)
    requires
        is_selected(fonts, data, face_index, shared, result),
        !collection_starts(data),
    ensures
        face_index != 0 ==> result == Err::<(F::Descriptor, F::Source, bool), NativeFaceError>(
            NativeFaceError::Sfnt(SfntError::SingleFontFace { face_index }),
        ),
        face_index == 0 && result is Err ==> result->Err_0 == NativeFaceError::FaceRejected
            && call_ensures(F::single_descriptor, (fonts, &shared), None::<F::Descriptor>),
{
}

/// A native face has the descriptor that was selected, at the variations that are asked for, if
/// there are any, and reads the bytes that were selected.
pub proof fn law_native_faces_are_varied<F: NativeFonts>(
    fonts: &F,
    data: Seq<u8>,
    face_index: u32,
    variations: &[FontVariation],
    shared: F::Source,
    result: Result<(NativeFace<F>, bool), NativeFaceError>,
)
    requires
        is_native_face(fonts, data, face_index, variations, shared, result),
    ensures
        exists|selected: Result<(F::Descriptor, F::Source, bool), NativeFaceError>|
            {
                &&& #[trigger] is_selected(fonts, data, face_index, shared, selected)
                &&& selected matches Err(error) ==> result is Err && result->Err_0 == error
                &&& selected is Ok && variations@.len() == 0 ==> result is Ok
                    && result->Ok_0.0.descriptor == selected->Ok_0.0
                &&& selected is Ok && variations@.len() > 0 && result is Ok ==> call_ensures(
                    F::vary,
                    (fonts, selected->Ok_0.0, variations),
                    Some(result->Ok_0.0.descriptor),
                )
                &&& selected is Ok && result is Err ==> result->Err_0
                    == NativeFaceError::VariationsRejected && call_ensures(
                    F::vary,
                    (fonts, selected->Ok_0.0, variations),
                    None::<F::Descriptor>,
                )
                &&& result is Ok ==> selected is Ok && result->Ok_0.0.source_data
                    == selected->Ok_0.1 && result->Ok_0.1 == selected->Ok_0.2
            },
{
}

/// Whether the record of a subtable at a place is for a glyph.
pub open spec fn is_for_glyph(location: Seq<u8>, at: int, glyph: u32) -> bool {
    spelled_short(location, at) <= glyph <= spelled_short(location, at + 2)
}

/// Whether a record at a place in a list leads to a subtable with shared metrics whose twelve
/// fixed bytes are in the list and whose twenty are not.
pub open spec fn leads_to_cut_subtable(
    location: Seq<u8>,
    list: int,
    list_len: int,
    at: int,
) -> bool {
    let offset = spelled(location, at + 4);
    &&& 0 < offset
    &&& offset + 12 <= list_len < offset + 20
    &&& spelled_short(location, list + offset) == 2
}

/// Whether a record is the first in a list that is for a glyph.
pub open spec fn is_first_for_glyph(
    location: Seq<u8>,
    list: int,
    record: int,
    glyph: u32,
) -> bool {
    &&& is_for_glyph(location, list + 8 * record, glyph)
    &&& forall|earlier: int|
        0 <= earlier < record ==> !#[trigger] is_for_glyph(location, list + 8 * earlier, glyph)
}

/// Whether the record of a strike is there and for a glyph, and the list of subtables that it
/// tells of lies in the bytes.
pub open spec fn strike_lists_glyph(location: Seq<u8>, strike: int, glyph: u32) -> bool {
    let at = 8 + 48 * strike;
    &&& 56 + 48 * strike <= location.len()
    &&& spelled_short(location, at + 40) <= glyph <= spelled_short(location, at + 42)
    &&& spelled(location, at) + spelled(location, at + 4) <= location.len()
    &&& 8 * spelled(location, at + 8) <= spelled(location, at + 4)
}

/// The bitmap of a glyph that is cut off is told of by the first subtable for the glyph in the
/// list of its strike, and that subtable ends before its metrics.
pub proof fn law_cut_off_bitmaps_have_a_cut_subtable(location: Seq<u8>, strike: int, glyph: u32)
    requires
        cut_off(location, strike, glyph),
    ensures
        strike_lists_glyph(location, strike, glyph),
        ({
            let at = 8 + 48 * strike;
            let list = spelled(location, at);
            exists|record: int|
                {
                    &&& 0 <= record < spelled(location, at + 8)
                    &&& #[trigger] is_first_for_glyph(location, list, record, glyph)
                    &&& leads_to_cut_subtable(
                        location,
                        list,
                        spelled(location, at + 4),
                        list + 8 * record,
                    )
                }
        }),
{
    let at = 8 + 48 * strike;
    let list = be32(location, at);
    let count = be32(location, at + 8);
    assert(list_is_cut(location, list, be32(location, at + 4), count, glyph));
    let record = choose|record: int|
        {
            &&& 0 <= record < count
            &&& #[trigger] record_covers(location, list + 8 * record, glyph)
            &&& forall|earlier: int|
                0 <= earlier < record ==> !#[trigger] record_covers(
                    location,
                    list + 8 * earlier,
                    glyph,
                )
            &&& record_is_cut(location, list, be32(location, at + 4), list + 8 * record)
        };
    assert forall|earlier: int| 0 <= earlier < record implies !#[trigger] is_for_glyph(
        location,
        list + 8 * earlier,
        glyph,
    ) by {
        assert(!record_covers(location, list + 8 * earlier, glyph));
    }
    assert(list == spelled(location, at));
    assert(is_first_for_glyph(location, spelled(location, at), record, glyph));
    assert(leads_to_cut_subtable(
        location,
        spelled(location, at),
        spelled(location, at + 4),
        spelled(location, at) + 8 * record,
    ));
}

/// A bitmap is cut off wherever the first subtable for its glyph ends before its metrics.
pub proof fn law_cut_subtables_cut_bitmaps_off(
    location: Seq<u8>,
    strike: int,
    glyph: u32,
    record: int,
)
    requires
        strike_lists_glyph(location, strike, glyph),
        0 <= record < spelled(location, 8 + 48 * strike + 8),
        is_first_for_glyph(location, spelled(location, 8 + 48 * strike), record, glyph),
        leads_to_cut_subtable(
            location,
            spelled(location, 8 + 48 * strike),
            spelled(location, 8 + 48 * strike + 4),
            spelled(location, 8 + 48 * strike) + 8 * record,
        ),
    ensures
        cut_off(location, strike, glyph),
{
    let at = 8 + 48 * strike;
    let list = be32(location, at);
    assert(record_covers(location, list + 8 * record, glyph));
    assert forall|earlier: int| 0 <= earlier < record implies !#[trigger] record_covers(
        location,
        list + 8 * earlier,
        glyph,
    ) by {
        assert(!is_for_glyph(location, list + 8 * earlier, glyph));
    }
    assert(record_is_cut(location, list, be32(location, at + 4), list + 8 * record));
    assert(list_is_cut(location, list, be32(location, at + 4), be32(location, at + 8), glyph));
}

} // verus!
