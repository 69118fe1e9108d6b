//! What holds of every extracted face.

use crate::sfnt::{
    adjusted, assembled, be16, be32, be32_bytes, checksum_of, compacted, face_offset_in, head_tag,
    overwrite, padded, padding_of, same_identity, table_from, table_in, tag_at, word_modulus,
    word_sum, SfntError, CHECKSUM_MAGIC,
};
use vstd::prelude::*;

verus! {

/// Four bytes spell the number that they were made from.
proof fn lemma_be32_of_bytes(data: Seq<u8>, at: int, value: int)
    requires
        0 <= value < word_modulus(),
        0 <= at,
        at + 4 <= data.len(),
    ensures
        be32(overwrite(data, at, be32_bytes(value)), at) == value,
{
    let written = overwrite(data, at, be32_bytes(value));
    assert(written[at] == (value / 0x100_0000) as u8);
    assert(written[at + 1] == (value / 0x1_0000 % 0x100) as u8);
    assert(written[at + 2] == (value / 0x100 % 0x100) as u8);
    assert(written[at + 3] == (value % 0x100) as u8);
}

/// Writing an aligned word changes the word sum by the difference of the two words.
proof fn lemma_word_sum_of_overwrite(data: Seq<u8>, word: int, value: int, words: nat)
    requires
        0 <= value < word_modulus(),
        0 <= word,
        4 * word + 4 <= data.len(),
        4 * words <= data.len(),
    ensures
        word_sum(overwrite(data, 4 * word, be32_bytes(value)), words) == word_sum(data, words) + if word
            < words {
            value - be32(data, 4 * word)
        } else {
            0
        },
    decreases words,
{
    let written = overwrite(data, 4 * word, be32_bytes(value));
    if words > 0 {
        lemma_word_sum_of_overwrite(data, word, value, (words - 1) as nat);
        if words - 1 == word {
            lemma_be32_of_bytes(data, 4 * word, value);
        } else {
            assert(be32(written, 4 * (words - 1)) == be32(data, 4 * (words - 1)));
        }
    }
}

/// Padding keeps the bytes and makes the length a multiple of four.
proof fn lemma_padded_len(data: Seq<u8>)
    ensures
        padded(data).len() == data.len() + padding_of(data.len() as int),
        padded(data).len() % 4 == 0,
        0 <= padding_of(data.len() as int) < 4,
{
}

/// An assembled `head` table is aligned and complete.
proof fn lemma_head_is_aligned(data: Seq<u8>, directory: Seq<u8>, count: nat)
    ensures
        assembled(data, directory, count) matches Ok((bytes, Some(head))) ==> head % 4 == 0 && 0
            <= head && head + 12 <= bytes.len(),
    decreases count,
{
    if count > 0 {
        lemma_head_is_aligned(data, directory, (count - 1) as nat);
        match assembled(data, directory, (count - 1) as nat) {
            Ok((bytes, head)) => {
                lemma_padded_len(bytes);
                let at = 12 + (count - 1) * 16;
                let target = padded(bytes).len() as int;
                let moved = overwrite(padded(bytes), at + 8, be32_bytes(target));
                assert(moved.len() == padded(bytes).len());
            },
            Err(_) => {},
        }
    }
}

/// An adjustment in an aligned `head` table makes the checksum what it has to be.
proof fn lemma_adjusted_checksum(font: Seq<u8>, head: int)
    requires
        font.len() % 4 == 0,
        head % 4 == 0,
        0 <= head,
        head + 12 <= font.len(),
    ensures
        checksum_of(adjusted(font, head)) == CHECKSUM_MAGIC,
        adjusted(font, head).len() == font.len(),
{
    let cleared = overwrite(font, head + 8, be32_bytes(0));
    let sum = word_sum(cleared, font.len() / 4);
    let adjustment = (CHECKSUM_MAGIC - checksum_of(cleared)) % word_modulus();
    let word = (head + 8) / 4;
    assert(4 * word == head + 8);
    lemma_be32_of_bytes(font, head + 8, 0);
    lemma_word_sum_of_overwrite(cleared, word, adjustment, font.len() / 4);
    assert(word_sum(adjusted(font, head), font.len() / 4) == sum + adjustment);
    assert(checksum_of(cleared) == sum % word_modulus());
    assert((sum + (CHECKSUM_MAGIC - sum % word_modulus()) % word_modulus()) % word_modulus()
        == CHECKSUM_MAGIC) by (nonlinear_arith)
        requires
            word_modulus() == 0x1_0000_0000,
            CHECKSUM_MAGIC == 0xb1b0_afba,
    ;
}

/// What an extracted face is made of: where the face starts, its directory, the assembled bytes
/// and the position of the `head` table in them.
proof fn lemma_compacted_parts(data: Seq<u8>, face_index: u32) -> (parts: (
    int,
    Seq<u8>,
    Seq<u8>,
    int,
))
    requires
        compacted(data, face_index) is Ok,
    ensures
        ({
            let (face_offset, directory, bytes, head) = parts;
            let count = be16(data, face_offset + 4);
            &&& 0 <= face_offset
            &&& 0 <= count <= 0xffff
            &&& face_offset + 12 + count * 16 <= data.len()
            &&& directory == data.subrange(face_offset, face_offset + 12 + count * 16)
            &&& face_offset_in(data, face_index) == Ok::<int, SfntError>(face_offset)
            &&& assembled(data, directory, count as nat) == Ok::<
                (Seq<u8>, Option<int>),
                SfntError,
            >((bytes, Some(head)))
            &&& compacted(data, face_index) == Ok::<Seq<u8>, SfntError>(
                adjusted(padded(bytes), head),
            )
        }),
{
    let face_offset = face_offset_in(data, face_index)->Ok_0;
    let count = be16(data, face_offset + 4);
    let directory = data.subrange(face_offset, face_offset + 12 + count * 16);
    match assembled(data, directory, count as nat) {
        Ok((bytes, Some(head))) => (face_offset, directory, bytes, head),
        _ => arbitrary(),
    }
}

/// The checksum of every extracted face is the magic number, and its length is a multiple of
/// four.
pub proof fn law_compacted_checksum(data: Seq<u8>, face_index: u32)
    requires
        compacted(data, face_index) is Ok,
    ensures
        checksum_of(compacted(data, face_index)->Ok_0) == CHECKSUM_MAGIC,
        compacted(data, face_index)->Ok_0.len() % 4 == 0,
{
    let (face_offset, directory, bytes, head) = lemma_compacted_parts(data, face_index);
    lemma_head_is_aligned(data, directory, be16(data, face_offset + 4) as nat);
    lemma_padded_len(bytes);
    lemma_adjusted_checksum(padded(bytes), head);
}

/// Where the copy of table `index` lies, as its record in `bytes` says.
spec fn copy_at(bytes: Seq<u8>, index: int) -> int {
    be32(bytes, 12 + index * 16 + 8)
}

/// How long table `index` is, as the directory says.
spec fn len_of(directory: Seq<u8>, index: int) -> int {
    be32(directory, 12 + index * 16 + 12)
}

/// Where table `index` lies in the collection, as the directory says.
spec fn source_of(directory: Seq<u8>, index: int) -> int {
    be32(directory, 12 + index * 16 + 8)
}

/// Whether position `at` belongs to the offset of one of the first `count` records.
spec fn in_offset_field(at: int, count: int) -> bool {
    at >= 12 && 8 <= (at - 12) % 16 < 12 && (at - 12) / 16 < count
}

/// The copy of one table is complete and aligned, and lies behind the directory.
spec fn copied(data: Seq<u8>, directory: Seq<u8>, bytes: Seq<u8>, index: int) -> bool {
    &&& directory.len() <= copy_at(bytes, index)
    &&& copy_at(bytes, index) % 4 == 0
    &&& copy_at(bytes, index) + len_of(directory, index) <= bytes.len()
    &&& source_of(directory, index) + len_of(directory, index) <= data.len()
    &&& forall|k: int|
        0 <= k < len_of(directory, index) ==> #[trigger] bytes[copy_at(bytes, index) + k]
            == data[source_of(directory, index) + k]
}

/// The bytes after `count` tables: the directory with new offsets, then the copies in order.
spec fn laid_out(data: Seq<u8>, directory: Seq<u8>, bytes: Seq<u8>, count: int) -> bool {
    &&& bytes.len() >= directory.len()
    &&& forall|index: int| 0 <= index < count ==> #[trigger] copied(data, directory, bytes, index)
    &&& forall|early: int, late: int|
        0 <= early < late < count ==> #[trigger] copy_at(bytes, early) + len_of(directory, early)
            <= #[trigger] copy_at(bytes, late)
    &&& forall|at: int|
        0 <= at < directory.len() && !in_offset_field(at, count) ==> #[trigger] bytes[at]
            == directory[at]
}

/// One more table keeps the layout.
proof fn lemma_layout_step(data: Seq<u8>, directory: Seq<u8>, bytes: Seq<u8>, count: int)
    requires
        0 <= count,
        directory.len() >= 12 + (count + 1) * 16,
        laid_out(data, directory, bytes, count),
        source_of(directory, count) + len_of(directory, count) <= data.len(),
        padded(bytes).len() <= u32::MAX,
    ensures
        laid_out(
            data,
            directory,
            overwrite(
                padded(bytes),
                12 + count * 16 + 8,
                be32_bytes(padded(bytes).len() as int),
            ) + data.subrange(
                source_of(directory, count),
                source_of(directory, count) + len_of(directory, count),
            ),
            count + 1,
        ),
{
    let at = 12 + count * 16 + 8;
    let target = padded(bytes).len() as int;
    let start = source_of(directory, count);
    let len = len_of(directory, count);
    let moved = overwrite(padded(bytes), at, be32_bytes(target));
    let next = moved + data.subrange(start, start + len);
    lemma_padded_len(bytes);
    lemma_be32_of_bytes(padded(bytes), at, target);
    assert(copy_at(next, count) == target);
    assert forall|index: int| 0 <= index < count implies copy_at(next, index) == copy_at(
        bytes,
        index,
    ) by {
        let field = 12 + index * 16 + 8;
        assert(field + 4 <= at);
        assert(next[field] == bytes[field] && next[field + 1] == bytes[field + 1] && next[field + 2]
            == bytes[field + 2] && next[field + 3] == bytes[field + 3]);
    }
    assert forall|index: int| 0 <= index < count + 1 implies #[trigger] copied(
        data,
        directory,
        next,
        index,
    ) by {
        if index < count {
            assert(copied(data, directory, bytes, index));
            assert forall|k: int| 0 <= k < len_of(directory, index) implies #[trigger] next[copy_at(
                next,
                index,
            ) + k] == data[source_of(directory, index) + k] by {
                assert(next[copy_at(bytes, index) + k] == bytes[copy_at(bytes, index) + k]);
            }
        } else {
            assert forall|k: int| 0 <= k < len implies #[trigger] next[copy_at(next, index) + k]
                == data[start + k] by {
                assert(next[target + k] == data.subrange(start, start + len)[k]);
            }
        }
    }
    assert forall|early: int, late: int| 0 <= early < late < count + 1 implies #[trigger] copy_at(
        next,
        early,
    ) + len_of(directory, early) <= #[trigger] copy_at(next, late) by {
        assert(copied(data, directory, bytes, early));
        if late < count {
            assert(copy_at(bytes, early) + len_of(directory, early) <= copy_at(bytes, late));
        }
    }
    assert forall|k: int|
        0 <= k < directory.len() && !in_offset_field(k, count + 1) implies #[trigger] next[k]
        == directory[k] by {
        assert(!in_offset_field(k, count));
        if at <= k < at + 4 {
            assert((k - 12) / 16 == count && 8 <= (k - 12) % 16 < 12);
        }
    }
}

/// Every assembly is laid out, and its `head` table is the copy of a table of that name.
proof fn lemma_assembled_layout(data: Seq<u8>, directory: Seq<u8>, count: nat)
    requires
        directory.len() >= 12 + count * 16,
    ensures
        assembled(data, directory, count) matches Ok((bytes, head)) ==> {
            &&& laid_out(data, directory, bytes, count as int)
            &&& forall|index: int|
                0 <= index < count && tag_at(directory, 12 + index * 16) == head_tag()
                    ==> #[trigger] len_of(directory, index) >= 12
            &&& head matches Some(head) ==> exists|index: int|
                0 <= index < count && head == #[trigger] copy_at(bytes, index) && tag_at(
                    directory,
                    12 + index * 16,
                ) == head_tag() && len_of(directory, index) >= 12
        },
    decreases count,
{
    if count > 0 {
        let before = (count - 1) as nat;
        lemma_assembled_layout(data, directory, before);
        if assembled(data, directory, count) is Ok {
            let (bytes, head) = assembled(data, directory, before)->Ok_0;
            let (next, next_head) = assembled(data, directory, count)->Ok_0;
            lemma_layout_step(data, directory, bytes, before as int);
            if next_head is Some {
                let target = padded(bytes).len() as int;
                let at = 12 + (count - 1) * 16;
                lemma_padded_len(bytes);
                lemma_be32_of_bytes(padded(bytes), at + 8, target);
                assert(copy_at(next, before as int) == target);
                if tag_at(directory, at) == head_tag() {
                    assert(len_of(directory, before as int) >= 12);
                } else {
                    let index = choose|index: int|
                        0 <= index < before && head->Some_0 == #[trigger] copy_at(bytes, index)
                            && tag_at(directory, 12 + index * 16) == head_tag() && len_of(
                            directory,
                            index,
                        ) >= 12;
                    let field = 12 + index * 16 + 8;
                    assert(next[field] == bytes[field] && next[field + 1] == bytes[field + 1]
                        && next[field + 2] == bytes[field + 2] && next[field + 3] == bytes[field
                        + 3]);
                    assert(copy_at(next, index) == copy_at(bytes, index));
                }
            }
        }
    }
}

/// Two lookups of `tag` agree: both find nothing, or both find one face's table.
pub open spec fn same_lookup(
    tag: Seq<u8>,
    actual: Result<Option<Seq<u8>>, SfntError>,
    expected: Result<Option<Seq<u8>>, SfntError>,
) -> bool {
    match (actual, expected) {
        (Ok(Some(actual)), Ok(Some(expected))) => same_identity(tag, actual, expected),
        (Ok(None), Ok(None)) => true,
        _ => false,
    }
}

/// `font` is `bytes` but for the checksum adjustment of the `head` table at `head`.
spec fn readjusted(
    data: Seq<u8>,
    directory: Seq<u8>,
    bytes: Seq<u8>,
    head: int,
    font: Seq<u8>,
    count: int,
) -> bool {
    &&& laid_out(data, directory, bytes, count)
    &&& font.len() >= bytes.len()
    &&& forall|index: int|
        0 <= index < count && tag_at(directory, 12 + index * 16) == head_tag()
            ==> #[trigger] len_of(directory, index) >= 12
    &&& forall|k: int|
        0 <= k < bytes.len() && !(head + 8 <= k < head + 12) ==> #[trigger] font[k] == bytes[k]
    &&& exists|owner: int|
        0 <= owner < count && head == #[trigger] copy_at(bytes, owner) && tag_at(
            directory,
            12 + owner * 16,
        ) == head_tag()
}

/// A table record of the font keeps its tag, its checksum and its length, and its offset is that
/// of the copy.
proof fn lemma_record_kept(
    data: Seq<u8>,
    directory: Seq<u8>,
    bytes: Seq<u8>,
    head: int,
    font: Seq<u8>,
    index: int,
    count: int,
)
    requires
        0 <= index < count,
        directory.len() == 12 + count * 16,
        readjusted(data, directory, bytes, head, font, count),
    ensures
        font.subrange(12 + index * 16, 12 + index * 16 + 8) == directory.subrange(
            12 + index * 16,
            12 + index * 16 + 8,
        ),
        tag_at(font, 12 + index * 16) == tag_at(directory, 12 + index * 16),
        be32(font, 12 + index * 16 + 8) == copy_at(bytes, index),
        be32(font, 12 + index * 16 + 12) == len_of(directory, index),
{
    let at = 12 + index * 16;
    let owner = choose|owner: int|
        0 <= owner < count && head == #[trigger] copy_at(bytes, owner) && tag_at(
            directory,
            12 + owner * 16,
        ) == head_tag();
    assert(copied(data, directory, bytes, owner));
    assert forall|k: int| at <= k < at + 16 implies #[trigger] font[k] == bytes[k] by {}
    assert forall|k: int| at <= k < at + 8 || at + 12 <= k < at + 16 implies #[trigger] font[k]
        == directory[k] by {
        assert((k - 12) / 16 == index);
        assert(!in_offset_field(k, count));
        assert(bytes[k] == directory[k]);
    }
    assert(font.subrange(at, at + 8) =~= directory.subrange(at, at + 8));
    assert(tag_at(font, at) =~= tag_at(directory, at)) by {
        assert(font[at] == directory[at] && font[at + 1] == directory[at + 1] && font[at + 2]
            == directory[at + 2] && font[at + 3] == directory[at + 3]);
    }
    assert(font[at + 8] == bytes[at + 8] && font[at + 9] == bytes[at + 9] && font[at + 10]
        == bytes[at + 10] && font[at + 11] == bytes[at + 11]);
    assert(font[at + 12] == directory[at + 12] && font[at + 13] == directory[at + 13] && font[at
        + 14] == directory[at + 14] && font[at + 15] == directory[at + 15]);
}

/// The copy of a table in the font identifies the same face as the table itself.
proof fn lemma_table_kept(
    data: Seq<u8>,
    directory: Seq<u8>,
    bytes: Seq<u8>,
    head: int,
    font: Seq<u8>,
    index: int,
    count: int,
)
    requires
        0 <= index < count,
        directory.len() == 12 + count * 16,
        readjusted(data, directory, bytes, head, font, count),
    ensures
        copy_at(bytes, index) + len_of(directory, index) <= font.len(),
        source_of(directory, index) + len_of(directory, index) <= data.len(),
        tag_at(directory, 12 + index * 16) != head_tag() ==> font.subrange(
            copy_at(bytes, index),
            copy_at(bytes, index) + len_of(directory, index),
        ) == data.subrange(
            source_of(directory, index),
            source_of(directory, index) + len_of(directory, index),
        ),
        same_identity(
            tag_at(directory, 12 + index * 16),
            font.subrange(
                copy_at(bytes, index),
                copy_at(bytes, index) + len_of(directory, index),
            ),
            data.subrange(
                source_of(directory, index),
                source_of(directory, index) + len_of(directory, index),
            ),
        ),
{
    let owner = choose|owner: int|
        0 <= owner < count && head == #[trigger] copy_at(bytes, owner) && tag_at(
            directory,
            12 + owner * 16,
        ) == head_tag();
    assert(len_of(directory, owner) >= 12);
    assert(copied(data, directory, bytes, owner));
    assert(copied(data, directory, bytes, index));
    let copy = copy_at(bytes, index);
    let start = source_of(directory, index);
    let len = len_of(directory, index);
    let actual = font.subrange(copy, copy + len);
    let expected = data.subrange(start, start + len);
    if index == owner {
        assert forall|k: int| 0 <= k < len && !(8 <= k < 12) implies #[trigger] actual[k]
            == expected[k] by {
            assert(font[copy + k] == bytes[copy + k]);
        }
        assert(actual.subrange(0, 8) =~= expected.subrange(0, 8));
        assert(actual.skip(12) =~= expected.skip(12));
    } else {
        assert(index < owner ==> copy_at(bytes, index) + len_of(directory, index) <= copy_at(
            bytes,
            owner,
        ));
        assert(owner < index ==> copy_at(bytes, owner) + len_of(directory, owner) <= copy_at(
            bytes,
            index,
        ));
        assert forall|k: int| 0 <= k < len implies #[trigger] actual[k] == expected[k] by {
            assert(font[copy + k] == bytes[copy + k]);
        }
        assert(actual =~= expected);
    }
}

/// From any record on, a lookup in the extracted font agrees with one in the collection.
proof fn lemma_same_tables_from(
    data: Seq<u8>,
    face_offset: int,
    bytes: Seq<u8>,
    head: int,
    font: Seq<u8>,
    tag: Seq<u8>,
    index: int,
    count: int,
)
    requires
        data.len() <= usize::MAX,
        font.len() <= usize::MAX,
        0 <= face_offset,
        0 <= index,
        0 <= count,
        face_offset + 12 + count * 16 <= data.len(),
        readjusted(
            data,
            data.subrange(face_offset, face_offset + 12 + count * 16),
            bytes,
            head,
            font,
            count,
        ),
    ensures
        same_lookup(
            tag,
            table_from(font, 0, tag, index, count),
            table_from(data, face_offset, tag, index, count),
        ),
    decreases count - index,
{
    if index < count {
        let directory = data.subrange(face_offset, face_offset + 12 + count * 16);
        let at = 12 + index * 16;
        lemma_record_kept(data, directory, bytes, head, font, index, count);
        lemma_table_kept(data, directory, bytes, head, font, index, count);
        assert(tag_at(directory, at) =~= tag_at(data, face_offset + at));
        if tag_at(directory, at) != tag {
            lemma_same_tables_from(data, face_offset, bytes, head, font, tag, index + 1, count);
        }
    }
}

/// An extracted face is the assembly of its tables, but for the checksum adjustment.
proof fn lemma_compacted_is_readjusted(data: Seq<u8>, face_index: u32) -> (parts: (
    int,
    Seq<u8>,
    Seq<u8>,
    int,
))
    requires
        compacted(data, face_index) is Ok,
    ensures
        ({
            let (face_offset, directory, bytes, head) = parts;
            let count = be16(data, face_offset + 4);
            let font = compacted(data, face_index)->Ok_0;
            &&& 0 <= face_offset
            &&& 0 <= count
            &&& face_offset + 12 + count * 16 <= data.len()
            &&& face_offset_in(data, face_index) == Ok::<int, SfntError>(face_offset)
            &&& directory == data.subrange(face_offset, face_offset + 12 + count * 16)
            &&& readjusted(data, directory, bytes, head, font, count)
            &&& font.subrange(0, 12) == directory.subrange(0, 12)
            &&& be16(font, 4) == count
        }),
{
    let (face_offset, directory, bytes, head) = lemma_compacted_parts(data, face_index);
    let count = be16(data, face_offset + 4);
    let font = adjusted(padded(bytes), head);
    lemma_assembled_layout(data, directory, count as nat);
    lemma_padded_len(bytes);
    let owner = choose|owner: int|
        0 <= owner < count && head == #[trigger] copy_at(bytes, owner) && tag_at(
            directory,
            12 + owner * 16,
        ) == head_tag() && len_of(directory, owner) >= 12;
    assert(copied(data, directory, bytes, owner));
    assert forall|k: int| 0 <= k < bytes.len() && !(head + 8 <= k < head + 12) implies #[trigger] font[k]
        == bytes[k] by {}
    assert forall|k: int| 0 <= k < 12 implies #[trigger] font[k] == directory[k] by {
        assert(!in_offset_field(k, count));
        assert(font[k] == bytes[k]);
    }
    assert(font.subrange(0, 12) =~= directory.subrange(0, 12));
    assert(font[4] == directory[4] && font[5] == directory[5]);
    (face_offset, directory, bytes, head)
}

/// An extracted face has the tables of the face that it was extracted from: every lookup by tag
/// gives the same bytes, but for the checksum adjustment of the `head` table.
pub proof fn law_compacted_keeps_tables(data: Seq<u8>, face_index: u32, tag: Seq<u8>)
    requires
        data.len() <= usize::MAX,
        compacted(data, face_index) is Ok,
        compacted(data, face_index)->Ok_0.len() <= usize::MAX,
    ensures
        same_lookup(
            tag,
            table_in(compacted(data, face_index)->Ok_0, 0, tag),
            table_in(data, face_offset_in(data, face_index)->Ok_0, tag),
        ),
{
    let (face_offset, directory, bytes, head) = lemma_compacted_is_readjusted(data, face_index);
    let count = be16(data, face_offset + 4);
    let font = compacted(data, face_index)->Ok_0;
    lemma_same_tables_from(data, face_offset, bytes, head, font, tag, 0, count);
}

/// Where the record of a table lies, from the start of its face.
pub open spec fn record_at(index: int) -> int {
    12 + index * 16
}

/// Where a table lies, as its record in a font that starts at `face` says.
pub open spec fn table_offset(data: Seq<u8>, face: int, index: int) -> int {
    be32(data, face + record_at(index) + 8)
}

/// How long a table is, as its record in a font that starts at `face` says.
pub open spec fn table_len(data: Seq<u8>, face: int, index: int) -> int {
    be32(data, face + record_at(index) + 12)
}

/// An extracted face has the header of the face that it was extracted from, and its records in
/// their order: each keeps its tag, its checksum and its length.
pub proof fn law_compacted_keeps_directory(data: Seq<u8>, face_index: u32)
    requires
        compacted(data, face_index) is Ok,
    ensures
        ({
            let font = compacted(data, face_index)->Ok_0;
            let face = face_offset_in(data, face_index)->Ok_0;
            &&& font.subrange(0, 12) == data.subrange(face, face + 12)
            &&& be16(font, 4) == be16(data, face + 4)
            &&& forall|index: int|
                0 <= index < be16(font, 4) ==> {
                    &&& font.subrange(#[trigger] record_at(index), record_at(index) + 8)
                        == data.subrange(face + record_at(index), face + record_at(index) + 8)
                    &&& table_len(font, 0, index) == table_len(data, face, index)
                }
        }),
{
    let (face, directory, bytes, head) = lemma_compacted_is_readjusted(data, face_index);
    let count = be16(data, face + 4);
    let font = compacted(data, face_index)->Ok_0;
    assert(directory.subrange(0, 12) =~= data.subrange(face, face + 12));
    assert forall|index: int| 0 <= index < count implies font.subrange(
        #[trigger] record_at(index),
        record_at(index) + 8,
    ) == data.subrange(face + record_at(index), face + record_at(index) + 8) && table_len(
        font,
        0,
        index,
    ) == table_len(data, face, index) by {
        lemma_record_kept(data, directory, bytes, head, font, index, count);
        let at = record_at(index);
        assert(directory.subrange(at, at + 8) =~= data.subrange(face + at, face + at + 8));
    }
}

/// Every table of an extracted face starts at a multiple of four behind the directory, and ends in
/// the face. But for `head` tables, it holds the bytes of the table that it was copied from.
pub proof fn law_compacted_copies_tables(data: Seq<u8>, face_index: u32, index: int)
    requires
        compacted(data, face_index) is Ok,
        0 <= index < be16(compacted(data, face_index)->Ok_0, 4),
    ensures
        ({
            let font = compacted(data, face_index)->Ok_0;
            let face = face_offset_in(data, face_index)->Ok_0;
            let copy = table_offset(font, 0, index);
            let source = table_offset(data, face, index);
            let len = table_len(font, 0, index);
            &&& copy % 4 == 0
            &&& record_at(be16(font, 4)) <= copy
            &&& copy + len <= font.len()
            &&& source + len <= data.len()
            &&& tag_at(font, record_at(index)) != head_tag() ==> font.subrange(copy, copy + len)
                == data.subrange(source, source + len)
        }),
{
    let (face, directory, bytes, head) = lemma_compacted_is_readjusted(data, face_index);
    let count = be16(data, face + 4);
    let font = compacted(data, face_index)->Ok_0;
    lemma_record_kept(data, directory, bytes, head, font, index, count);
    lemma_table_kept(data, directory, bytes, head, font, index, count);
    assert(copied(data, directory, bytes, index));
}

/// The tables of an extracted face lie in the order of their records, and do not overlap.
pub proof fn law_compacted_tables_do_not_overlap(
    data: Seq<u8>,
    face_index: u32,
    early: int,
    late: int,
)
    requires
        compacted(data, face_index) is Ok,
        0 <= early < late < be16(compacted(data, face_index)->Ok_0, 4),
    ensures
        ({
            let font = compacted(data, face_index)->Ok_0;
            table_offset(font, 0, early) + table_len(font, 0, early) <= table_offset(font, 0, late)
        }),
{
    let (face, directory, bytes, head) = lemma_compacted_is_readjusted(data, face_index);
    let count = be16(data, face + 4);
    let font = compacted(data, face_index)->Ok_0;
    lemma_record_kept(data, directory, bytes, head, font, early, count);
    lemma_record_kept(data, directory, bytes, head, font, late, count);
    assert(copy_at(bytes, early) + len_of(directory, early) <= copy_at(bytes, late));
}

} // verus!
