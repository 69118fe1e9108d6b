//! Where the bitmaps of a strike are told to be.
//!
//! A `CBLC` table starts with a header of eight bytes. Records of 48 bytes follow, one per strike.
//! Each tells a range of glyphs and the place of a list of subtables; the list starts with records
//! of eight bytes, one per subtable, that tell a range of glyphs and the place of the subtable.

use crate::sfnt::{be16, be32, read_u16, read_u32};
use vstd::prelude::*;

verus! {

/// The number of bytes that the fixed fields of a subtable with shared metrics take.
pub const SHARED_METRICS_FIELDS: usize = 12;

/// The number of bytes that a subtable with shared metrics takes, its metrics included.
pub const SHARED_METRICS_LEN: usize = 20;

/// Where the record of a strike starts.
pub open spec fn strike_at(strike: int) -> int {
    8 + 48 * strike
}

/// Whether a subtable record at `at` is for a glyph.
pub open spec fn record_covers(location: Seq<u8>, at: int, glyph: u32) -> bool {
    be16(location, at) <= glyph <= be16(location, at + 2)
}

/// Whether the subtable that a record at `at` leads to is one with shared metrics whose fixed
/// fields are there and whose metrics are not. The list that the record is in starts at `list`.
pub open spec fn record_is_cut(location: Seq<u8>, list: int, list_len: int, at: int) -> bool {
    let offset = be32(location, at + 4);
    &&& offset > 0
    &&& offset + SHARED_METRICS_FIELDS <= list_len
    &&& offset + SHARED_METRICS_LEN > list_len
    &&& be16(location, list + offset) == 2
}

/// Whether the first record for a glyph in a list of subtables leads to a subtable that ends
/// before its metrics.
pub open spec fn list_is_cut(
    location: Seq<u8>,
    list: int,
    list_len: int,
    count: int,
    glyph: u32,
) -> bool {
    exists|record: int|
        {
            &&& 0 <= record < count
            &&& #[trigger] record_covers(location, list + 8 * record, glyph)
            &&& forall|earlier: int|
                0 <= earlier < record ==> !#[trigger] record_covers(
                    location,
                    list + 8 * earlier,
                    glyph,
                )
            &&& record_is_cut(location, list, list_len, list + 8 * record)
        }
}

/// Whether a glyph's bitmap in a strike is told of by a subtable that ends before the metrics that
/// its glyphs share.
pub open spec fn cut_off(location: Seq<u8>, strike: int, glyph: u32) -> bool {
    let at = strike_at(strike);
    let list = be32(location, at);
    let list_len = be32(location, at + 4);
    let count = be32(location, at + 8);
    &&& at + 48 <= location.len()
    &&& be16(location, at + 40) <= glyph <= be16(location, at + 42)
    &&& list + list_len <= location.len()
    &&& 8 * count <= list_len
    &&& list_is_cut(location, list, list_len, count, glyph)
}

/// A 16-bit number that is there.
fn number(location: &[u8], at: usize) -> (value: usize)
    requires
        at + 2 <= location@.len(),
    ensures
        value == be16(location@, at as int),
{
    match read_u16(location, at) {
        Some(value) => value as usize,
        None => 0,
    }
}

/// A 32-bit number that is there.
fn long_number(location: &[u8], at: usize) -> (value: u32)
    requires
        at + 4 <= location@.len(),
    ensures
        value == be32(location@, at as int),
{
    match read_u32(location, at) {
        Some(value) => value,
        None => 0,
    }
}

/// Whether the first record for a glyph in a list of subtables leads to a subtable that ends
/// before its metrics.
fn is_list_cut(location: &[u8], list: usize, list_len: usize, count: usize, glyph: u32) -> (cut:
    bool)
    requires
        list + list_len <= location@.len(),
        8 * count <= list_len,
    ensures
        cut == list_is_cut(location@, list as int, list_len as int, count as int, glyph),
{
    let len: usize = location.len();
    let mut record: usize = 0;
    while record < count
        invariant
            record <= count,
            len == location@.len(),
            list + list_len <= len,
            8 * count <= list_len,
            forall|earlier: int|
                0 <= earlier < record ==> !#[trigger] record_covers(
                    location@,
                    list + 8 * earlier,
                    glyph,
                ),
        decreases count - record,
    {
        let at: usize = list + 8 * record;
        let first: usize = number(location, at);
        let last: usize = number(location, at + 2);
        if first as u64 <= glyph as u64 && glyph as u64 <= last as u64 {
            assert(record_covers(location@, list + 8 * record, glyph));
            let offset: u64 = long_number(location, at + 4) as u64;
            let cut: bool = offset > 0 && offset + SHARED_METRICS_FIELDS as u64 <= list_len as u64
                && offset + SHARED_METRICS_LEN as u64 > list_len as u64 && number(
                location,
                list + offset as usize,
            ) == 2;
            assert(cut == record_is_cut(location@, list as int, list_len as int, at as int));
            return cut;
        }
        record += 1;
    }
    false
}

/// Whether a glyph's bitmap in a strike is told of by a subtable that ends before the metrics that
/// its glyphs share.
pub fn is_cut_off(location: &[u8], strike: usize, glyph: u32) -> (cut: bool)
    ensures
        cut == cut_off(location@, strike as int, glyph),
{
    let len: usize = location.len();
    if len < 56 || strike > (len - 56) / 48 {
        return false;
    }
    let at: usize = 8 + 48 * strike;
    let first: usize = number(location, at + 40);
    let last: usize = number(location, at + 42);
    if (glyph as u64) < first as u64 || glyph as u64 > last as u64 {
        return false;
    }
    let list: u64 = long_number(location, at) as u64;
    let list_len: u64 = long_number(location, at + 4) as u64;
    let count: u64 = long_number(location, at + 8) as u64;
    if list + list_len > len as u64 || 8 * count > list_len {
        return false;
    }
    is_list_cut(location, list as usize, list_len as usize, count as usize, glyph)
}

} // verus!
