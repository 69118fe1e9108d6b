//! What values write into a hasher.
//!
//! A value that is a cache key says here, in order, which items it hashes. Callers feed the items
//! to the hasher of their choice.

use vstd::prelude::*;

verus! {

/// One item that a value writes into a hasher.
#[derive(Clone, Debug, PartialEq, Eq, Hash)]
pub enum HashWrite {
    /// A length or an index.
    Length(usize),
    /// A text.
    Text(String),
    /// A 32-bit number.
    Word(u32),
    /// A byte.
    Byte(u8),
    /// A truth value.
    Flag(bool),
    /// The position of an enum's variant.
    Variant(u8),
}

/// The mathematical value of a [`HashWrite`].
pub enum HashItem {
    /// A length or an index.
    Length(usize),
    /// A text.
    Text(Seq<char>),
    /// A 32-bit number.
    Word(u32),
    /// A byte.
    Byte(u8),
    /// A truth value.
    Flag(bool),
    /// The position of an enum's variant.
    Variant(u8),
}

impl View for HashWrite {
    type V = HashItem;

    open spec fn view(&self) -> HashItem {
        match self {
            HashWrite::Length(length) => HashItem::Length(*length),
            HashWrite::Text(text) => HashItem::Text(text@),
            HashWrite::Word(word) => HashItem::Word(*word),
            HashWrite::Byte(byte) => HashItem::Byte(*byte),
            HashWrite::Flag(flag) => HashItem::Flag(*flag),
            HashWrite::Variant(variant) => HashItem::Variant(*variant),
        }
    }
}

/// The items that a list of writes stands for.
pub open spec fn hash_items(writes: Seq<HashWrite>) -> Seq<HashItem> {
    writes.map_values(|write: HashWrite| write@)
}

/// Appends one item.
pub fn write_item(writes: &mut Vec<HashWrite>, item: HashWrite)
    ensures
        hash_items(final(writes)@) == hash_items(old(writes)@).push(item@),
{
    writes.push(item);
    assert(hash_items(writes@) =~= hash_items(old(writes)@).push(item@));
}

/// Appends the items of another list.
pub fn write_all(writes: &mut Vec<HashWrite>, items: Vec<HashWrite>)
    ensures
        hash_items(final(writes)@) == hash_items(old(writes)@) + hash_items(items@),
{
    let ghost added = items@;
    let mut items = items;
    writes.append(&mut items);
    assert(hash_items(writes@) =~= hash_items(old(writes)@) + hash_items(added));
}

} // verus!
