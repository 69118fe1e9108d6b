//! The order of texts, and lists of texts in that order.

use vstd::prelude::*;

verus! {

/// Whether a text comes before another: at the first character where they differ it has the
/// smaller one, or it ends there.
pub open spec fn text_less(left: Seq<char>, right: Seq<char>) -> bool
    decreases left.len(),
{
    if right.len() == 0 {
        false
    } else if left.len() == 0 {
        true
    } else if left[0] != right[0] {
        (left[0] as u32) < (right[0] as u32)
    } else {
        text_less(left.skip(1), right.skip(1))
    }
}

/// The texts of a list.
pub open spec fn texts_of(names: Seq<String>) -> Seq<Seq<char>> {
    names.map_values(|name: String| name@)
}

/// Whether the texts are in order, and none occurs twice.
pub open spec fn strictly_ordered(texts: Seq<Seq<char>>) -> bool {
    forall|i: int, j: int|
        0 <= i < j < texts.len() ==> text_less(#[trigger] texts[i], #[trigger] texts[j])
}

/// Different characters have different numbers.
proof fn lemma_characters_are_numbered(left: char, right: char)
    requires
        left != right,
    ensures
        left as u32 != right as u32,
{
}

/// Of two texts, one comes before the other or they are the same.
pub proof fn law_texts_are_comparable(left: Seq<char>, right: Seq<char>)
    ensures
        left == right || text_less(left, right) || text_less(right, left),
        !(text_less(left, right) && text_less(right, left)),
        left == right ==> !text_less(left, right),
    decreases left.len(),
{
    if left.len() == 0 || right.len() == 0 {
        if left.len() == 0 && right.len() == 0 {
            assert(left =~= right);
        }
    } else if left[0] == right[0] {
        law_texts_are_comparable(left.skip(1), right.skip(1));
        if left.skip(1) == right.skip(1) {
            assert(left =~= seq![left[0]] + left.skip(1));
            assert(right =~= seq![right[0]] + right.skip(1));
        }
    } else {
        lemma_characters_are_numbered(left[0], right[0]);
    }
}

/// A text that comes before one that comes before a third comes before the third.
pub proof fn law_text_order_is_transitive(first: Seq<char>, second: Seq<char>, third: Seq<char>)
    requires
        text_less(first, second),
        text_less(second, third),
    ensures
        text_less(first, third),
    decreases first.len(),
{
    if first.len() > 0 && first[0] == second[0] && second[0] == third[0] {
        law_text_order_is_transitive(first.skip(1), second.skip(1), third.skip(1));
    }
}

/// The last of ordered texts is none of the others, and what comes with it is all of the others.
proof fn lemma_last_of_ordered_texts(texts: Seq<Seq<char>>)
    requires
        strictly_ordered(texts),
        texts.len() > 0,
    ensures
        strictly_ordered(texts.drop_last()),
        texts.drop_last().to_set() == texts.to_set().remove(texts.last()),
        forall|text: Seq<char>| #[trigger]
            texts.contains(text) ==> text == texts.last() || text_less(text, texts.last()),
{
    let others = texts.drop_last();
    assert forall|text: Seq<char>| others.to_set().contains(text) <==> texts.to_set().remove(
        texts.last(),
    ).contains(text) by {
        if others.contains(text) {
            let at = choose|at: int| 0 <= at < others.len() && others[at] == text;
            assert(texts[at] == text);
            assert(text_less(texts[at], texts[texts.len() - 1]));
            law_texts_are_comparable(text, texts.last());
        }
        if texts.contains(text) && text != texts.last() {
            let at = choose|at: int| 0 <= at < texts.len() && texts[at] == text;
            assert(others[at] == text);
        }
    }
    assert(others.to_set() =~= texts.to_set().remove(texts.last()));
    assert forall|text: Seq<char>| #[trigger] texts.contains(text) implies text == texts.last()
        || text_less(text, texts.last()) by {
        let at = choose|at: int| 0 <= at < texts.len() && texts[at] == text;
        if at < texts.len() - 1 {
            assert(text_less(texts[at], texts[texts.len() - 1]));
        }
    }
}

/// There is one order of texts, each of which occurs once.
pub proof fn law_ordered_texts_are_unique(left: Seq<Seq<char>>, right: Seq<Seq<char>>)
    requires
        strictly_ordered(left),
        strictly_ordered(right),
        left.to_set() == right.to_set(),
    ensures
        left == right,
    decreases left.len(),
{
    if left.len() > 0 {
        assert(left.contains(left[left.len() - 1]));
        assert(right.to_set().contains(left.last()));
        lemma_last_of_ordered_texts(left);
        lemma_last_of_ordered_texts(right);
        assert(right.contains(right[right.len() - 1]));
        assert(left.to_set().contains(right.last()));
        law_texts_are_comparable(left.last(), right.last());
        law_ordered_texts_are_unique(left.drop_last(), right.drop_last());
        assert(left =~= left.drop_last().push(left.last()));
        assert(right =~= right.drop_last().push(right.last()));
    } else if right.len() > 0 {
        assert(right.contains(right[0]));
        assert(left.to_set().contains(right[0]));
    }
}

/// The characters of a text.
fn characters(text: &str) -> (characters: Vec<char>)
    ensures
        characters@ == text@,
{
    let mut characters: Vec<char> = Vec::new();
    for character in chars: text.chars()
        invariant
            chars.seq() == text@,
            characters@ == text@.take(chars.index()),
    {
        characters.push(character);
        assert(characters@ =~= text@.take(chars.index() + 1));
    }
    assert(text@.take(text@.len() as int) =~= text@);
    characters
}

/// Whether a text comes before another.
fn precedes(left: &Vec<char>, right: &Vec<char>) -> (less: bool)
    ensures
        less == text_less(left@, right@),
{
    let mut index: usize = 0;
    assert(left@.skip(0) =~= left@);
    assert(right@.skip(0) =~= right@);
    while index < left.len() && index < right.len()
        invariant
            index <= left@.len(),
            index <= right@.len(),
            text_less(left@, right@) == text_less(
                left@.skip(index as int),
                right@.skip(index as int),
            ),
        decreases left@.len() - index,
    {
        assert(left@.skip(index as int)[0] == left@[index as int]);
        assert(right@.skip(index as int)[0] == right@[index as int]);
        if left[index] != right[index] {
            return (left[index] as u32) < (right[index] as u32);
        }
        assert(left@.skip(index as int).skip(1) =~= left@.skip(index + 1));
        assert(right@.skip(index as int).skip(1) =~= right@.skip(index + 1));
        index += 1;
    }
    index < right.len()
}

/// The position of the first text that does not come before a key.
fn place_for(names: &Vec<String>, key: &Vec<char>) -> (position: usize)
    ensures
        position <= names@.len(),
        forall|i: int| 0 <= i < position ==> text_less(#[trigger] texts_of(names@)[i], key@),
        position < names@.len() ==> !text_less(texts_of(names@)[position as int], key@),
{
    let mut position: usize = 0;
    while position < names.len()
        invariant
            position <= names@.len(),
            forall|i: int| 0 <= i < position ==> text_less(#[trigger] texts_of(names@)[i], key@),
        decreases names@.len() - position,
    {
        let other: Vec<char> = characters(names[position].as_str());
        if !precedes(&other, key) {
            return position;
        }
        position += 1;
    }
    position
}

/// Puts a text in its place among ordered ones, unless it is there.
fn insert_text(names: &mut Vec<String>, name: String)
    requires
        strictly_ordered(texts_of(old(names)@)),
    ensures
        strictly_ordered(texts_of(final(names)@)),
        texts_of(final(names)@).to_set() == texts_of(old(names)@).to_set().insert(name@),
{
    let ghost before = texts_of(names@);
    let key: Vec<char> = characters(name.as_str());
    let position: usize = place_for(names, &key);
    if position < names.len() && names[position] == name {
        proof {
            assert(before[position as int] == name@);
            assert(before.to_set().insert(name@) =~= before.to_set());
        }
        return;
    }
    let ghost text = name@;
    names.insert(position, name);
    proof {
        let after = texts_of(names@);
        assert(after =~= before.insert(position as int, text));
        assert forall|i: int| position <= i < before.len() implies text_less(
            text,
            #[trigger] before[i],
        ) by {
            law_texts_are_comparable(before[position as int], text);
            if i > position {
                law_text_order_is_transitive(text, before[position as int], before[i]);
            }
        }
        assert forall|i: int, j: int| 0 <= i < j < after.len() implies text_less(
            #[trigger] after[i],
            #[trigger] after[j],
        ) by {
            let early = if i < position {
                i
            } else {
                i - 1
            };
            let late = if j < position {
                j
            } else {
                j - 1
            };
            if i != position && j != position {
                assert(after[i] == before[early]);
                assert(after[j] == before[late]);
            }
        }
        assert forall|name: Seq<char>| after.contains(name) <==> before.contains(name) || name
            == text by {
            if before.contains(name) {
                let at = choose|at: int| 0 <= at < before.len() && before[at] == name;
                if at < position {
                    assert(after[at] == name);
                } else {
                    assert(after[at + 1] == name);
                }
            }
            if name == text {
                assert(after[position as int] == name);
            }
            if after.contains(name) {
                let at = choose|at: int| 0 <= at < after.len() && after[at] == name;
                if at < position {
                    assert(before[at] == name);
                } else if at > position {
                    assert(before[at - 1] == name);
                }
            }
        }
        assert(after.to_set() =~= before.to_set().insert(text));
    }
}

/// The texts of a list in order, each once.
pub fn ordered_texts(names: Vec<String>) -> (ordered: Vec<String>)
    ensures
        strictly_ordered(texts_of(ordered@)),
        texts_of(ordered@).to_set() == texts_of(names@).to_set(),
{
    let mut ordered: Vec<String> = Vec::new();
    let ghost texts = texts_of(names@);
    assert(texts_of(ordered@).to_set() =~= texts.take(0).to_set());
    let mut index: usize = 0;
    while index < names.len()
        invariant
            texts == texts_of(names@),
            index <= names@.len(),
            strictly_ordered(texts_of(ordered@)),
            texts_of(ordered@).to_set() == texts.take(index as int).to_set(),
        decreases names@.len() - index,
    {
        insert_text(&mut ordered, names[index].clone());
        proof {
            let shorter = texts.take(index as int);
            let longer = texts.take(index + 1);
            assert(longer =~= shorter.push(texts[index as int]));
            assert forall|name: Seq<char>| longer.contains(name) <==> shorter.contains(name) || name
                == texts[index as int] by {
                if shorter.contains(name) {
                    let at = choose|at: int| 0 <= at < shorter.len() && shorter[at] == name;
                    assert(longer[at] == name);
                }
                if name == texts[index as int] {
                    assert(longer[index as int] == name);
                }
            }
            assert(longer.to_set() =~= shorter.to_set().insert(texts[index as int]));
        }
        index += 1;
    }
    assert(texts.take(index as int) =~= texts);
    ordered
}

/// Whether a text comes before another by what is at a place: up to there they are the same, and
/// there it has the character with the smaller number, or ends.
pub open spec fn comes_first_at(left: Seq<char>, right: Seq<char>, at: int) -> bool {
    &&& 0 <= at <= left.len()
    &&& at < right.len()
    &&& forall|earlier: int| 0 <= earlier < at ==> #[trigger] left[earlier] == right[earlier]
    &&& at < left.len() ==> (left[at] as u32) < (right[at] as u32)
}

/// A text comes before another exactly if it does so at the first place where they differ.
pub proof fn law_texts_are_ordered_by_their_first_difference(left: Seq<char>, right: Seq<char>)
    ensures
        text_less(left, right) <==> exists|at: int| #[trigger] comes_first_at(left, right, at),
    decreases left.len(),
{
    if left.len() > 0 && right.len() > 0 && left[0] == right[0] {
        let left_rest = left.skip(1);
        let right_rest = right.skip(1);
        law_texts_are_ordered_by_their_first_difference(left_rest, right_rest);
        if text_less(left, right) {
            let at = choose|at: int| #[trigger] comes_first_at(left_rest, right_rest, at);
            assert forall|earlier: int| 0 <= earlier < at + 1 implies #[trigger] left[earlier]
                == right[earlier] by {
                if earlier > 0 {
                    assert(left_rest[earlier - 1] == right_rest[earlier - 1]);
                }
            }
            assert(comes_first_at(left, right, at + 1));
        }
        if exists|at: int| #[trigger] comes_first_at(left, right, at) {
            let at = choose|at: int| #[trigger] comes_first_at(left, right, at);
            assert(at > 0);
            assert forall|earlier: int| 0 <= earlier < at - 1 implies #[trigger] left_rest[earlier]
                == right_rest[earlier] by {
                assert(left[earlier + 1] == right[earlier + 1]);
            }
            assert(comes_first_at(left_rest, right_rest, at - 1));
        }
    } else if right.len() > 0 {
        if text_less(left, right) {
            assert(comes_first_at(left, right, 0));
        }
        if exists|at: int| #[trigger] comes_first_at(left, right, at) {
            let at = choose|at: int| #[trigger] comes_first_at(left, right, at);
            if at > 0 {
                assert(left[0] == right[0]);
            }
        }
    }
}

/// Of texts in order, an earlier one comes before a later one at the first place where they
/// differ.
pub proof fn law_ordered_texts_ascend(texts: Seq<Seq<char>>, early: int, late: int)
    requires
        strictly_ordered(texts),
        0 <= early < late < texts.len(),
    ensures
        exists|at: int| #[trigger] comes_first_at(texts[early], texts[late], at),
{
    law_texts_are_ordered_by_their_first_difference(texts[early], texts[late]);
}

/// The texts of a list are those of its names, one for one.
pub proof fn law_texts_are_those_of_the_names(names: Seq<String>, at: int)
    requires
        0 <= at < names.len(),
    ensures
        texts_of(names).len() == names.len(),
        texts_of(names)[at] == names[at]@,
{
}

} // verus!
