//! Text offsets across Unicode encodings, and the path of textual input to a view.

use crate::geometry::{Bounds, Pixels, Point};
use std::ops::Range;
use vstd::prelude::*;

verus! {

/// The number of bytes that a character takes in UTF-8.
pub open spec fn utf8_width(character: char) -> nat {
    if (character as u32) < 0x80 {
        1
    } else if (character as u32) < 0x800 {
        2
    } else if (character as u32) < 0x1_0000 {
        3
    } else {
        4
    }
}

/// The number of code units that a character takes in UTF-16.
pub open spec fn utf16_width(character: char) -> nat {
    if (character as u32) < 0x1_0000 {
        1
    } else {
        2
    }
}

/// Where character `index` starts in the UTF-8 encoding.
pub open spec fn utf8_start(text: Seq<char>, index: nat) -> nat
    decreases index,
{
    if index == 0 {
        0
    } else {
        utf8_start(text, (index - 1) as nat) + utf8_width(text[index - 1])
    }
}

/// Where character `index` starts in the UTF-16 encoding.
pub open spec fn utf16_start(text: Seq<char>, index: nat) -> nat
    decreases index,
{
    if index == 0 {
        0
    } else {
        utf16_start(text, (index - 1) as nat) + utf16_width(text[index - 1])
    }
}

/// The first character, from `index` on, that does not start before the UTF-8 offset.
pub open spec fn utf8_snapped(text: Seq<char>, offset: int, index: nat) -> nat
    decreases text.len() - index,
{
    if index >= text.len() || utf8_start(text, index) >= offset {
        index
    } else {
        utf8_snapped(text, offset, index + 1)
    }
}

/// The first character, from `index` on, that does not start before the UTF-16 offset.
pub open spec fn utf16_snapped(text: Seq<char>, offset: int, index: nat) -> nat
    decreases text.len() - index,
{
    if index >= text.len() || utf16_start(text, index) >= offset {
        index
    } else {
        utf16_snapped(text, offset, index + 1)
    }
}

/// The UTF-16 offset of the first character boundary at or behind a UTF-8 offset.
pub open spec fn utf16_offset_of(text: Seq<char>, utf8_offset: int) -> nat {
    utf16_start(text, utf8_snapped(text, utf8_offset, 0))
}

/// The UTF-8 offset of the first character boundary at or behind a UTF-16 offset.
pub open spec fn utf8_offset_of(text: Seq<char>, utf16_offset: int) -> nat {
    utf8_start(text, utf16_snapped(text, utf16_offset, 0))
}

/// The encoding of `text` has as many bytes as its characters take.
proof fn lemma_encoded_len(text: Seq<char>)
    ensures
        vstd::utf8::encode_utf8(text).len() == utf8_start(text, text.len()),
    decreases text.len(),
{
    if text.len() > 0 {
        let rest = text.drop_first();
        lemma_encoded_len(rest);
        vstd::utf8::char_is_scalar(text[0]);
        lemma_utf8_start_shifts(text, rest.len());
    }
}

/// Positions behind the first character are those of the rest, moved by its width.
proof fn lemma_utf8_start_shifts(text: Seq<char>, index: nat)
    requires
        text.len() > 0,
        index < text.len(),
    ensures
        utf8_start(text, index + 1) == utf8_width(text[0]) + utf8_start(text.drop_first(), index),
    decreases index,
{
    if index > 0 {
        lemma_utf8_start_shifts(text, (index - 1) as nat);
        assert(text.drop_first()[index - 1] == text[index as int]);
    } else {
        assert(utf8_start(text, 1) == utf8_start(text, 0) + utf8_width(text[0]));
    }
}

/// Starts grow with the index, and no character is longer in UTF-16 than in UTF-8.
proof fn lemma_starts_grow(text: Seq<char>, early: nat, late: nat)
    requires
        early <= late,
    ensures
        utf8_start(text, early) + (late - early) <= utf8_start(text, late),
        utf16_start(text, early) + (late - early) <= utf16_start(text, late),
        utf16_start(text, late) - utf16_start(text, early) <= utf8_start(text, late) - utf8_start(
            text,
            early,
        ),
    decreases late,
{
    if early < late {
        lemma_starts_grow(text, early, (late - 1) as nat);
    }
}

/// Converts a UTF-8 byte offset into a UTF-16 code-unit offset.
///
/// Offsets past the end of `text` clamp to its UTF-16 length. An offset inside a UTF-8
/// character snaps to the end of that character.
pub fn utf8_to_utf16_offset(text: &str, utf8_offset: usize) -> (utf16_offset: usize)
    ensures
        utf16_offset == utf16_offset_of(text@, utf8_offset as int),
{
    let len: usize = text.as_bytes().len();
    proof {
        lemma_encoded_len(text@);
    }
    let mut utf8: usize = 0;
    let mut utf16: usize = 0;
    for character in chars: text.chars()
        invariant
            len == utf8_start(text@, text@.len()),
            chars.seq() == text@,
            utf8 == utf8_start(text@, chars.index() as nat),
            utf16 == utf16_start(text@, chars.index() as nat),
            utf8_snapped(text@, utf8_offset as int, 0) == utf8_snapped(
                text@,
                utf8_offset as int,
                chars.index() as nat,
            ),
    {
        if utf8 >= utf8_offset {
            return utf16;
        }
        proof {
            lemma_starts_grow(text@, (chars.index() + 1) as nat, text@.len());
            lemma_starts_grow(text@, 0, (chars.index() + 1) as nat);
        }
        utf8 += utf8_len(character);
        utf16 += utf16_len(character);
    }
    utf16
}

/// Converts a UTF-16 code-unit offset into a UTF-8 byte offset.
///
/// Offsets past the end of `text` clamp to its UTF-8 length. An offset inside a surrogate pair
/// snaps to the end of the corresponding character.
pub fn utf16_to_utf8_offset(text: &str, utf16_offset: usize) -> (utf8_offset: usize)
    ensures
        utf8_offset == utf8_offset_of(text@, utf16_offset as int),
{
    let len: usize = text.as_bytes().len();
    proof {
        lemma_encoded_len(text@);
    }
    let mut utf8: usize = 0;
    let mut utf16: usize = 0;
    for character in chars: text.chars()
        invariant
            len == utf8_start(text@, text@.len()),
            chars.seq() == text@,
            utf8 == utf8_start(text@, chars.index() as nat),
            utf16 == utf16_start(text@, chars.index() as nat),
            utf16_snapped(text@, utf16_offset as int, 0) == utf16_snapped(
                text@,
                utf16_offset as int,
                chars.index() as nat,
            ),
    {
        if utf16 >= utf16_offset {
            return utf8;
        }
        proof {
            lemma_starts_grow(text@, (chars.index() + 1) as nat, text@.len());
            lemma_starts_grow(text@, 0, (chars.index() + 1) as nat);
        }
        utf8 += utf8_len(character);
        utf16 += utf16_len(character);
    }
    len
}

/// The number of bytes that a character takes in UTF-8.
fn utf8_len(character: char) -> (len: usize)
    ensures
        len == utf8_width(character),
{
    let scalar: u32 = character as u32;
    if scalar < 0x80 {
        1
    } else if scalar < 0x800 {
        2
    } else if scalar < 0x1_0000 {
        3
    } else {
        4
    }
}

/// The number of code units that a character takes in UTF-16.
fn utf16_len(character: char) -> (len: usize)
    ensures
        len == utf16_width(character),
{
    if (character as u32) < 0x1_0000 {
        1
    } else {
        2
    }
}

/// A snapped UTF-8 offset names the first boundary that does not lie before it.
proof fn lemma_utf8_snapped(text: Seq<char>, offset: int, index: nat)
    requires
        index <= text.len(),
    ensures
        ({
            let snapped = utf8_snapped(text, offset, index);
            &&& index <= snapped <= text.len()
            &&& snapped == text.len() || utf8_start(text, snapped) >= offset
            &&& snapped == index || utf8_start(text, (snapped - 1) as nat) < offset
        }),
    decreases text.len() - index,
{
    if index < text.len() && utf8_start(text, index) < offset {
        lemma_utf8_snapped(text, offset, index + 1);
    }
}

/// A snapped UTF-16 offset names the first boundary that does not lie before it.
proof fn lemma_utf16_snapped(text: Seq<char>, offset: int, index: nat)
    requires
        index <= text.len(),
    ensures
        ({
            let snapped = utf16_snapped(text, offset, index);
            &&& index <= snapped <= text.len()
            &&& snapped == text.len() || utf16_start(text, snapped) >= offset
            &&& snapped == index || utf16_start(text, (snapped - 1) as nat) < offset
        }),
    decreases text.len() - index,
{
    if index < text.len() && utf16_start(text, index) < offset {
        lemma_utf16_snapped(text, offset, index + 1);
    }
}

/// A boundary snaps to itself in both encodings.
proof fn lemma_boundary_snaps_to_itself(text: Seq<char>, index: nat)
    requires
        index <= text.len(),
    ensures
        utf8_snapped(text, utf8_start(text, index) as int, 0) == index,
        utf16_snapped(text, utf16_start(text, index) as int, 0) == index,
{
    let utf8 = utf8_snapped(text, utf8_start(text, index) as int, 0);
    let utf16 = utf16_snapped(text, utf16_start(text, index) as int, 0);
    lemma_utf8_snapped(text, utf8_start(text, index) as int, 0);
    lemma_utf16_snapped(text, utf16_start(text, index) as int, 0);
    if utf8 > index {
        lemma_starts_grow(text, index, (utf8 - 1) as nat);
    } else if utf8 < index {
        lemma_starts_grow(text, utf8, index);
    }
    if utf16 > index {
        lemma_starts_grow(text, index, (utf16 - 1) as nat);
    } else if utf16 < index {
        lemma_starts_grow(text, utf16, index);
    }
}

/// On character boundaries the two conversions are inverse to each other.
pub proof fn law_offsets_round_trip(text: Seq<char>, index: nat)
    requires
        index <= text.len(),
    ensures
        utf16_offset_of(text, utf8_start(text, index) as int) == utf16_start(text, index),
        utf8_offset_of(text, utf16_start(text, index) as int) == utf8_start(text, index),
{
    lemma_boundary_snaps_to_itself(text, index);
}

/// Going to UTF-16 and back gives the end of the character that the offset lies in: the first
/// boundary that does not lie before the offset, or the end of the text.
pub proof fn law_utf8_offset_snaps_forward(text: Seq<char>, offset: int)
    ensures
        ({
            let snapped = utf8_offset_of(text, utf16_offset_of(text, offset) as int);
            &&& exists|index: nat| index <= text.len() && snapped == #[trigger] utf8_start(text, index)
            &&& offset <= snapped || snapped == utf8_start(text, text.len())
            &&& forall|index: nat|
                index <= text.len() && #[trigger] utf8_start(text, index) >= offset ==> snapped
                    <= utf8_start(text, index)
        }),
{
    lemma_utf8_snapped(text, offset, 0);
    let index = utf8_snapped(text, offset, 0);
    lemma_boundary_snaps_to_itself(text, index);
    assert forall|other: nat|
        other <= text.len() && #[trigger] utf8_start(text, other) >= offset implies utf8_start(
        text,
        index,
    ) <= utf8_start(text, other) by {
        if other < index {
            lemma_starts_grow(text, other, (index - 1) as nat);
        } else {
            lemma_starts_grow(text, index, other);
        }
    }
}

/// Going to UTF-8 and back gives the end of the surrogate pair that the offset lies in: the first
/// boundary that does not lie before the offset, or the end of the text.
pub proof fn law_utf16_offset_snaps_forward(text: Seq<char>, offset: int)
    ensures
        ({
            let snapped = utf16_offset_of(text, utf8_offset_of(text, offset) as int);
            &&& exists|index: nat| index <= text.len() && snapped == #[trigger] utf16_start(text, index)
            &&& offset <= snapped || snapped == utf16_start(text, text.len())
            &&& forall|index: nat|
                index <= text.len() && #[trigger] utf16_start(text, index) >= offset ==> snapped
                    <= utf16_start(text, index)
        }),
{
    lemma_utf16_snapped(text, offset, 0);
    let index = utf16_snapped(text, offset, 0);
    lemma_boundary_snaps_to_itself(text, index);
    assert forall|other: nat|
        other <= text.len() && #[trigger] utf16_start(text, other) >= offset implies utf16_start(
        text,
        index,
    ) <= utf16_start(text, other) by {
        if other < index {
            lemma_starts_grow(text, other, (index - 1) as nat);
        } else {
            lemma_starts_grow(text, index, other);
        }
    }
}

/// An offset at or past the end of the text clamps to the text's length.
pub proof fn law_offsets_clamp(text: Seq<char>, offset: int)
    ensures
        offset >= utf8_start(text, text.len()) ==> utf16_offset_of(text, offset) == utf16_start(
            text,
            text.len(),
        ),
        offset >= utf16_start(text, text.len()) ==> utf8_offset_of(text, offset) == utf8_start(
            text,
            text.len(),
        ),
{
    lemma_utf8_snapped(text, offset, 0);
    lemma_utf16_snapped(text, offset, 0);
    let utf8 = utf8_snapped(text, offset, 0);
    let utf16 = utf16_snapped(text, offset, 0);
    lemma_starts_grow(text, utf8, text.len());
    lemma_starts_grow(text, utf16, text.len());
}

/// A later offset never converts to an earlier one.
pub proof fn law_offsets_are_monotone(text: Seq<char>, early: int, late: int)
    requires
        early <= late,
    ensures
        utf16_offset_of(text, early) <= utf16_offset_of(text, late),
        utf8_offset_of(text, early) <= utf8_offset_of(text, late),
{
    lemma_utf8_snapped(text, early, 0);
    lemma_utf8_snapped(text, late, 0);
    lemma_utf16_snapped(text, early, 0);
    lemma_utf16_snapped(text, late, 0);
    let early8 = utf8_snapped(text, early, 0);
    let late8 = utf8_snapped(text, late, 0);
    let early16 = utf16_snapped(text, early, 0);
    let late16 = utf16_snapped(text, late, 0);
    if late8 < early8 {
        lemma_starts_grow(text, late8, (early8 - 1) as nat);
    } else {
        lemma_starts_grow(text, early8, late8);
    }
    if late16 < early16 {
        lemma_starts_grow(text, late16, (early16 - 1) as nat);
    } else {
        lemma_starts_grow(text, early16, late16);
    }
}

/// Where a character starts, the encoded text has a character boundary.
proof fn lemma_starts_are_boundaries(text: Seq<char>, index: nat)
    requires
        index <= text.len(),
    ensures
        vstd::utf8::is_char_boundary(
            vstd::utf8::encode_utf8(text),
            utf8_start(text, index) as int,
        ),
    decreases text.len(),
{
    let bytes = vstd::utf8::encode_utf8(text);
    vstd::utf8::encode_utf8_valid_utf8(text);
    if index > 0 {
        let rest = text.drop_first();
        vstd::utf8::encode_utf8_first_scalar(text);
        vstd::utf8::char_is_scalar(text[0]);
        lemma_starts_are_boundaries(rest, (index - 1) as nat);
        lemma_utf8_start_shifts(text, (index - 1) as nat);
        lemma_encoded_len(text);
        lemma_starts_grow(text, index, text.len());
        assert(vstd::utf8::pop_first_scalar(bytes) =~= vstd::utf8::encode_utf8(rest));
        lemma_starts_grow(text, 0, index);
    }
}

/// Every UTF-8 offset that a conversion returns is a character boundary of the encoded text.
pub proof fn law_utf8_offsets_are_boundaries(text: Seq<char>, utf16_offset: int)
    ensures
        vstd::utf8::is_char_boundary(
            vstd::utf8::encode_utf8(text),
            utf8_offset_of(text, utf16_offset) as int,
        ),
{
    lemma_utf16_snapped(text, utf16_offset, 0);
    lemma_starts_are_boundaries(text, utf16_snapped(text, utf16_offset, 0));
}

/// A selection of text, in UTF-16 code units.
#[derive(Debug, PartialEq, Eq)]
pub struct UTF16Selection {
    /// The selected range.
    pub range: Range<usize>,
    /// Whether the selection's head is its start.
    pub reversed: bool,
}

impl Clone for UTF16Selection {
    fn clone(&self) -> (selection: Self)
        ensures
            selection == *self,
    {
        UTF16Selection { range: self.range.start..self.range.end, reversed: self.reversed }
    }
}

/// Implement this trait to allow views to handle textual input when implementing an editor,
/// field, etc.
///
/// Once your view implements this trait, you can use it to construct an
/// [`ElementInputHandler`].
pub trait EntityInputHandler: Sized {
    /// The window that the view is shown in.
    type Window;

    /// What the view needs of the application.
    type Context;

    /// The text in a range of UTF-16 code units; `adjusted_range` receives the range it covers.
    fn text_for_range(
        &mut self,
        range: Range<usize>,
        adjusted_range: &mut Option<Range<usize>>,
        window: &mut Self::Window,
        cx: &mut Self::Context,
    ) -> Option<String>;

    /// The selected range, in UTF-16 code units.
    fn selected_text_range(
        &mut self,
        ignore_disabled_input: bool,
        window: &mut Self::Window,
        cx: &mut Self::Context,
    ) -> Option<UTF16Selection>;

    /// The range that the input method is composing, in UTF-16 code units.
    fn marked_text_range(
        &self,
        window: &mut Self::Window,
        cx: &mut Self::Context,
    ) -> Option<Range<usize>>;

    /// Ends the composition of the marked text.
    fn unmark_text(
        &mut self,
        window: &mut Self::Window,
        cx: &mut Self::Context,
    );

    /// Replaces a range of text, or the selection.
    fn replace_text_in_range(
        &mut self,
        range: Option<Range<usize>>,
        text: &str,
        window: &mut Self::Window,
        cx: &mut Self::Context,
    );

    /// Replaces a range of text, marks what was put in, and selects a part of it.
    fn replace_and_mark_text_in_range(
        &mut self,
        range: Option<Range<usize>>,
        new_text: &str,
        new_selected_range: Option<Range<usize>>,
        window: &mut Self::Window,
        cx: &mut Self::Context,
    );

    /// Where a range of text lies on the screen.
    fn bounds_for_range(
        &mut self,
        range_utf16: Range<usize>,
        element_bounds: Bounds<Pixels>,
        window: &mut Self::Window,
        cx: &mut Self::Context,
    ) -> Option<Bounds<Pixels>>;

    /// The UTF-16 index of the character at a point.
    fn character_index_for_point(
        &mut self,
        point: Point<Pixels>,
        window: &mut Self::Window,
        cx: &mut Self::Context,
    ) -> Option<usize>;

    /// Selects a range, in UTF-16 code units. Does nothing unless a view overrides it.
    fn set_selected_text_range(
        &mut self,
        _range_utf16: Range<usize>,
        _window: &mut Self::Window,
        _cx: &mut Self::Context,
    )
        default_ensures
            *final(self) == *old(self),
            *final(_window) == *old(_window),
            *final(_cx) == *old(_cx),
    {
    }

    /// The length of the text in UTF-16 code units, if the view tells.
    fn text_length_utf16(
        &mut self,
        _window: &mut Self::Window,
        _cx: &mut Self::Context,
    ) -> (result: Option<usize>)
        default_ensures
            result is None,
            *final(self) == *old(self),
            *final(_window) == *old(_window),
            *final(_cx) == *old(_cx),
    {
        None
    }

    /// Whether the view accepts text input now.
    fn accepts_text_input(
        &self,
        _window: &mut Self::Window,
        _cx: &mut Self::Context,
    ) -> (result: bool)
        default_ensures
            result,
            *final(_window) == *old(_window),
            *final(_cx) == *old(_cx),
    {
        true
    }
}

/// Hands a platform's input events to a view. The view decides; this handler adds the bounds of
/// the element that the view is painted in.
pub struct ElementInputHandler<V> {
    view: V,
    element_bounds: Bounds<Pixels>,
}

impl<V> ElementInputHandler<V> {
    /// The view that handles the input.
    pub closed spec fn view_spec(&self) -> V {
        self.view
    }

    /// The bounds of the element that the view is painted in.
    pub closed spec fn bounds_spec(&self) -> Bounds<Pixels> {
        self.element_bounds
    }

    /// A handler for the view that is painted in an element with these bounds.
    pub fn new(element_bounds: Bounds<Pixels>, view: V) -> (handler: Self)
        ensures
            handler.view_spec() == view,
            handler.bounds_spec() == element_bounds,
    {
        ElementInputHandler { view, element_bounds }
    }

    /// The view that handles the input.
    pub fn into_view(self) -> (view: V)
        ensures
            view == self.view_spec(),
    {
        self.view
    }
}

impl<V: EntityInputHandler> ElementInputHandler<V> {
    /// Asks the view: the text in a range of UTF-16 code units; `adjusted_range` receives
    /// the range it covers.
    pub fn text_for_range(
        &mut self,
        range: Range<usize>,
        adjusted_range: &mut Option<Range<usize>>,
        window: &mut V::Window,
        cx: &mut V::Context,
    ) -> (result: Option<String>)
        ensures
            exists|view: &mut V, adjusted: &mut Option<Range<usize>>, w: &mut V::Window, c: &mut V::Context|
                #[trigger] call_ensures(
                    V::text_for_range,
                    (view, range, adjusted, w, c),
                    result,
                )
                    && *view == old(self).view_spec()
                    && *final(view) == final(self).view_spec()
                    && *adjusted == *old(adjusted_range)
                    && *final(adjusted) == *final(adjusted_range)
                    && *w == *old(window)
                    && *final(w) == *final(window)
                    && *c == *old(cx)
                    && *final(c) == *final(cx),
            final(self).bounds_spec() == old(self).bounds_spec(),
    {
        self.view.text_for_range(range, adjusted_range, window, cx)
    }

    /// Asks the view: the selected range, in UTF-16 code units.
    pub fn selected_text_range(
        &mut self,
        ignore_disabled_input: bool,
        window: &mut V::Window,
        cx: &mut V::Context,
    ) -> (result: Option<UTF16Selection>)
        ensures
            exists|view: &mut V, w: &mut V::Window, c: &mut V::Context|
                #[trigger] call_ensures(
                    V::selected_text_range,
                    (view, ignore_disabled_input, w, c),
                    result,
                )
                    && *view == old(self).view_spec()
                    && *final(view) == final(self).view_spec()
                    && *w == *old(window)
                    && *final(w) == *final(window)
                    && *c == *old(cx)
                    && *final(c) == *final(cx),
            final(self).bounds_spec() == old(self).bounds_spec(),
    {
        self.view.selected_text_range(ignore_disabled_input, window, cx)
    }

    /// Asks the view: the range that the input method is composing, in UTF-16 code units.
    pub fn marked_text_range(
        &mut self,
        window: &mut V::Window,
        cx: &mut V::Context,
    ) -> (result: Option<Range<usize>>)
        ensures
            exists|view: &V, w: &mut V::Window, c: &mut V::Context|
                #[trigger] call_ensures(
                    V::marked_text_range,
                    (view, w, c),
                    result,
                )
                    && *view == old(self).view_spec()
                    && *w == *old(window)
                    && *final(w) == *final(window)
                    && *c == *old(cx)
                    && *final(c) == *final(cx),
            final(self).view_spec() == old(self).view_spec(),
            final(self).bounds_spec() == old(self).bounds_spec(),
    {
        self.view.marked_text_range(window, cx)
    }

    /// Asks the view: ends the composition of the marked text.
    pub fn unmark_text(
        &mut self,
        window: &mut V::Window,
        cx: &mut V::Context,
    ) -> (result: ())
        ensures
            exists|view: &mut V, w: &mut V::Window, c: &mut V::Context|
                #[trigger] call_ensures(
                    V::unmark_text,
                    (view, w, c),
                    result,
                )
                    && *view == old(self).view_spec()
                    && *final(view) == final(self).view_spec()
                    && *w == *old(window)
                    && *final(w) == *final(window)
                    && *c == *old(cx)
                    && *final(c) == *final(cx),
            final(self).bounds_spec() == old(self).bounds_spec(),
    {
        self.view.unmark_text(window, cx)
    }

    /// Asks the view: replaces a range of text, or the selection.
    pub fn replace_text_in_range(
        &mut self,
        range: Option<Range<usize>>,
        text: &str,
        window: &mut V::Window,
        cx: &mut V::Context,
    ) -> (result: ())
        ensures
            exists|view: &mut V, w: &mut V::Window, c: &mut V::Context|
                #[trigger] call_ensures(
                    V::replace_text_in_range,
                    (view, range, text, w, c),
                    result,
                )
                    && *view == old(self).view_spec()
                    && *final(view) == final(self).view_spec()
                    && *w == *old(window)
                    && *final(w) == *final(window)
                    && *c == *old(cx)
                    && *final(c) == *final(cx),
            final(self).bounds_spec() == old(self).bounds_spec(),
    {
        self.view.replace_text_in_range(range, text, window, cx)
    }

    /// Asks the view: replaces a range of text, marks what was put in, and selects a part
    /// of it.
    pub fn replace_and_mark_text_in_range(
        &mut self,
        range: Option<Range<usize>>,
        new_text: &str,
        new_selected_range: Option<Range<usize>>,
        window: &mut V::Window,
        cx: &mut V::Context,
    ) -> (result: ())
        ensures
            exists|view: &mut V, w: &mut V::Window, c: &mut V::Context|
                #[trigger] call_ensures(
                    V::replace_and_mark_text_in_range,
                    (view, range, new_text, new_selected_range, w, c),
                    result,
                )
                    && *view == old(self).view_spec()
                    && *final(view) == final(self).view_spec()
                    && *w == *old(window)
                    && *final(w) == *final(window)
                    && *c == *old(cx)
                    && *final(c) == *final(cx),
            final(self).bounds_spec() == old(self).bounds_spec(),
    {
        self.view.replace_and_mark_text_in_range(range, new_text, new_selected_range, window, cx)
    }

    /// Asks the view: where a range of text lies on the screen.
    pub fn bounds_for_range(
        &mut self,
        range_utf16: Range<usize>,
        window: &mut V::Window,
        cx: &mut V::Context,
    ) -> (result: Option<Bounds<Pixels>>)
        ensures
            exists|view: &mut V, w: &mut V::Window, c: &mut V::Context|
                #[trigger] call_ensures(
                    V::bounds_for_range,
                    (view, range_utf16, old(self).bounds_spec(), w, c),
                    result,
                )
                    && *view == old(self).view_spec()
                    && *final(view) == final(self).view_spec()
                    && *w == *old(window)
                    && *final(w) == *final(window)
                    && *c == *old(cx)
                    && *final(c) == *final(cx),
            final(self).bounds_spec() == old(self).bounds_spec(),
    {
        self.view.bounds_for_range(range_utf16, self.element_bounds, window, cx)
    }

    /// Asks the view: the UTF-16 index of the character at a point.
    pub fn character_index_for_point(
        &mut self,
        point: Point<Pixels>,
        window: &mut V::Window,
        cx: &mut V::Context,
    ) -> (result: Option<usize>)
        ensures
            exists|view: &mut V, w: &mut V::Window, c: &mut V::Context|
                #[trigger] call_ensures(
                    V::character_index_for_point,
                    (view, point, w, c),
                    result,
                )
                    && *view == old(self).view_spec()
                    && *final(view) == final(self).view_spec()
                    && *w == *old(window)
                    && *final(w) == *final(window)
                    && *c == *old(cx)
                    && *final(c) == *final(cx),
            final(self).bounds_spec() == old(self).bounds_spec(),
    {
        self.view.character_index_for_point(point, window, cx)
    }

    /// Asks the view: selects a range, in UTF-16 code units.
    pub fn set_selected_text_range(
        &mut self,
        range_utf16: Range<usize>,
        window: &mut V::Window,
        cx: &mut V::Context,
    ) -> (result: ())
        ensures
            exists|view: &mut V, w: &mut V::Window, c: &mut V::Context|
                #[trigger] call_ensures(
                    V::set_selected_text_range,
                    (view, range_utf16, w, c),
                    result,
                )
                    && *view == old(self).view_spec()
                    && *final(view) == final(self).view_spec()
                    && *w == *old(window)
                    && *final(w) == *final(window)
                    && *c == *old(cx)
                    && *final(c) == *final(cx),
            final(self).bounds_spec() == old(self).bounds_spec(),
    {
        self.view.set_selected_text_range(range_utf16, window, cx)
    }

    /// Asks the view: the length of the text in UTF-16 code units, if the view tells.
    pub fn text_length_utf16(
        &mut self,
        window: &mut V::Window,
        cx: &mut V::Context,
    ) -> (result: Option<usize>)
        ensures
            exists|view: &mut V, w: &mut V::Window, c: &mut V::Context|
                #[trigger] call_ensures(
                    V::text_length_utf16,
                    (view, w, c),
                    result,
                )
                    && *view == old(self).view_spec()
                    && *final(view) == final(self).view_spec()
                    && *w == *old(window)
                    && *final(w) == *final(window)
                    && *c == *old(cx)
                    && *final(c) == *final(cx),
            final(self).bounds_spec() == old(self).bounds_spec(),
    {
        self.view.text_length_utf16(window, cx)
    }

    /// Asks the view: whether the view accepts text input now.
    pub fn accepts_text_input(
        &mut self,
        window: &mut V::Window,
        cx: &mut V::Context,
    ) -> (result: bool)
        ensures
            exists|view: &V, w: &mut V::Window, c: &mut V::Context|
                #[trigger] call_ensures(
                    V::accepts_text_input,
                    (view, w, c),
                    result,
                )
                    && *view == old(self).view_spec()
                    && *w == *old(window)
                    && *final(w) == *final(window)
                    && *c == *old(cx)
                    && *final(c) == *final(cx),
            final(self).view_spec() == old(self).view_spec(),
            final(self).bounds_spec() == old(self).bounds_spec(),
    {
        self.view.accepts_text_input(window, cx)
    }

    /// Asks the view: whether printable keys go to the input method first: where the view
    /// accepts text input.
    pub fn prefers_ime_for_printable_keys(
        &mut self,
        window: &mut V::Window,
        cx: &mut V::Context,
    ) -> (result: bool)
        ensures
            exists|view: &V, w: &mut V::Window, c: &mut V::Context|
                #[trigger] call_ensures(
                    V::accepts_text_input,
                    (view, w, c),
                    result,
                )
                    && *view == old(self).view_spec()
                    && *w == *old(window)
                    && *final(w) == *final(window)
                    && *c == *old(cx)
                    && *final(c) == *final(cx),
            final(self).view_spec() == old(self).view_spec(),
            final(self).bounds_spec() == old(self).bounds_spec(),
    {
        self.view.accepts_text_input(window, cx)
    }

    /// The bounds of the element that the view is painted in.
    pub fn element_bounds(
        &mut self,
        _window: &mut V::Window,
        _cx: &mut V::Context,
    ) -> (bounds: Option<Bounds<Pixels>>)
        ensures
            bounds == Some(old(self).bounds_spec()),
            *final(self) == *old(self),
            *final(_window) == *old(_window),
            *final(_cx) == *old(_cx),
    {
        Some(self.element_bounds)
    }
}

/// A character takes one to four bytes in UTF-8, and two code units in UTF-16 exactly if it lies
/// beyond the first plane.
pub proof fn law_widths_of_characters(character: char)
    ensures
        ({
            let number = character as u32;
            &&& number <= 0x7f <==> utf8_width(character) == 1
            &&& 0x80 <= number <= 0x7ff <==> utf8_width(character) == 2
            &&& 0x800 <= number <= 0xffff <==> utf8_width(character) == 3
            &&& 0x1_0000 <= number <==> utf8_width(character) == 4
            &&& number <= 0xffff <==> utf16_width(character) == 1
            &&& 0x1_0000 <= number <==> utf16_width(character) == 2
        }),
{
}

/// The first character starts at zero in both encodings, and another where the one before it
/// ends.
pub proof fn law_characters_start_where_others_end(text: Seq<char>, index: nat)
    requires
        index < text.len(),
    ensures
        utf8_start(text, 0) == 0,
        utf16_start(text, 0) == 0,
        ({
            let number = text[index as int] as u32;
            &&& utf8_start(text, index + 1) - utf8_start(text, index) == if number <= 0x7f {
                1int
            } else if number <= 0x7ff {
                2
            } else if number <= 0xffff {
                3
            } else {
                4
            }
            &&& utf16_start(text, index + 1) - utf16_start(text, index) == if number <= 0xffff {
                1int
            } else {
                2
            }
        }),
{
}

/// An offset inside a character, or at its end, converts to the end of that character, and one at
/// the start of the text to the start.
pub proof fn law_offsets_inside_characters_convert_to_their_end(
    text: Seq<char>,
    index: nat,
    offset: int,
)
    requires
        index < text.len(),
    ensures
        utf8_start(text, index) < offset <= utf8_start(text, index + 1) ==> utf16_offset_of(
            text,
            offset,
        ) == utf16_start(text, index + 1),
        utf16_start(text, index) < offset <= utf16_start(text, index + 1) ==> utf8_offset_of(
            text,
            offset,
        ) == utf8_start(text, index + 1),
        offset <= 0 ==> utf16_offset_of(text, offset) == 0 && utf8_offset_of(text, offset) == 0,
{
    lemma_utf8_snapped(text, offset, 0);
    lemma_utf16_snapped(text, offset, 0);
    let utf8 = utf8_snapped(text, offset, 0);
    let utf16 = utf16_snapped(text, offset, 0);
    if utf8_start(text, index) < offset <= utf8_start(text, index + 1) {
        if utf8 <= index {
            lemma_starts_grow(text, utf8, index);
        } else if utf8 > index + 1 {
            lemma_starts_grow(text, index + 1, (utf8 - 1) as nat);
        }
    }
    if utf16_start(text, index) < offset <= utf16_start(text, index + 1) {
        if utf16 <= index {
            lemma_starts_grow(text, utf16, index);
        } else if utf16 > index + 1 {
            lemma_starts_grow(text, index + 1, (utf16 - 1) as nat);
        }
    }
}

} // verus!
