use gpui_text::geometry::{Bounds, Pixels, Point, Size};
use gpui_text::input::{
    utf16_to_utf8_offset, utf8_to_utf16_offset, ElementInputHandler, EntityInputHandler,
    UTF16Selection,
};
use gpui_text::scalar::Scalar;
use std::ops::Range;

#[test]
fn text_offsets_convert_across_unicode_encodings() {
    let cases = [
        ("", vec![(0, 0)]),
        ("plain", vec![(0, 0), (1, 1), (5, 5)]),
        (
            "A😀日本e\u{301}",
            vec![(0, 0), (1, 1), (5, 3), (8, 4), (11, 5), (12, 6), (14, 7)],
        ),
    ];

    for (text, boundaries) in cases {
        for (utf8, utf16) in boundaries {
            assert_eq!(utf8_to_utf16_offset(text, utf8), utf16, "{text:?}");
            assert_eq!(utf16_to_utf8_offset(text, utf16), utf8, "{text:?}");
        }

        assert_eq!(
            utf8_to_utf16_offset(text, usize::MAX),
            text.encode_utf16().count()
        );
        assert_eq!(utf16_to_utf8_offset(text, usize::MAX), text.len());
    }

    let text = "A😀B";
    assert_eq!(utf16_to_utf8_offset(text, 2), 5);
    assert_eq!(utf8_to_utf16_offset(text, 2), 3);
}

#[test]
fn offsets_inside_a_character_move_to_its_end() {
    let text = "é😀";
    assert_eq!(utf8_to_utf16_offset(text, 1), 1);
    assert_eq!(utf8_to_utf16_offset(text, 3), 3);
    assert_eq!(utf16_to_utf8_offset(text, 2), 6);
    // Converting there and back never moves backwards, and rests on boundaries.
    for utf8 in 0..=text.len() + 1 {
        let back = utf16_to_utf8_offset(text, utf8_to_utf16_offset(text, utf8));
        assert!(back >= utf8.min(text.len()));
        assert!(text.is_char_boundary(back));
        assert!(!text.is_char_boundary(utf8) || back == utf8);
    }
}

struct Field {
    text: String,
    marked: Option<Range<usize>>,
}

impl EntityInputHandler for Field {
    type Window = u32;
    type Context = Vec<String>;

    fn text_for_range(
        &mut self,
        range: Range<usize>,
        adjusted_range: &mut Option<Range<usize>>,
        window: &mut u32,
        cx: &mut Vec<String>,
    ) -> Option<String> {
        *window += 1;
        cx.push("text".to_owned());
        *adjusted_range = Some(range.clone());
        self.text.get(range).map(str::to_owned)
    }

    fn selected_text_range(
        &mut self,
        ignore_disabled_input: bool,
        _window: &mut u32,
        _cx: &mut Vec<String>,
    ) -> Option<UTF16Selection> {
        Some(UTF16Selection { range: 0..self.text.len(), reversed: ignore_disabled_input })
    }

    fn marked_text_range(&self, _window: &mut u32, _cx: &mut Vec<String>) -> Option<Range<usize>> {
        self.marked.clone()
    }

    fn unmark_text(&mut self, _window: &mut u32, _cx: &mut Vec<String>) {
        self.marked = None;
    }

    fn replace_text_in_range(
        &mut self,
        range: Option<Range<usize>>,
        text: &str,
        _window: &mut u32,
        _cx: &mut Vec<String>,
    ) {
        let range = range.unwrap_or(0..self.text.len());
        self.text.replace_range(range, text);
    }

    fn replace_and_mark_text_in_range(
        &mut self,
        range: Option<Range<usize>>,
        new_text: &str,
        new_selected_range: Option<Range<usize>>,
        _window: &mut u32,
        _cx: &mut Vec<String>,
    ) {
        let range = range.unwrap_or(0..self.text.len());
        self.text.replace_range(range, new_text);
        self.marked = new_selected_range;
    }

    fn bounds_for_range(
        &mut self,
        _range_utf16: Range<usize>,
        element_bounds: Bounds<Pixels>,
        _window: &mut u32,
        _cx: &mut Vec<String>,
    ) -> Option<Bounds<Pixels>> {
        Some(element_bounds)
    }

    fn character_index_for_point(
        &mut self,
        _point: Point<Pixels>,
        _window: &mut u32,
        _cx: &mut Vec<String>,
    ) -> Option<usize> {
        Some(2)
    }
}

fn pixels(value: f32) -> Pixels {
    Pixels(Scalar { bits: value.to_bits() })
}

#[test]
fn input_is_handed_on_to_the_view() {
    let bounds = Bounds {
        origin: Point { x: pixels(1.0), y: pixels(2.0) },
        size: Size { width: pixels(3.0), height: pixels(4.0) },
    };
    let view = Field { text: "hello".to_owned(), marked: None };
    let mut handler = ElementInputHandler::new(bounds, view);
    let (mut window, mut cx) = (0, Vec::new());

    let mut adjusted = None;
    assert_eq!(
        handler.text_for_range(1..3, &mut adjusted, &mut window, &mut cx),
        Some("el".to_owned())
    );
    assert_eq!(adjusted, Some(1..3));
    assert_eq!((window, cx.len()), (1, 1));

    let selection = handler.selected_text_range(true, &mut window, &mut cx).unwrap();
    assert_eq!((selection.range.clone(), selection.reversed), (0..5, true));
    assert_eq!(selection.clone().range, 0..5);

    handler.replace_text_in_range(Some(0..1), "J", &mut window, &mut cx);
    handler.replace_and_mark_text_in_range(Some(4..5), "y", Some(4..5), &mut window, &mut cx);
    assert_eq!(handler.marked_text_range(&mut window, &mut cx), Some(4..5));
    handler.unmark_text(&mut window, &mut cx);
    assert_eq!(handler.marked_text_range(&mut window, &mut cx), None);

    let shown = handler.bounds_for_range(0..1, &mut window, &mut cx).unwrap();
    assert!(shown.origin.x.0 == bounds.origin.x.0 && shown.size.height.0 == bounds.size.height.0);
    assert_eq!(
        handler.character_index_for_point(bounds.origin, &mut window, &mut cx),
        Some(2)
    );
    assert!(handler.element_bounds(&mut window, &mut cx).is_some());

    // What a view does not answer for itself.
    handler.set_selected_text_range(0..1, &mut window, &mut cx);
    assert_eq!(handler.text_length_utf16(&mut window, &mut cx), None);
    assert!(handler.accepts_text_input(&mut window, &mut cx));
    assert!(handler.prefers_ime_for_printable_keys(&mut window, &mut cx));
    assert_eq!(handler.into_view().text, "Jelly");
}
