use text_cursor::accesskit_position::{ccursor_from_accesskit_text_position, CCursor, TextRow};
use text_cursor::input::TextPosition;

fn rows() -> Vec<TextRow> {
    vec![
        // "hello\n"
        TextRow { node: 10, glyph_count: 5, ends_with_newline: true },
        // "wrapped " (wraps onto the next row)
        TextRow { node: 11, glyph_count: 8, ends_with_newline: false },
        // "text"
        TextRow { node: 12, glyph_count: 4, ends_with_newline: false },
    ]
}

#[test]
fn position_in_first_row() {
    let c = ccursor_from_accesskit_text_position(&rows(), &TextPosition { node: 10, character_index: 2 });
    assert_eq!(c, Some(CCursor { index: 2, prefer_next_row: true }));
}

#[test]
fn position_after_a_newline() {
    let c = ccursor_from_accesskit_text_position(&rows(), &TextPosition { node: 11, character_index: 3 });
    assert_eq!(c, Some(CCursor { index: 9, prefer_next_row: true }));
}

#[test]
fn end_of_wrapped_row_stays_on_it() {
    let c = ccursor_from_accesskit_text_position(&rows(), &TextPosition { node: 11, character_index: 8 });
    assert_eq!(c, Some(CCursor { index: 14, prefer_next_row: false }));
}

#[test]
fn end_of_last_row_and_newline_row() {
    let last = ccursor_from_accesskit_text_position(&rows(), &TextPosition { node: 12, character_index: 4 });
    assert_eq!(last, Some(CCursor { index: 18, prefer_next_row: true }));
    let newline = ccursor_from_accesskit_text_position(&rows(), &TextPosition { node: 10, character_index: 5 });
    assert_eq!(newline, Some(CCursor { index: 5, prefer_next_row: true }));
}

#[test]
fn unknown_node_gives_nothing() {
    assert_eq!(
        ccursor_from_accesskit_text_position(&rows(), &TextPosition { node: 99, character_index: 0 }),
        None
    );
    assert_eq!(
        ccursor_from_accesskit_text_position(&Vec::new(), &TextPosition { node: 10, character_index: 0 }),
        None
    );
}

#[test]
fn first_row_of_a_node_wins() {
    let mut r = rows();
    r[2].node = 11;
    let c = ccursor_from_accesskit_text_position(&r, &TextPosition { node: 11, character_index: 1 });
    assert_eq!(c, Some(CCursor { index: 7, prefer_next_row: true }));
}
