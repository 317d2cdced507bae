use text_cursor::accesskit_position::{CCursor, TextRow};
use text_cursor::affinity::Affinity;
use text_cursor::byte_cursor::ByteCursor;
use text_cursor::cursor_range::CursorRange;
use text_cursor::input::{Event, Key, Modifiers, OperatingSystem, TextPosition};
use text_cursor::motion::CursorMotion;
use text_cursor::selection::{AnchorBase, Selection};

fn down(index: usize) -> ByteCursor {
    ByteCursor { index, affinity: Affinity::Downstream }
}

fn up(index: usize) -> ByteCursor {
    ByteCursor { index, affinity: Affinity::Upstream }
}

/// A one-row galley of ten characters with words starting at 0 and 6.
fn galley(c: ByteCursor, m: CursorMotion) -> ByteCursor {
    match m {
        CursorMotion::BeginOfRow | CursorMotion::GalleyBegin | CursorMotion::UpOneRow => down(0),
        CursorMotion::EndOfRow | CursorMotion::GalleyEnd | CursorMotion::DownOneRow => down(10),
        CursorMotion::LeftOneCharacter => down(c.index.saturating_sub(1)),
        CursorMotion::RightOneCharacter => down((c.index + 1).min(10)),
        CursorMotion::PreviousWord => down(if c.index > 6 { 6 } else { 0 }),
        CursorMotion::NextWord => down(if c.index < 5 { 5 } else { 10 }),
    }
}

const NONE: Modifiers = Modifiers { alt: false, ctrl: false, shift: false, mac_cmd: false, command: false };
const SHIFT: Modifiers = Modifiers { alt: false, ctrl: false, shift: true, mac_cmd: false, command: false };
const COMMAND: Modifiers = Modifiers { alt: false, ctrl: true, shift: false, mac_cmd: false, command: true };
const MAC_CTRL: Modifiers = Modifiers { alt: false, ctrl: true, shift: false, mac_cmd: false, command: false };

#[test]
fn one_and_two() {
    let r = CursorRange::one(down(3));
    assert!(r.is_empty());
    assert_eq!(r.single(), Some(down(3)));
    let t = CursorRange::two(down(1), down(4));
    assert_eq!(t.0.anchor, down(1));
    assert_eq!(t.0.focus, down(4));
    assert!(!t.is_empty());
    assert_eq!(t.single(), None);
}

#[test]
fn select_all_spans_the_galley() {
    let r = CursorRange::select_all(&galley);
    assert_eq!(r.0.anchor, down(0));
    assert_eq!(r.0.focus, down(10));
    assert_eq!(r.as_sorted_char_range(), 0..10);
}

#[test]
fn char_range_is_sorted() {
    assert_eq!(CursorRange::two(down(8), down(3)).as_sorted_char_range(), 3..8);
    assert_eq!(CursorRange::two(down(3), down(8)).as_sorted_char_range(), 3..8);
}

#[test]
fn containment_by_index() {
    let outer = CursorRange::two(down(8), down(1));
    assert!(outer.contains(&CursorRange::two(down(2), down(5))));
    assert!(outer.contains(&outer));
    assert!(!CursorRange::two(down(2), down(5)).contains(&outer));
    // Affinity does not count here.
    assert!(CursorRange::two(down(1), down(8)).contains(&CursorRange::two(up(1), down(8))));
}

#[test]
fn sorting_puts_the_focus_first() {
    let r = CursorRange::two(down(2), down(7));
    assert!(!r.is_sorted());
    let s = r.sorted();
    assert!(s.is_sorted());
    assert_eq!(s.0.focus, down(2));
    assert_eq!(s.0.anchor, down(7));
    assert_eq!(s.sorted_cursors(), [down(2), down(7)]);
    assert_eq!(r.sorted_cursors(), [down(2), down(7)]);
    let already = CursorRange::two(down(7), down(2));
    assert!(already.is_sorted());
    assert_eq!(already.sorted(), already);
    // Upstream comes before downstream at the same index.
    assert!(CursorRange::two(down(4), up(4)).is_sorted());
    assert!(!CursorRange::two(up(4), down(4)).is_sorted());
}

#[test]
fn slicing_by_characters() {
    let text = "héllo wörld";
    assert_eq!(CursorRange::two(down(7), down(1)).slice_str(text), "éllo w");
    assert_eq!(CursorRange::two(down(6), down(100)).slice_str(text), "wörld");
    assert_eq!(CursorRange::two(down(50), down(100)).slice_str(text), "");
}

#[test]
fn command_a_selects_all() {
    let mut r = CursorRange::one(down(4));
    assert!(r.on_key_press(OperatingSystem::Windows, &galley, &COMMAND, Key::A));
    assert_eq!(r, CursorRange::two(down(0), down(10)));
}

#[test]
fn bare_arrows_collapse_a_selection() {
    let mut r = CursorRange::two(down(7), down(3));
    assert!(r.on_key_press(OperatingSystem::Nix, &galley, &NONE, Key::ArrowLeft));
    assert_eq!(r.0, Selection::new(down(3), down(3)));
    let mut r = CursorRange::two(down(7), down(3));
    assert!(r.on_key_press(OperatingSystem::Nix, &galley, &NONE, Key::ArrowRight));
    assert_eq!(r.0, Selection::new(down(7), down(7)));
}

#[test]
fn arrows_move_and_shift_extends() {
    let mut r = CursorRange::one(down(4));
    assert!(r.on_key_press(OperatingSystem::Nix, &galley, &NONE, Key::ArrowRight));
    assert_eq!(r.0.focus, down(5));
    assert_eq!(r.0.anchor, down(5));
    assert!(r.on_key_press(OperatingSystem::Nix, &galley, &SHIFT, Key::ArrowRight));
    assert_eq!(r.0.focus, down(6));
    assert_eq!(r.0.anchor, down(5));
    assert!(r.on_key_press(OperatingSystem::Nix, &galley, &SHIFT, Key::End));
    assert_eq!(r.0.focus, down(10));
    assert_eq!(r.0.anchor, down(5));
    assert!(r.on_key_press(OperatingSystem::Nix, &galley, &COMMAND, Key::Home));
    assert_eq!(r, CursorRange::one(down(0)));
}

#[test]
fn moving_keeps_extra_state() {
    let mut r = CursorRange::one(down(4));
    r.0.h_pos = Some(2.5f32.to_bits());
    r.0.anchor_base = AnchorBase::Word(down(0), down(5));
    assert!(r.on_key_press(OperatingSystem::Nix, &galley, &NONE, Key::ArrowLeft));
    assert_eq!(r.0.focus, down(3));
    assert_eq!(r.0.h_pos, Some(2.5f32.to_bits()));
    assert_eq!(r.0.anchor_base, AnchorBase::Word(down(0), down(5)));
}

#[test]
fn emacs_keys_collapse_on_mac() {
    let mut r = CursorRange::two(down(2), down(4));
    assert!(r.on_key_press(OperatingSystem::Mac, &galley, &MAC_CTRL, Key::F));
    assert_eq!(r, CursorRange::one(down(5)));
    assert!(r.on_key_press(OperatingSystem::Mac, &galley, &MAC_CTRL, Key::A));
    assert_eq!(r, CursorRange::one(down(0)));
    // Not on other systems.
    let mut r = CursorRange::one(down(4));
    assert!(!r.on_key_press(OperatingSystem::Windows, &galley, &MAC_CTRL, Key::F));
    assert_eq!(r, CursorRange::one(down(4)));
}

#[test]
fn control_arrow_on_mac_collapses_in_place() {
    let mut r = CursorRange::two(down(2), down(4));
    assert!(r.on_key_press(OperatingSystem::Mac, &galley, &MAC_CTRL, Key::ArrowLeft));
    assert_eq!(r, CursorRange::one(down(4)));
}

#[test]
fn other_keys_are_not_handled() {
    let mut r = CursorRange::two(down(2), down(4));
    assert!(!r.on_key_press(OperatingSystem::Nix, &galley, &NONE, Key::Q));
    assert!(!r.on_key_press(OperatingSystem::Nix, &galley, &NONE, Key::A));
    assert_eq!(r, CursorRange::two(down(2), down(4)));
}

/// The rows below hold ASCII text only, except for row 21, whose first character takes
/// two bytes.
fn from_ccursor(c: CCursor) -> ByteCursor {
    let index = if c.index > 6 { c.index + 1 } else { c.index };
    ByteCursor { index, affinity: if c.prefer_next_row { Affinity::Downstream } else { Affinity::Upstream } }
}

fn rows() -> Vec<TextRow> {
    vec![
        TextRow { node: 20, glyph_count: 5, ends_with_newline: true },
        TextRow { node: 21, glyph_count: 4, ends_with_newline: false },
    ]
}

#[test]
fn key_events_reach_the_key_handler() {
    let mut r = CursorRange::one(down(4));
    let press = Event::Key { key: Key::ArrowRight, physical_key: None, pressed: true, repeat: false, modifiers: NONE };
    assert!(r.on_event(OperatingSystem::Nix, &press, &galley, &from_ccursor, &rows(), 7));
    assert_eq!(r, CursorRange::one(down(5)));
    let release = Event::Key { key: Key::ArrowRight, physical_key: None, pressed: false, repeat: false, modifiers: NONE };
    assert!(!r.on_event(OperatingSystem::Nix, &release, &galley, &from_ccursor, &rows(), 7));
    assert_eq!(r, CursorRange::one(down(5)));
    assert!(!r.on_event(OperatingSystem::Nix, &Event::Copy, &galley, &from_ccursor, &rows(), 7));
    assert!(!r.on_event(OperatingSystem::Nix, &Event::Text("x".to_string()), &galley, &from_ccursor, &rows(), 7));
}

#[test]
fn accessibility_selection_requests() {
    let request = Event::SetTextSelection {
        target: 7,
        anchor: TextPosition { node: 20, character_index: 1 },
        focus: TextPosition { node: 21, character_index: 2 },
    };
    let mut r = CursorRange::one(down(0));
    assert!(r.on_event(OperatingSystem::Nix, &request, &galley, &from_ccursor, &rows(), 7));
    assert_eq!(r.0.anchor, down(1));
    // Character 8 of the text lies at byte 9.
    assert_eq!(r.0.focus, down(9));
    // Another widget's request, or an unknown row, changes nothing.
    let mut r = CursorRange::one(down(0));
    assert!(!r.on_event(OperatingSystem::Nix, &request, &galley, &from_ccursor, &rows(), 8));
    let unknown = Event::SetTextSelection {
        target: 7,
        anchor: TextPosition { node: 99, character_index: 1 },
        focus: TextPosition { node: 21, character_index: 2 },
    };
    assert!(!r.on_event(OperatingSystem::Nix, &unknown, &galley, &from_ccursor, &rows(), 7));
    assert_eq!(r, CursorRange::one(down(0)));
}
