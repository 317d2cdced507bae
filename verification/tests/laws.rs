use text_cursor::affinity::Affinity;
use text_cursor::byte_cursor::ByteCursor;
use text_cursor::cursor_range::CursorRange;
use text_cursor::input::{Key, Modifiers, OperatingSystem};
use text_cursor::motion::CursorMotion;
use text_cursor::selection::Selection;

fn c(index: usize, upstream: bool) -> ByteCursor {
    ByteCursor { index, affinity: if upstream { Affinity::Upstream } else { Affinity::Downstream } }
}

fn samples() -> Vec<ByteCursor> {
    vec![c(0, true), c(0, false), c(3, true), c(3, false), c(9, false)]
}

#[test]
fn law_cursor_order_total_and_transitive() {
    for a in samples() {
        for b in samples() {
            let count = [a < b, a == b, b < a].iter().filter(|x| **x).count();
            assert_eq!(count, 1);
            for d in samples() {
                if a < b && b < d {
                    assert!(a < d);
                }
            }
        }
    }
}

#[test]
fn law_sorted_ends_are_the_ends_in_either_direction() {
    for a in samples() {
        for b in samples() {
            let s = Selection::new(a, b);
            let [min, max] = s.sorted_cursors();
            assert!(min <= max);
            assert!((min == a && max == b) || (min == b && max == a));
            assert_eq!(Selection::new(b, a).sorted_cursors(), [min, max]);
            let range = s.byte_range();
            assert!(range.start <= range.end);
            assert_eq!(s.is_empty(), range.start == range.end);
        }
    }
}

#[test]
fn law_selection_containment() {
    let a = Selection::new(c(9, false), c(0, true));
    let b = Selection::new(c(3, true), c(3, false));
    let d = Selection::new(c(3, false), c(3, false));
    assert!(a.contains(&a));
    assert!(a.contains(&b) && b.contains(&d) && a.contains(&d));
    let same = Selection::new(c(0, true), c(9, false));
    assert!(a.contains(&same) && same.contains(&a));
    assert_eq!(a.sorted_cursors(), same.sorted_cursors());
    // Containment in the cursor order implies containment by index.
    assert!(CursorRange(a).contains(&CursorRange(b)));
}

#[test]
fn law_selection_equality_is_an_equivalence() {
    let a = Selection::new(c(1, false), c(2, false));
    let mut b = a;
    b.h_pos = Some(7);
    let mut d = a;
    d.h_pos = Some(8);
    assert!(a == a);
    assert!(a == b && b == a);
    assert!(a == b && b == d && a == d);
}

#[test]
fn law_collapse_is_empty_at_focus() {
    let s = Selection::new(c(1, false), c(5, true));
    let collapsed = s.collapse();
    assert!(collapsed.is_empty());
    assert_eq!(collapsed.focus(), s.focus());
    assert_eq!(collapsed.collapse(), collapsed);
}

#[test]
fn law_sorted_range_is_sorted_with_the_same_ends() {
    for a in samples() {
        for b in samples() {
            let r = CursorRange::two(a, b);
            let s = r.sorted();
            assert!(s.is_sorted());
            assert_eq!(s.sorted_cursors(), r.sorted_cursors());
            assert_eq!(s.sorted_cursors()[0], s.0.focus);
        }
    }
}

#[test]
fn law_one_cursor_is_single() {
    for a in samples() {
        let r = CursorRange::one(a);
        assert!(r.is_empty());
        assert_eq!(r.single(), Some(a));
        assert_eq!(r.sorted_cursors(), [a, a]);
    }
}

#[test]
fn law_range_containment_is_a_preorder() {
    let a = CursorRange::two(c(0, false), c(9, false));
    let b = CursorRange::two(c(5, false), c(2, false));
    let d = CursorRange::two(c(3, false), c(4, false));
    assert!(a.contains(&a));
    assert!(a.contains(&b) && b.contains(&d) && a.contains(&d));
}

fn galley(cursor: ByteCursor, m: CursorMotion) -> ByteCursor {
    match m {
        CursorMotion::LeftOneCharacter => c(cursor.index.saturating_sub(1), false),
        CursorMotion::RightOneCharacter => c(cursor.index + 1, false),
        _ => c(0, false),
    }
}

#[test]
fn law_shift_keeps_the_anchor() {
    let shift = Modifiers { alt: false, ctrl: false, shift: true, mac_cmd: false, command: false };
    for key in [Key::ArrowLeft, Key::ArrowRight, Key::ArrowUp, Key::ArrowDown, Key::Home, Key::End, Key::B] {
        let mut r = CursorRange::two(c(3, false), c(5, false));
        r.on_key_press(OperatingSystem::Mac, &galley, &shift, key);
        assert_eq!(r.0.anchor, c(3, false));
    }
}

#[test]
fn law_unhandled_keys_change_nothing() {
    let none = Modifiers { alt: false, ctrl: false, shift: false, mac_cmd: false, command: false };
    for key in [Key::Q, Key::Enter, Key::PageUp, Key::Escape] {
        let mut r = CursorRange::two(c(3, false), c(5, false));
        assert!(!r.on_key_press(OperatingSystem::Nix, &galley, &none, key));
        assert_eq!(r, CursorRange::two(c(3, false), c(5, false)));
    }
}

fn tagging_galley(cursor: ByteCursor, m: CursorMotion) -> ByteCursor {
    c(cursor.index * 100 + m as usize, false)
}

const NAV_KEYS: [Key; 6] = [Key::ArrowLeft, Key::ArrowRight, Key::ArrowUp, Key::ArrowDown, Key::Home, Key::End];

fn all_modifiers() -> Vec<Modifiers> {
    let mut v = Vec::new();
    for bits in 0..32u32 {
        v.push(Modifiers {
            alt: bits & 1 != 0,
            ctrl: bits & 2 != 0,
            shift: bits & 4 != 0,
            mac_cmd: bits & 8 != 0,
            command: bits & 16 != 0,
        });
    }
    v
}

#[test]
fn law_shift_does_not_change_where_a_cursor_goes() {
    for os in [OperatingSystem::Windows, OperatingSystem::Mac, OperatingSystem::Nix] {
        for m in all_modifiers() {
            if os == OperatingSystem::Mac && m.ctrl {
                continue;
            }
            let flipped = Modifiers { shift: !m.shift, ..m };
            for key in NAV_KEYS {
                let mut a = c(1, false);
                let mut b = c(1, false);
                text_cursor::motion::move_single_cursor(os, &mut a, &tagging_galley, key, &m);
                text_cursor::motion::move_single_cursor(os, &mut b, &tagging_galley, key, &flipped);
                assert_eq!(a, b);
            }
        }
    }
}

#[test]
fn law_system_matters_only_for_mac_control() {
    for m in all_modifiers() {
        if m.ctrl && !m.shift {
            continue;
        }
        for key in NAV_KEYS {
            let mut first = c(1, false);
            text_cursor::motion::move_single_cursor(OperatingSystem::Mac, &mut first, &tagging_galley, key, &m);
            for os in [OperatingSystem::Windows, OperatingSystem::Nix, OperatingSystem::Unknown] {
                let mut other = c(1, false);
                text_cursor::motion::move_single_cursor(os, &mut other, &tagging_galley, key, &m);
                assert_eq!(first, other);
            }
        }
    }
}
