use text_cursor::affinity::Affinity;
use text_cursor::byte_cursor::ByteCursor;
use text_cursor::selection::{AnchorBase, Selection};

fn down(index: usize) -> ByteCursor {
    ByteCursor { index, affinity: Affinity::Downstream }
}

fn up(index: usize) -> ByteCursor {
    ByteCursor { index, affinity: Affinity::Upstream }
}

#[test]
fn new_selection_has_no_extra_state() {
    let s = Selection::new(down(1), down(4));
    assert_eq!(s.anchor(), down(1));
    assert_eq!(s.focus(), down(4));
    assert_eq!(s.secondary(), down(1));
    assert_eq!(s.primary(), down(4));
    assert_eq!(s.h_pos, None);
    assert_eq!(s.anchor_base, AnchorBase::Cluster);
}

#[test]
fn default_selection_is_at_start() {
    let s = Selection::default();
    assert_eq!(s.anchor, ByteCursor::start());
    assert_eq!(s.focus, ByteCursor::start());
    assert!(s.is_empty());
    assert_eq!(AnchorBase::default(), AnchorBase::Cluster);
}

#[test]
fn emptiness_compares_indices_only() {
    assert!(Selection::new(up(3), down(3)).is_empty());
    assert!(!Selection::new(down(3), down(4)).is_empty());
}

#[test]
fn sorted_cursors_in_either_direction() {
    assert_eq!(Selection::new(down(5), down(2)).sorted_cursors(), [down(2), down(5)]);
    assert_eq!(Selection::new(down(2), down(5)).sorted_cursors(), [down(2), down(5)]);
    assert_eq!(Selection::new(down(3), up(3)).sorted_cursors(), [up(3), down(3)]);
    assert_eq!(Selection::new(up(3), down(3)).sorted_cursors(), [up(3), down(3)]);
}

#[test]
fn byte_range_runs_from_first_to_last_end() {
    assert_eq!(Selection::new(down(7), down(2)).byte_range(), 2..7);
    assert_eq!(Selection::new(down(4), up(4)).byte_range(), 4..4);
}

#[test]
fn containment_in_cursor_order() {
    let outer = Selection::new(down(8), down(1));
    let inner = Selection::new(down(3), down(5));
    assert!(outer.contains(&inner));
    assert!(!inner.contains(&outer));
    assert!(outer.contains(&outer));
    // Affinity counts: an upstream end at the start index lies before the selection.
    assert!(!Selection::new(down(1), down(8)).contains(&Selection::new(up(1), down(2))));
    assert!(Selection::new(up(1), down(8)).contains(&Selection::new(down(1), down(2))));
}

#[test]
fn slicing_by_bytes() {
    let text = "héllo wörld";
    // 'é' and 'ö' take two bytes each.
    assert_eq!(Selection::new(down(6), down(1)).slice_str(text), "éllo");
    assert_eq!(Selection::new(down(0), down(text.len())).slice_str(text), text);
    assert_eq!(Selection::new(down(3), down(3)).slice_str(text), "");
}

#[test]
fn collapse_keeps_the_focus() {
    let s = Selection::new(down(2), up(9));
    let c = s.collapse();
    assert_eq!(c.anchor, up(9));
    assert_eq!(c.focus, up(9));
    assert!(c.is_empty());
}

#[test]
fn maybe_extend_keeps_or_drops_the_anchor() {
    let s = Selection::new(down(2), down(4));
    assert_eq!(s.maybe_extend(down(6), true), Selection::new(down(2), down(6)));
    assert_eq!(s.maybe_extend(down(6), false), Selection::new(down(6), down(6)));
}

#[test]
fn equality_ignores_extra_state() {
    let mut a = Selection::new(down(1), down(2));
    a.h_pos = Some(1.5f32.to_bits());
    a.anchor_base = AnchorBase::Word(down(0), down(3));
    let b = Selection::new(down(1), down(2));
    assert_eq!(a, b);
    assert_ne!(a, Selection::new(down(2), down(1)));
}
