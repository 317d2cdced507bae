use text_cursor::affinity::Affinity;
use text_cursor::byte_cursor::ByteCursor;
use text_cursor::layout::{LayoutSection, TextLayout};
use text_cursor::selection::{AnchorBase, Selection};

fn down(index: usize) -> ByteCursor {
    ByteCursor { index, affinity: Affinity::Downstream }
}

fn layout_of(text: &str) -> TextLayout {
    let mut font_cx = parley::FontContext::new();
    let mut layout_cx: parley::LayoutContext<ecolor::Color32> = parley::LayoutContext::new();
    let builder = layout_cx.ranged_builder(&mut font_cx, text, 1.0, true);
    let mut layout: parley::Layout<ecolor::Color32> = builder.build(text);
    layout.break_all_lines(None);
    TextLayout { layout }
}

fn section(byte_start: usize, text: &str) -> LayoutSection {
    LayoutSection { byte_start, layout: layout_of(text) }
}

#[test]
fn as_parley_snaps_to_the_end_of_the_text() {
    let layout = layout_of("hello");
    let c = down(100).as_parley(&layout, 0);
    assert_eq!(c.index(), 5);
    assert_eq!(c.affinity(), Affinity::Upstream);
    let inside = down(12).as_parley(&layout, 10);
    assert_eq!(inside.index(), 2);
    assert_eq!(inside.affinity(), Affinity::Downstream);
    // Cursors before the section are placed at its start.
    let before = down(3).as_parley(&layout, 10);
    assert_eq!(before.index(), 0);
}

#[test]
fn from_parley_adds_the_offset() {
    let layout = layout_of("hello");
    let c = down(3).as_parley(&layout, 0);
    assert_eq!(ByteCursor::from_parley(&c, 20), down(23));
}

#[test]
fn moving_within_one_section() {
    let sections = vec![section(0, "hello world")];
    assert_eq!(down(3).prev_visual(&sections, 0), down(2));
    assert_eq!(down(3).next_visual(&sections, 0), ByteCursor { index: 4, affinity: Affinity::Upstream });
    // At the ends of the only section nothing moves.
    assert_eq!(down(0).prev_visual(&sections, 0), down(0));
    let end = ByteCursor { index: 11, affinity: Affinity::Upstream };
    assert_eq!(end.next_visual(&sections, 0), end);
}

#[test]
fn moving_across_sections() {
    let sections = vec![section(0, "ab"), section(2, "cd")];
    // From the start of the second section, back into the first.
    assert_eq!(down(2).prev_visual(&sections, 1), down(1));
    // From the end of the first section, on into the second.
    let end_of_first = ByteCursor { index: 2, affinity: Affinity::Upstream };
    assert_eq!(end_of_first.next_visual(&sections, 0), ByteCursor { index: 3, affinity: Affinity::Upstream });
}

#[test]
fn selections_through_parley() {
    let layout = layout_of("hello world");
    let s = Selection::new(down(12), down(15));
    let p = s.as_parley(&layout, 10);
    let back = Selection::from_parley(&p, 10);
    assert_eq!(back, s);
    assert_eq!(back.h_pos, None);
    assert_eq!(back.anchor_base, AnchorBase::Cluster);
    let shifted = Selection::from_parley(&p, 0);
    assert_eq!(shifted, Selection::new(down(2), down(5)));
    assert_eq!(p.selection.anchor().index(), 2);
    assert_eq!(p.selection.focus().index(), 5);
}

#[test]
fn horizontal_position_and_anchor_base_survive_parley() {
    let layout = layout_of("hello world");
    let mut s = Selection::new(down(16), down(13));
    s.h_pos = Some(12.5f32.to_bits());
    s.anchor_base = AnchorBase::Word(down(10), down(15));
    let back = Selection::from_parley(&s.as_parley(&layout, 10), 10);
    assert_eq!(back, s);
    assert_eq!(back.h_pos, Some(12.5f32.to_bits()));
    assert_eq!(back.anchor_base, AnchorBase::Word(down(10), down(15)));
    // Read back with another offset, every cursor moves with it.
    let moved = Selection::from_parley(&s.as_parley(&layout, 10), 0);
    assert_eq!(moved.anchor_base, AnchorBase::Word(down(0), down(5)));
}

#[test]
fn left_in_right_to_left_text_goes_forward() {
    // Each Hebrew letter takes two bytes.
    let sections = vec![section(0, "אב"), section(4, "גד")];
    assert_eq!(down(0).prev_visual(&sections, 0), ByteCursor { index: 2, affinity: Affinity::Upstream });
    assert_eq!(down(4).prev_visual(&sections, 1), ByteCursor { index: 6, affinity: Affinity::Upstream });
    // At the logical end of the first section there is nothing further to the left.
    let end = ByteCursor { index: 4, affinity: Affinity::Upstream };
    assert_eq!(end.prev_visual(&sections, 0), end);
}
