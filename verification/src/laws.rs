use vstd::prelude::*;
use crate::affinity::Affinity;
use crate::byte_cursor::ByteCursor;
use crate::accesskit_position::{CCursor, TextRow, cursor_in_row, first_row_of, text_len_before};
use crate::cursor_range::{CursorRange, event_outcome, key_press_outcome, positions_found, selects_all};
use crate::input::{Event, Key, Modifiers, OperatingSystem, TextPosition};
use crate::motion::{CursorMotion, key_moves, mac_control, motion_for_key};
use crate::layout::{
    LayoutAnchorBase,
    LayoutSection,
    LayoutSelection,
    TextLayout,
    parley_cluster_directions,
    parley_next_visual,
    parley_previous_visual,
    sections_well_formed,
    anchor_base_of_layout,
    parley_selection_anchor,
    parley_selection_focus,
    selection_of_layout,
};
use crate::selection::AnchorBase;
use crate::selection::Selection;

verus! {

/// Any two cursors are ordered one way or the other, or are the same cursor: exactly
/// one of `a < b`, `a == b` and `b < a` holds.
pub proof fn cursor_order_is_total(a: ByteCursor, b: ByteCursor)
    ensures
        a.before(b) || a == b || b.before(a),
        !(a.before(b) && b.before(a)),
        !(a.before(b) && a == b),
{
}

/// The cursor order is transitive.
pub proof fn cursor_order_is_transitive(a: ByteCursor, b: ByteCursor, c: ByteCursor)
    requires
        a.before(b),
        b.before(c),
    ensures
        a.before(c),
{
}

/// Among cursors at the same index, the one attached to the preceding character comes
/// first.
pub proof fn upstream_comes_first(index: usize)
    ensures
        (ByteCursor { index, affinity: Affinity::Upstream }).before(
            ByteCursor { index, affinity: Affinity::Downstream },
        ),
{
}

/// `ByteCursor::end()` comes at or after every cursor.
pub proof fn end_is_last(c: ByteCursor)
    ensures
        c.at_or_before(ByteCursor { index: usize::MAX, affinity: Affinity::Downstream }),
{
}

/// `ByteCursor::start()` comes at or before every cursor but the one at index 0 that is
/// attached to the preceding character.
pub proof fn start_is_first(c: ByteCursor)
    requires
        c != (ByteCursor { index: 0, affinity: Affinity::Upstream }),
    ensures
        (ByteCursor { index: 0, affinity: Affinity::Downstream }).at_or_before(c),
{
}

/// The sorted ends of a selection are its two ends, the first at or before the last.
pub proof fn sorted_ends_are_the_ends(s: Selection)
    ensures
        s.min_cursor().at_or_before(s.max_cursor()),
        (s.min_cursor() == s.anchor && s.max_cursor() == s.focus) || (s.min_cursor() == s.focus
            && s.max_cursor() == s.anchor),
        s.min_cursor().index <= s.max_cursor().index,
{
}

/// The sorted ends of a selection do not depend on which end is the anchor: the ends can
/// come in any order.
pub proof fn sorted_ends_ignore_direction(s: Selection)
    ensures
        Selection::fresh(s.focus, s.anchor).min_cursor() == s.min_cursor(),
        Selection::fresh(s.focus, s.anchor).max_cursor() == s.max_cursor(),
{
}

/// A selection is empty exactly when its byte range is.
pub proof fn empty_iff_range_empty(s: Selection)
    ensures
        (s.anchor.index == s.focus.index) <==> (s.min_cursor().index == s.max_cursor().index),
{
}

/// Every selection contains itself.
pub proof fn selection_contains_itself(s: Selection)
    ensures
        s.covers(s),
{
}

/// A selection contains what a selection within it contains.
pub proof fn selection_contains_is_transitive(a: Selection, b: Selection, c: Selection)
    requires
        a.covers(b),
        b.covers(c),
    ensures
        a.covers(c),
{
}

/// Selections whose ends are equal contain each other, and two selections that contain
/// each other have the same sorted ends.
pub proof fn mutual_containment_is_same_range(a: Selection, b: Selection)
    ensures
        a.same_ends(b) ==> a.covers(b) && b.covers(a),
        a.covers(b) && b.covers(a) ==> a.min_cursor() == b.min_cursor() && a.max_cursor()
            == b.max_cursor(),
{
}

/// Equality of selections, which compares only their ends, is an equivalence.
pub proof fn selection_equality_is_equivalence(a: Selection, b: Selection, c: Selection)
    ensures
        a.same_ends(a),
        a.same_ends(b) ==> b.same_ends(a),
        a.same_ends(b) && b.same_ends(c) ==> a.same_ends(c),
{
}

/// Collapsing a selection gives an empty selection at its focus; collapsing that again
/// changes nothing.
pub proof fn collapse_is_empty_at_focus(s: Selection)
    ensures
        Selection::fresh(s.focus, s.focus).anchor.index == Selection::fresh(s.focus, s.focus).focus.index,
        Selection::fresh(s.focus, s.focus).focus == s.focus,
        Selection::fresh(s.focus, s.focus).min_cursor() == s.focus,
{
}

/// A cursor range sorted by `CursorRange::sorted` is sorted, and covers the same ends.
pub proof fn sorted_range_is_sorted(r: CursorRange)
    ensures
        ({
            let t = if r.0.focus.at_or_before(r.0.anchor) {
                r
            } else {
                CursorRange(Selection::fresh(r.0.focus, r.0.anchor))
            };
            &&& t.0.focus.at_or_before(t.0.anchor)
            &&& t.0.min_cursor() == r.0.min_cursor()
            &&& t.0.max_cursor() == r.0.max_cursor()
        }),
{
}

/// The primary end of a sorted cursor range is its first end.
pub proof fn sorted_range_starts_at_focus(r: CursorRange)
    requires
        r.0.focus.at_or_before(r.0.anchor),
    ensures
        r.0.min_cursor() == r.0.focus,
        r.0.max_cursor() == r.0.anchor,
{
}

/// The range of one cursor is empty, and that cursor is its single cursor.
pub proof fn one_cursor_is_single(c: ByteCursor)
    ensures
        Selection::fresh(c, c).anchor.index == Selection::fresh(c, c).focus.index,
        Selection::fresh(c, c).min_cursor() == c,
        Selection::fresh(c, c).max_cursor() == c,
{
}

/// A cursor range contains itself, and contains what a range within it contains,
/// comparing indices.
pub proof fn range_contains_is_a_preorder(a: CursorRange, b: CursorRange, c: CursorRange)
    ensures
        a.0.min_cursor().index <= a.0.min_cursor().index && a.0.max_cursor().index
            <= a.0.max_cursor().index,
        (a.0.min_cursor().index <= b.0.min_cursor().index && b.0.max_cursor().index
            <= a.0.max_cursor().index && b.0.min_cursor().index <= c.0.min_cursor().index
            && c.0.max_cursor().index <= b.0.max_cursor().index) ==> (a.0.min_cursor().index
            <= c.0.min_cursor().index && c.0.max_cursor().index <= a.0.max_cursor().index),
{
}

/// The range that `Selection::contains` accepts is also accepted by
/// `CursorRange::contains`: covering in the cursor order implies covering by index.
pub proof fn selection_containment_implies_index_containment(a: Selection, b: Selection)
    requires
        a.covers(b),
    ensures
        a.min_cursor().index <= b.min_cursor().index && b.max_cursor().index
            <= a.max_cursor().index,
{
}

/// The anchor does not move when shift is down: a key press with shift either selects
/// all (command+shift+A) or leaves the anchor where it was.
pub proof fn shift_keeps_anchor<F: Fn(ByteCursor, CursorMotion) -> ByteCursor>(
    os: OperatingSystem,
    galley: &F,
    modifiers: Modifiers,
    key: Key,
    before: Selection,
    after: Selection,
    handled: bool,
)
    requires
        key_press_outcome(os, galley, modifiers, key, before, after, handled),
        modifiers.shift,
        !selects_all(key, modifiers),
    ensures
        after.anchor == before.anchor,
{
}

/// A key press that is not handled leaves the range as it was.
pub proof fn unhandled_key_changes_nothing<F: Fn(ByteCursor, CursorMotion) -> ByteCursor>(
    os: OperatingSystem,
    galley: &F,
    modifiers: Modifiers,
    key: Key,
    before: Selection,
    after: Selection,
    handled: bool,
)
    requires
        key_press_outcome(os, galley, modifiers, key, before, after, handled),
        !handled,
    ensures
        after == before,
{
}

/// Parley keeps `c` where it is when it places it in a layout whose text starts at
/// `byte_offset`: the cursor lies in the section, and parley places it at its own index
/// and affinity there.
pub open spec fn kept_by_parley(c: ByteCursor, layout: TextLayout, byte_offset: usize) -> bool {
    c.index >= byte_offset && c.placed_in(layout, byte_offset) == (
        (c.index - byte_offset) as usize,
        c.affinity,
    )
}

/// Parley keeps the ends of the anchor base where they are.
pub open spec fn anchor_base_kept_by_parley(
    anchor_base: AnchorBase,
    layout: TextLayout,
    byte_offset: usize,
) -> bool {
    match anchor_base {
        AnchorBase::Cluster => true,
        AnchorBase::Word(start, end) | AnchorBase::Line(start, end) => kept_by_parley(
            start,
            layout,
            byte_offset,
        ) && kept_by_parley(end, layout, byte_offset),
    }
}

/// An anchor base survives the trip through a layout: where `placed` is what
/// `AnchorBase::as_parley` gives for `anchor_base` and parley keeps its cursors where they
/// are, `AnchorBase::from_parley` of `placed` gives back the same kind with the same
/// ends, in the same order.
pub proof fn anchor_base_survives_parley(
    anchor_base: AnchorBase,
    layout: TextLayout,
    byte_offset: usize,
    placed: LayoutAnchorBase,
)
    requires
        anchor_base.placed_as(layout, byte_offset, placed),
        anchor_base_kept_by_parley(anchor_base, layout, byte_offset),
    ensures
        anchor_base_of_layout(placed, byte_offset) == anchor_base,
{
    match placed {
        LayoutAnchorBase::Cluster => {},
        LayoutAnchorBase::Word(start, end) => {},
        LayoutAnchorBase::Line(start, end) => {},
    }
}

/// A selection survives the trip through parley: where `placed` is what
/// `Selection::as_parley` gives for `s` and parley keeps every cursor of `s` where it is,
/// `Selection::from_parley` of `placed` gives back `s`, with its horizontal position and
/// its anchor base.
pub proof fn selection_survives_parley(
    s: Selection,
    layout: TextLayout,
    byte_offset: usize,
    placed: LayoutSelection,
)
    requires
        parley_selection_anchor(placed.selection) == s.anchor.placed_in(layout, byte_offset),
        parley_selection_focus(placed.selection) == s.focus.placed_in(layout, byte_offset),
        s.anchor_base.placed_as(layout, byte_offset, placed.anchor_base),
        placed.h_pos == s.h_pos,
        kept_by_parley(s.anchor, layout, byte_offset),
        kept_by_parley(s.focus, layout, byte_offset),
        anchor_base_kept_by_parley(s.anchor_base, layout, byte_offset),
    ensures
        selection_of_layout(placed, byte_offset) == s,
{
    match placed.anchor_base {
        LayoutAnchorBase::Cluster => {},
        LayoutAnchorBase::Word(start, end) => {},
        LayoutAnchorBase::Line(start, end) => {},
    }
}

/// The modifiers with shift flipped.
pub open spec fn shift_flipped(modifiers: Modifiers) -> Modifiers {
    Modifiers {
        alt: modifiers.alt,
        ctrl: modifiers.ctrl,
        shift: !modifiers.shift,
        mac_cmd: modifiers.mac_cmd,
        command: modifiers.command,
    }
}

/// Shift never changes where a key moves the cursor, but for the control bindings on a
/// Mac (where shift turns them off).
pub proof fn shift_does_not_change_motion(os: OperatingSystem, key: Key, modifiers: Modifiers)
    requires
        !(os == OperatingSystem::Mac && modifiers.ctrl),
    ensures
        motion_for_key(os, key, modifiers) == motion_for_key(os, key, shift_flipped(modifiers)),
{
}

/// The operating system matters only for the control bindings on a Mac: without control,
/// or with shift, a key moves the cursor the same way on every system.
pub proof fn system_matters_only_for_mac_control(
    os1: OperatingSystem,
    os2: OperatingSystem,
    key: Key,
    modifiers: Modifiers,
)
    requires
        !modifiers.ctrl || modifiers.shift,
    ensures
        motion_for_key(os1, key, modifiers) == motion_for_key(os2, key, modifiers),
{
}

/// The galley gives one result for each cursor and motion.
pub open spec fn deterministic<F: Fn(ByteCursor, CursorMotion) -> ByteCursor>(galley: &F) -> bool {
    forall|c: ByteCursor, m: CursorMotion, r1: ByteCursor, r2: ByteCursor|
        #[trigger] galley.ensures((c, m), r1) && #[trigger] galley.ensures((c, m), r2) ==> r1 == r2
}

/// With a galley that gives one result per motion, `move_single_cursor` leaves a cursor
/// at the same place whether or not shift is down, but for the control bindings on a Mac.
pub proof fn shift_does_not_change_where_a_cursor_goes<F: Fn(ByteCursor, CursorMotion) -> ByteCursor>(
    galley: &F,
    os: OperatingSystem,
    key: Key,
    modifiers: Modifiers,
    from: ByteCursor,
    to: ByteCursor,
    to_flipped: ByteCursor,
)
    requires
        deterministic(galley),
        !(os == OperatingSystem::Mac && modifiers.ctrl),
        key_moves(galley, os, key, modifiers, from, to),
        key_moves(galley, os, key, shift_flipped(modifiers), from, to_flipped),
    ensures
        to == to_flipped,
{
    shift_does_not_change_motion(os, key, modifiers);
}

/// With a galley that gives one result per motion, `move_single_cursor` leaves a cursor
/// at the same place on every system, without control or with shift.
pub proof fn system_does_not_change_where_a_cursor_goes<F: Fn(ByteCursor, CursorMotion) -> ByteCursor>(
    galley: &F,
    os1: OperatingSystem,
    os2: OperatingSystem,
    key: Key,
    modifiers: Modifiers,
    from: ByteCursor,
    to1: ByteCursor,
    to2: ByteCursor,
)
    requires
        deterministic(galley),
        !modifiers.ctrl || modifiers.shift,
        key_moves(galley, os1, key, modifiers, from, to1),
        key_moves(galley, os2, key, modifiers, from, to2),
    ensures
        to1 == to2,
{
    system_matters_only_for_mac_control(os1, os2, key, modifiers);
}

/// Moving one cluster left from section `k` looks at no section but `k` and the one
/// before it: two galleys that agree on those two sections give the same result.
pub proof fn moving_left_reads_only_its_section_and_the_previous(
    c: ByteCursor,
    sections: Seq<LayoutSection>,
    other: Seq<LayoutSection>,
    k: int,
)
    requires
        0 < k < sections.len(),
        k < other.len(),
        sections[k] == other[k],
        sections[k - 1] == other[k - 1],
    ensures
        c.moved_left(sections, k) == c.moved_left(other, k),
{
}

/// Moving one cluster right from section `k` looks at no section but `k` and the one
/// after it: two galleys that agree on those two sections, and on whether there is a
/// section after `k`, give the same result.
pub proof fn moving_right_reads_only_its_section_and_the_next(
    c: ByteCursor,
    sections: Seq<LayoutSection>,
    other: Seq<LayoutSection>,
    k: int,
)
    requires
        0 <= k < sections.len(),
        k < other.len(),
        sections[k] == other[k],
        (k + 1 < sections.len()) == (k + 1 < other.len()),
        k + 1 < sections.len() ==> sections[k + 1] == other[k + 1],
    ensures
        c.moved_right(sections, k) == c.moved_right(other, k),
{
}

/// Where parley moves the cursor within its own section, moving left gives parley's
/// cursor, taken to the whole text by the section's start.
pub proof fn moving_left_within_a_section(c: ByteCursor, sections: Seq<LayoutSection>, k: int)
    requires
        0 <= k < sections.len(),
        ({
            let s = sections[k];
            let placed = c.placed_in(s.layout, s.byte_start);
            parley_previous_visual(s.layout, placed.0, placed.1) != placed
        }),
    ensures
        ({
            let s = sections[k];
            let placed = c.placed_in(s.layout, s.byte_start);
            let moved = parley_previous_visual(s.layout, placed.0, placed.1);
            c.moved_left(sections, k) == ByteCursor {
                index: (moved.0 + s.byte_start) as usize,
                affinity: moved.1,
            }
        }),
{
}

/// Where parley cannot move the cursor left within section `k > 0`, the cursor lands in
/// section `k - 1`: at that section's start plus the index parley reaches moving left from
/// the cursor placed in that section's layout, and so at or after that section's start;
/// it is attached to the following character unless the cluster to its left is
/// right-to-left.
pub proof fn moving_left_past_a_section_start(c: ByteCursor, sections: Seq<LayoutSection>, k: int)
    requires
        0 < k < sections.len(),
        sections_well_formed(sections),
        ({
            let s = sections[k];
            let placed = c.placed_in(s.layout, s.byte_start);
            parley_previous_visual(s.layout, placed.0, placed.1) == placed
        }),
        ({
            let p = sections[k - 1];
            let placed = c.placed_in(p.layout, p.byte_start);
            parley_previous_visual(p.layout, placed.0, placed.1).0 <= isize::MAX
        }),
    ensures
        ({
            let p = sections[k - 1];
            let placed = c.placed_in(p.layout, p.byte_start);
            let reached = parley_previous_visual(p.layout, placed.0, placed.1);
            let r = c.moved_left(sections, k);
            &&& r.index == reached.0 + p.byte_start
            &&& r.index >= p.byte_start
            &&& (r.affinity == Affinity::Upstream <==> parley_cluster_directions(
                p.layout,
                reached.0,
                reached.1,
            ).0 == Some(true))
        }),
{
}

/// Where parley cannot move the cursor right within section `k` and a section follows,
/// the cursor lands in section `k + 1`: at that section's start plus the index parley
/// reaches moving right from the cursor placed in that section's layout; it is attached
/// to the following character exactly when the cluster to its right is right-to-left.
pub proof fn moving_right_past_a_section_end(c: ByteCursor, sections: Seq<LayoutSection>, k: int)
    requires
        0 <= k,
        k + 1 < sections.len(),
        sections_well_formed(sections),
        ({
            let s = sections[k];
            let placed = c.placed_in(s.layout, s.byte_start);
            parley_next_visual(s.layout, placed.0, placed.1) == placed
        }),
        ({
            let n = sections[k + 1];
            let placed = c.placed_in(n.layout, n.byte_start);
            parley_next_visual(n.layout, placed.0, placed.1).0 <= isize::MAX
        }),
    ensures
        ({
            let n = sections[k + 1];
            let placed = c.placed_in(n.layout, n.byte_start);
            let reached = parley_next_visual(n.layout, placed.0, placed.1);
            let r = c.moved_right(sections, k);
            &&& r.index == reached.0 + n.byte_start
            &&& r.index >= n.byte_start
            &&& (r.affinity == Affinity::Downstream <==> parley_cluster_directions(
                n.layout,
                reached.0,
                reached.1,
            ).1 == Some(true))
        }),
{
}

/// The key bindings that move a cursor, outside the control bindings on a Mac: command
/// with up or down jumps to the start or end of the galley whatever control says; alt
/// or control with left or right jumps by word; the Mac command key alone with left or
/// right jumps to the ends of the row; plain arrows move by one character or row;
/// control with `Home` or `End` jumps to the ends of the galley, and without it to the
/// ends of the row.
pub proof fn key_bindings(os: OperatingSystem, modifiers: Modifiers)
    requires
        !mac_control(os, modifiers),
    ensures
        modifiers.command ==> motion_for_key(os, Key::ArrowUp, modifiers) == Some(
            CursorMotion::GalleyBegin,
        ),
        modifiers.command ==> motion_for_key(os, Key::ArrowDown, modifiers) == Some(
            CursorMotion::GalleyEnd,
        ),
        !modifiers.command ==> motion_for_key(os, Key::ArrowUp, modifiers) == Some(
            CursorMotion::UpOneRow,
        ),
        !modifiers.command ==> motion_for_key(os, Key::ArrowDown, modifiers) == Some(
            CursorMotion::DownOneRow,
        ),
        modifiers.alt || modifiers.ctrl ==> motion_for_key(os, Key::ArrowLeft, modifiers) == Some(
            CursorMotion::PreviousWord,
        ),
        modifiers.alt || modifiers.ctrl ==> motion_for_key(os, Key::ArrowRight, modifiers)
            == Some(CursorMotion::NextWord),
        !modifiers.alt && !modifiers.ctrl && modifiers.mac_cmd ==> motion_for_key(
            os,
            Key::ArrowLeft,
            modifiers,
        ) == Some(CursorMotion::BeginOfRow),
        !modifiers.alt && !modifiers.ctrl && modifiers.mac_cmd ==> motion_for_key(
            os,
            Key::ArrowRight,
            modifiers,
        ) == Some(CursorMotion::EndOfRow),
        !modifiers.alt && !modifiers.ctrl && !modifiers.mac_cmd ==> motion_for_key(
            os,
            Key::ArrowLeft,
            modifiers,
        ) == Some(CursorMotion::LeftOneCharacter),
        !modifiers.alt && !modifiers.ctrl && !modifiers.mac_cmd ==> motion_for_key(
            os,
            Key::ArrowRight,
            modifiers,
        ) == Some(CursorMotion::RightOneCharacter),
        modifiers.ctrl ==> motion_for_key(os, Key::Home, modifiers) == Some(
            CursorMotion::GalleyBegin,
        ),
        modifiers.ctrl ==> motion_for_key(os, Key::End, modifiers) == Some(CursorMotion::GalleyEnd),
        !modifiers.ctrl ==> motion_for_key(os, Key::Home, modifiers) == Some(
            CursorMotion::BeginOfRow,
        ),
        !modifiers.ctrl ==> motion_for_key(os, Key::End, modifiers) == Some(
            CursorMotion::EndOfRow,
        ),
{
}

/// The control bindings on a Mac, as in Emacs: A and E to the ends of the row, P and N up
/// and down a row, B and F back and forward a character; arrows and every other key leave
/// the cursor where it is.
pub proof fn mac_control_bindings(key: Key, modifiers: Modifiers)
    requires
        mac_control(OperatingSystem::Mac, modifiers),
    ensures
        motion_for_key(OperatingSystem::Mac, Key::A, modifiers) == Some(CursorMotion::BeginOfRow),
        motion_for_key(OperatingSystem::Mac, Key::E, modifiers) == Some(CursorMotion::EndOfRow),
        motion_for_key(OperatingSystem::Mac, Key::P, modifiers) == Some(CursorMotion::UpOneRow),
        motion_for_key(OperatingSystem::Mac, Key::N, modifiers) == Some(CursorMotion::DownOneRow),
        motion_for_key(OperatingSystem::Mac, Key::B, modifiers) == Some(
            CursorMotion::LeftOneCharacter,
        ),
        motion_for_key(OperatingSystem::Mac, Key::F, modifiers) == Some(
            CursorMotion::RightOneCharacter,
        ),
        !key.is_emacs_motion() ==> motion_for_key(OperatingSystem::Mac, key, modifiers) is None,
{
}

/// With command down (and not the control bindings of a Mac), the up and down arrows ask
/// the galley for its begin and its end.
pub proof fn command_arrows_reach_the_galley_ends<F: Fn(ByteCursor, CursorMotion) -> ByteCursor>(
    galley: &F,
    os: OperatingSystem,
    modifiers: Modifiers,
    from: ByteCursor,
    up: ByteCursor,
    down: ByteCursor,
)
    requires
        modifiers.command,
        !mac_control(os, modifiers),
        key_moves(galley, os, Key::ArrowUp, modifiers, from, up),
        key_moves(galley, os, Key::ArrowDown, modifiers, from, down),
    ensures
        galley.ensures((from, CursorMotion::GalleyBegin), up),
        galley.ensures((from, CursorMotion::GalleyEnd), down),
{
    key_bindings(os, modifiers);
}

/// A bare left or right arrow on a non-empty selection collapses it onto its first or its
/// last end; with any other modifier but shift down, the arrow moves the focus by the
/// key's motion and the anchor follows it.
pub proof fn arrows_collapse_only_when_bare<F: Fn(ByteCursor, CursorMotion) -> ByteCursor>(
    os: OperatingSystem,
    galley: &F,
    modifiers: Modifiers,
    key: Key,
    before: Selection,
    after: Selection,
    handled: bool,
)
    requires
        key_press_outcome(os, galley, modifiers, key, before, after, handled),
        key is ArrowLeft || key is ArrowRight,
        !modifiers.shift,
    ensures
        handled,
        (!modifiers.alt && !modifiers.ctrl && !modifiers.mac_cmd && !modifiers.command
            && before.anchor.index != before.focus.index) ==> after == Selection::fresh(
            if key is ArrowLeft {
                before.min_cursor()
            } else {
                before.max_cursor()
            },
            if key is ArrowLeft {
                before.min_cursor()
            } else {
                before.max_cursor()
            },
        ),
        (modifiers.alt || modifiers.ctrl || modifiers.mac_cmd || modifiers.command) ==> (key_moves(
            galley,
            os,
            key,
            modifiers,
            before.focus,
            after.focus,
        ) && after.anchor == after.focus),
{
}

/// A pressed key is handled as the key press itself, whether or not it is an
/// auto-repeat; a released key is not handled.
pub proof fn key_events_act_as_key_presses<
    F: Fn(ByteCursor, CursorMotion) -> ByteCursor,
    G: Fn(CCursor) -> ByteCursor,
>(
    os: OperatingSystem,
    key: Key,
    physical_key: Option<Key>,
    repeat: bool,
    modifiers: Modifiers,
    galley: &F,
    from_ccursor: &G,
    rows: Seq<TextRow>,
    widget_node: u64,
    before: Selection,
    after: Selection,
    handled: bool,
)
    ensures
        event_outcome(
            os,
            Event::Key { key, physical_key, pressed: true, repeat, modifiers },
            galley,
            from_ccursor,
            rows,
            widget_node,
            before,
            after,
            handled,
        ) == key_press_outcome(os, galley, modifiers, key, before, after, handled),
        event_outcome(
            os,
            Event::Key { key, physical_key, pressed: false, repeat, modifiers },
            galley,
            from_ccursor,
            rows,
            widget_node,
            before,
            after,
            handled,
        ) == (!handled && after == before),
{
}

/// Counting the characters before a row: none before the first row, and each row adds
/// its glyphs and, where it ends with one, its newline, empty rows included.
pub proof fn rows_count_glyphs_and_newlines(rows: Seq<TextRow>, i: int)
    requires
        0 <= i < rows.len(),
    ensures
        text_len_before(rows, 0) == 0,
        text_len_before(rows, i + 1) == text_len_before(rows, i) + rows[i].glyph_count + if rows[i].ends_with_newline {
            1int
        } else {
            0int
        },
{
}

/// No row holds fewer than no characters.
proof fn text_len_before_is_not_negative(rows: Seq<TextRow>, i: int)
    ensures
        text_len_before(rows, i) >= 0,
    decreases i,
{
    if i > 0 {
        text_len_before_is_not_negative(rows, i - 1);
    }
}

/// The start of a row comes right after the end of the row before it and that row's
/// newline: the cursor at character 0 of row `i + 1` lies one character after the cursor
/// at the last glyph of row `i` where row `i` ends with a newline, and at the same index
/// where it does not (counting within a `usize`).
pub proof fn row_starts_follow_row_ends(
    rows: Seq<TextRow>,
    i: int,
    start: TextPosition,
    end: TextPosition,
)
    requires
        0 <= i,
        i + 1 < rows.len(),
        start.character_index == 0,
        end.character_index == rows[i].glyph_count,
        text_len_before(rows, i + 1) <= usize::MAX,
    ensures
        cursor_in_row(rows, i + 1, start).index as int == cursor_in_row(rows, i, end).index as int
            + if rows[i].ends_with_newline {
            1int
        } else {
            0int
        },
{
    rows_count_glyphs_and_newlines(rows, i);
    text_len_before_is_not_negative(rows, i);
}

/// Where parley cannot move the cursor left in the first section, the cursor stays where
/// parley placed it: there is nothing further left in the galley.
pub proof fn moving_left_stops_at_the_galley_start(c: ByteCursor, sections: Seq<LayoutSection>)
    requires
        0 < sections.len(),
        ({
            let s = sections[0];
            let placed = c.placed_in(s.layout, s.byte_start);
            parley_previous_visual(s.layout, placed.0, placed.1) == placed
        }),
    ensures
        ({
            let s = sections[0];
            let placed = c.placed_in(s.layout, s.byte_start);
            c.moved_left(sections, 0) == ByteCursor {
                index: (placed.0 + s.byte_start) as usize,
                affinity: placed.1,
            }
        }),
{
}

/// Where parley moves the cursor within its own section, moving right gives parley's
/// cursor, taken to the whole text by the section's start.
pub proof fn moving_right_within_a_section(c: ByteCursor, sections: Seq<LayoutSection>, k: int)
    requires
        0 <= k < sections.len(),
        ({
            let s = sections[k];
            let placed = c.placed_in(s.layout, s.byte_start);
            parley_next_visual(s.layout, placed.0, placed.1) != placed
        }),
    ensures
        ({
            let s = sections[k];
            let placed = c.placed_in(s.layout, s.byte_start);
            let moved = parley_next_visual(s.layout, placed.0, placed.1);
            c.moved_right(sections, k) == ByteCursor {
                index: (moved.0 + s.byte_start) as usize,
                affinity: moved.1,
            }
        }),
{
}

/// Where parley cannot move the cursor right in the last section, the cursor stays where
/// parley placed it: there is nothing further right in the galley.
pub proof fn moving_right_stops_at_the_galley_end(c: ByteCursor, sections: Seq<LayoutSection>)
    requires
        0 < sections.len(),
        ({
            let s = sections.last();
            let placed = c.placed_in(s.layout, s.byte_start);
            parley_next_visual(s.layout, placed.0, placed.1) == placed
        }),
    ensures
        ({
            let s = sections.last();
            let placed = c.placed_in(s.layout, s.byte_start);
            c.moved_right(sections, sections.len() - 1) == ByteCursor {
                index: (placed.0 + s.byte_start) as usize,
                affinity: placed.1,
            }
        }),
{
}

/// A cursor prefers the next row except at the very end of a row that wraps onto a next
/// row (no newline, and a row follows), where it stays on its row.
pub proof fn only_wrapping_row_ends_keep_to_their_row(rows: Seq<TextRow>, i: int, position: TextPosition)
    requires
        0 <= i < rows.len(),
    ensures
        !cursor_in_row(rows, i, position).prefer_next_row <==> (position.character_index
            == rows[i].glyph_count && !rows[i].ends_with_newline && i + 1 < rows.len()),
{
}

/// An accessibility request to select text takes the new anchor from the request's
/// anchor position and the new focus from its focus position, each read in the first
/// row of its node; a request for another widget changes nothing.
pub proof fn selection_requests_take_each_end_from_its_position<
    F: Fn(ByteCursor, CursorMotion) -> ByteCursor,
    G: Fn(CCursor) -> ByteCursor,
>(
    os: OperatingSystem,
    target: u64,
    anchor: TextPosition,
    focus: TextPosition,
    galley: &F,
    from_ccursor: &G,
    rows: Seq<TextRow>,
    widget_node: u64,
    before: Selection,
    after: Selection,
    handled: bool,
    i: int,
    j: int,
)
    requires
        event_outcome(
            os,
            Event::SetTextSelection { target, anchor, focus },
            galley,
            from_ccursor,
            rows,
            widget_node,
            before,
            after,
            handled,
        ),
    ensures
        target != widget_node ==> !handled && after == before,
        target == widget_node && first_row_of(rows, anchor.node, i) && first_row_of(
            rows,
            focus.node,
            j,
        ) ==> handled && from_ccursor.ensures((cursor_in_row(rows, i, anchor),), after.anchor)
            && from_ccursor.ensures((cursor_in_row(rows, j, focus),), after.focus),
{
    if target == widget_node && first_row_of(rows, anchor.node, i) && first_row_of(rows, focus.node, j) {
        assert(positions_found(rows, anchor, focus));
        let i2 = choose|a: int| first_row_of(rows, anchor.node, a);
        let j2 = choose|b: int| first_row_of(rows, focus.node, b);
        first_rows_are_unique(rows, anchor.node, i, i2);
        first_rows_are_unique(rows, focus.node, j, j2);
    }
}

/// A node has at most one first row.
proof fn first_rows_are_unique(rows: Seq<TextRow>, node: u64, i: int, k: int)
    requires
        first_row_of(rows, node, i),
        first_row_of(rows, node, k),
    ensures
        i == k,
{
    if i < k {
        assert(rows[i].node != node);
    } else if k < i {
        assert(rows[k].node != node);
    }
}

} // verus!
