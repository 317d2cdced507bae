use vstd::prelude::*;
use vstd::string::StrSliceExecFns;
use crate::accesskit_position::{
    CCursor,
    TextRow,
    ccursor_from_accesskit_text_position,
    cursor_in_row,
    first_row_of,
    position_fits,
};
use crate::affinity::Affinity;
use crate::byte_cursor::ByteCursor;
use crate::input::{Event, Key, Modifiers, OperatingSystem, TextPosition};
use crate::motion::{CursorMotion, key_moves, mac_control, move_single_cursor};
use crate::selection::{AnchorBase, Selection};

verus! {

/// A selected text range (could be a range of length zero).
///
/// The focus of the selection is the primary end, the one that moves; the anchor is the
/// secondary end.
#[derive(Clone, Copy, Debug)]
pub struct CursorRange(pub Selection);

impl Default for CursorRange {
    fn default() -> (r: Self)
        ensures
            r.0 == Selection::fresh(text_start(), text_start()),
    {
        CursorRange(Selection::default())
    }
}

/// The cursor at the start of the text, handed to the galley where the motion does not
/// depend on a cursor.
pub open spec fn text_start() -> ByteCursor {
    ByteCursor { index: 0, affinity: Affinity::Downstream }
}

/// `range` selects the whole text of `galley`: from its begin to its end, with no extra
/// text-edit state.
pub open spec fn selects_whole_galley<F: Fn(ByteCursor, CursorMotion) -> ByteCursor>(
    galley: &F,
    range: Selection,
) -> bool {
    &&& galley.ensures((text_start(), CursorMotion::GalleyBegin), range.anchor)
    &&& galley.ensures((text_start(), CursorMotion::GalleyEnd), range.focus)
    &&& range.h_pos == None::<u32>
    &&& range.anchor_base == AnchorBase::Cluster
}

/// The key selects all the text: command+A.
pub open spec fn selects_all(key: Key, modifiers: Modifiers) -> bool {
    key is A && modifiers.command
}

/// The key collapses a non-empty selection onto its left or right end: a bare left or
/// right arrow.
pub open spec fn collapses_selection(key: Key, modifiers: Modifiers, empty: bool) -> bool {
    (key is ArrowLeft || key is ArrowRight) && modifiers.none_down() && !empty
}

/// The key moves the focus, dragging the anchor along unless shift is down: an arrow,
/// `Home` or `End` that does not collapse the selection.
pub open spec fn moves_focus(key: Key, modifiers: Modifiers, empty: bool) -> bool {
    key.is_navigation() && !collapses_selection(key, modifiers, empty)
}

/// The key moves the focus and collapses the selection there: control with one of the
/// Emacs-like letters on a Mac, where it does not select all.
pub open spec fn emacs_moves(os: OperatingSystem, key: Key, modifiers: Modifiers) -> bool {
    key.is_emacs_motion() && mac_control(os, modifiers) && !selects_all(key, modifiers)
}

/// What a key press does to a cursor range: `after` is the range after pressing `key`
/// on `before`, and `handled` what `on_key_press` answers.
pub open spec fn key_press_outcome<F: Fn(ByteCursor, CursorMotion) -> ByteCursor>(
    os: OperatingSystem,
    galley: &F,
    modifiers: Modifiers,
    key: Key,
    before: Selection,
    after: Selection,
    handled: bool,
) -> bool {
    let empty = before.anchor.index == before.focus.index;
    if selects_all(key, modifiers) {
        handled && selects_whole_galley(galley, after)
    } else if collapses_selection(key, modifiers, empty) {
        let end = if key is ArrowLeft {
            before.min_cursor()
        } else {
            before.max_cursor()
        };
        handled && after == Selection::fresh(end, end)
    } else if moves_focus(key, modifiers, empty) || emacs_moves(os, key, modifiers) {
        &&& handled
        &&& key_moves(galley, os, key, modifiers, before.focus, after.focus)
        &&& after.anchor == if moves_focus(key, modifiers, empty) && modifiers.shift {
            before.anchor
        } else {
            after.focus
        }
        &&& after.h_pos == before.h_pos
        &&& after.anchor_base == before.anchor_base
    } else {
        !handled && after == before
    }
}

impl PartialEq for CursorRange {
    fn eq(&self, other: &Self) -> (r: bool) {
        self.0 == other.0
    }
}

impl vstd::std_specs::cmp::PartialEqSpecImpl for CursorRange {
    open spec fn obeys_eq_spec() -> bool {
        true
    }

    open spec fn eq_spec(&self, other: &Self) -> bool {
        self.0.same_ends(other.0)
    }
}

impl CursorRange {
    /// The empty range.
    #[inline]
    pub fn one(cursor: ByteCursor) -> (r: Self)
        ensures
            r.0 == Selection::fresh(cursor, cursor),
    {
        Self(Selection::new(cursor, cursor))
    }

    /// The range from `min` (the anchor) to `max` (the focus).
    #[inline]
    pub fn two(min: ByteCursor, max: ByteCursor) -> (r: Self)
        ensures
            r.0 == Selection::fresh(min, max),
    {
        Self(Selection::new(min, max))
    }

    /// Select all the text in a galley
    pub fn select_all<F: Fn(ByteCursor, CursorMotion) -> ByteCursor>(galley: &F) -> (r: Self)
        requires
            forall|c: ByteCursor, m: CursorMotion| galley.requires((c, m)),
        ensures
            selects_whole_galley(galley, r.0),
    {
        let begin = galley(ByteCursor::start(), CursorMotion::GalleyBegin);
        let end = galley(ByteCursor::start(), CursorMotion::GalleyEnd);
        Self::two(begin, end)
    }

    /// The range between the two ends, as the cursors' own indices (byte indices into the
    /// text), the smaller first.
    pub fn as_sorted_char_range(&self) -> (r: core::ops::Range<usize>)
        ensures
            r.start == self.0.min_cursor().index,
            r.end == self.0.max_cursor().index,
    {
        self.0.byte_range()
    }

    /// True if the selected range contains no characters.
    #[inline]
    pub fn is_empty(&self) -> (r: bool)
        ensures
            r == (self.0.anchor.index == self.0.focus.index),
    {
        self.0.is_empty()
    }

    /// Is `self` a super-set of the other range?
    pub fn contains(&self, other: &Self) -> (r: bool)
        ensures
            r == (self.0.min_cursor().index <= other.0.min_cursor().index
                && other.0.max_cursor().index <= self.0.max_cursor().index),
    {
        let mine = self.sorted_cursors();
        let theirs = other.sorted_cursors();
        mine[0].index <= theirs[0].index && theirs[1].index <= mine[1].index
    }

    /// If there is a selection, None is returned.
    /// If the two ends are the same, that is returned.
    pub fn single(&self) -> (r: Option<ByteCursor>)
        ensures
            r == (if self.0.anchor.index == self.0.focus.index {
                Some(self.0.focus)
            } else {
                None
            }),
    {
        if self.is_empty() {
            Some(self.0.focus)
        } else {
            None
        }
    }

    /// The primary end (the focus) comes before the secondary end (the anchor), or equals it.
    pub fn is_sorted(&self) -> (r: bool)
        ensures
            r == self.0.focus.at_or_before(self.0.anchor),
    {
        let p = self.0.focus;
        let s = self.0.anchor;
        p <= s
    }

    /// The range with its ends swapped where the primary end comes last.
    pub fn sorted(self) -> (r: Self)
        ensures
            r == (if self.0.focus.at_or_before(self.0.anchor) {
                self
            } else {
                CursorRange(Selection::fresh(self.0.focus, self.0.anchor))
            }),
    {
        if self.is_sorted() {
            self
        } else {
            Self(Selection::new(self.0.focus, self.0.anchor))
        }
    }

    /// Returns the two ends ordered.
    pub fn sorted_cursors(&self) -> (r: [ByteCursor; 2])
        ensures
            r[0] == self.0.min_cursor(),
            r[1] == self.0.max_cursor(),
    {
        if self.is_sorted() {
            [self.0.focus, self.0.anchor]
        } else {
            [self.0.anchor, self.0.focus]
        }
    }

    /// The selected characters of `text`, reading the indices of the two ends as counts of
    /// characters (not of bytes); ends past the text are taken as its end. On text that is
    /// not all ASCII this differs from `Selection::slice_str`, which reads them as byte
    /// indices.
    pub fn slice_str<'s>(&self, text: &'s str) -> (r: &'s str)
        ensures
            r@ == text@.subrange(
                vstd::math::min(self.0.min_cursor().index as int, text@.len() as int),
                vstd::math::min(self.0.max_cursor().index as int, text@.len() as int),
            ),
    {
        let sorted = self.sorted_cursors();
        let len = text.unicode_len();
        let start = if sorted[0].index < len {
            sorted[0].index
        } else {
            len
        };
        let end = if sorted[1].index < len {
            sorted[1].index
        } else {
            len
        };
        text.substring_char(start, end)
    }

    /// Check for key presses that are moving the cursor.
    ///
    /// `galley` carries out a motion of a cursor within the laid-out text.
    /// Returns `true` if we did mutate `self`.
    pub fn on_key_press<F: Fn(ByteCursor, CursorMotion) -> ByteCursor>(
        &mut self,
        os: OperatingSystem,
        galley: &F,
        modifiers: &Modifiers,
        key: Key,
    ) -> (r: bool)
        requires
            forall|c: ByteCursor, m: CursorMotion| galley.requires((c, m)),
        ensures
            key_press_outcome(os, galley, *modifiers, key, old(self).0, final(self).0, r),
    {
        if key == Key::A && modifiers.command {
            *self = Self::select_all(galley);
            true
        } else if (key == Key::ArrowLeft || key == Key::ArrowRight) && modifiers.is_none()
            && !self.is_empty() {
            if key == Key::ArrowLeft {
                *self = Self::one(self.sorted_cursors()[0]);
            } else {
                *self = Self::one(self.sorted_cursors()[1]);
            }
            true
        } else if matches!(
            key,
            Key::ArrowLeft | Key::ArrowRight | Key::ArrowUp | Key::ArrowDown | Key::Home | Key::End
        ) {
            move_single_cursor(os, &mut self.0.focus, galley, key, modifiers);
            if !modifiers.shift {
                self.0.anchor = self.0.focus;
            }
            true
        } else if matches!(key, Key::P | Key::N | Key::B | Key::F | Key::A | Key::E) && os
            == OperatingSystem::Mac && modifiers.ctrl && !modifiers.shift {
            move_single_cursor(os, &mut self.0.focus, galley, key, modifiers);
            self.0.anchor = self.0.focus;
            true
        } else {
            false
        }
    }
}

/// Both positions of a selection request name rows of the galley.
pub open spec fn positions_found(rows: Seq<TextRow>, anchor: TextPosition, focus: TextPosition) -> bool {
    exists|i: int, j: int|
        #[trigger] first_row_of(rows, anchor.node, i) && #[trigger] first_row_of(rows, focus.node, j)
}

/// What an event does to a cursor range: `after` is the range after `event` reached
/// `before` in the widget with accessibility node `widget_node`, and `handled` what
/// `on_event` answers. `from_ccursor` turns a character cursor of the galley into a
/// byte cursor.
pub open spec fn event_outcome<
    F: Fn(ByteCursor, CursorMotion) -> ByteCursor,
    G: Fn(CCursor) -> ByteCursor,
>(
    os: OperatingSystem,
    event: Event,
    galley: &F,
    from_ccursor: &G,
    rows: Seq<TextRow>,
    widget_node: u64,
    before: Selection,
    after: Selection,
    handled: bool,
) -> bool {
    match event {
        Event::Key { key, pressed, modifiers, .. } => if pressed {
            key_press_outcome(os, galley, modifiers, key, before, after, handled)
        } else {
            !handled && after == before
        },
        Event::SetTextSelection { target, anchor, focus } => {
            if target == widget_node && positions_found(rows, anchor, focus) {
                let i = choose|i: int| first_row_of(rows, anchor.node, i);
                let j = choose|j: int| first_row_of(rows, focus.node, j);
                &&& handled
                &&& from_ccursor.ensures((cursor_in_row(rows, i, anchor),), after.anchor)
                &&& from_ccursor.ensures((cursor_in_row(rows, j, focus),), after.focus)
                &&& after.h_pos == None::<u32>
                &&& after.anchor_base == AnchorBase::Cluster
            } else {
                !handled && after == before
            }
        },
        _ => !handled && after == before,
    }
}

/// An accessibility request to select text in the widget names positions whose
/// characters can be counted in a `usize`.
pub open spec fn request_fits(event: Event, rows: Seq<TextRow>, widget_node: u64) -> bool {
    match event {
        Event::SetTextSelection { target, anchor, focus } => target == widget_node ==> position_fits(
            rows,
            anchor,
        ) && position_fits(rows, focus),
        _ => true,
    }
}

impl CursorRange {
    /// Check for events that modify the cursor range.
    ///
    /// `galley` carries out a motion of a cursor within the laid-out text, `from_ccursor`
    /// turns a character cursor of the galley into a byte cursor, `rows` are the rows of
    /// the galley as an accessibility tool sees them, and `widget_node` is the
    /// accessibility node of the widget.
    /// Returns `true` if such an event was found and handled.
    pub fn on_event<F: Fn(ByteCursor, CursorMotion) -> ByteCursor, G: Fn(CCursor) -> ByteCursor>(
        &mut self,
        os: OperatingSystem,
        event: &Event,
        galley: &F,
        from_ccursor: &G,
        rows: &Vec<TextRow>,
        widget_node: u64,
    ) -> (r: bool)
        requires
            forall|c: ByteCursor, m: CursorMotion| galley.requires((c, m)),
            forall|c: CCursor| from_ccursor.requires((c,)),
            request_fits(*event, rows@, widget_node),
        ensures
            event_outcome(
                os,
                *event,
                galley,
                from_ccursor,
                rows@,
                widget_node,
                old(self).0,
                final(self).0,
                r,
            ),
    {
        match event {
            Event::Key { modifiers, key, pressed, .. } => {
                if *pressed {
                    self.on_key_press(os, galley, modifiers, *key)
                } else {
                    false
                }
            },
            Event::SetTextSelection { target, anchor, focus } => {
                if widget_node == *target {
                    let primary = ccursor_from_accesskit_text_position(rows, focus);
                    let secondary = ccursor_from_accesskit_text_position(rows, anchor);
                    match (primary, secondary) {
                        (Some(primary), Some(secondary)) => {
                            proof {
                                let i = choose|i: int| first_row_of(rows@, anchor.node, i);
                                let j = choose|j: int| first_row_of(rows@, focus.node, j);
                                assert(first_row_of(rows@, anchor.node, i));
                                assert(first_row_of(rows@, focus.node, j));
                            }
                            let primary = from_ccursor(primary);
                            let secondary = from_ccursor(secondary);
                            *self = CursorRange(Selection::new(secondary, primary));
                            return true;
                        },
                        _ => {},
                    }
                }
                false
            },
            _ => false,
        }
    }
}

} // verus!
