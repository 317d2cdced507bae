use vstd::prelude::*;
use crate::affinity::Affinity;
use parley::Selection as ParleySelection;
use crate::byte_cursor::ByteCursor;
use crate::selection::{AnchorBase, Selection};

verus! {

/// The parley layout of one section of a galley, its text coloured with `Color32`.
///
/// `parley::Layout` bounds its parameter by parley's own trait `Brush`, which cannot be
/// declared here; this type carries such a layout through the library unopened.
#[verifier::external_body]
pub struct TextLayout {
    pub layout: parley::Layout<ecolor::Color32>,
}

/// parley's cursor in a layout, carried unopened.
#[verifier::external_type_specification]
#[verifier::external_body]
pub struct ExParleyCursor(parley::Cursor);

/// parley's selection in a layout, carried unopened.
#[verifier::external_type_specification]
#[verifier::external_body]
pub struct ExParleySelection(ParleySelection);

/// Where parley places a cursor asked for at a byte index with an affinity in a layout
/// (`parley::Cursor::from_byte_index`), as the cursor's index and affinity.
pub uninterp spec fn parley_cursor_at(layout: TextLayout, index: usize, affinity: Affinity) -> (usize, Affinity);

/// The cursor one cluster to the left, in visual order, of the cursor with an index and
/// affinity in a layout (`parley::Cursor::previous_visual`).
pub uninterp spec fn parley_previous_visual(layout: TextLayout, index: usize, affinity: Affinity) -> (usize, Affinity);

/// The cursor one cluster to the right, in visual order, of the cursor with an index and
/// affinity in a layout (`parley::Cursor::next_visual`).
pub uninterp spec fn parley_next_visual(layout: TextLayout, index: usize, affinity: Affinity) -> (usize, Affinity);

/// Whether the clusters to the left and to the right of the cursor with an index and
/// affinity in a layout are right-to-left, or `None` where there is no such cluster
/// (`parley::Cursor::visual_clusters` with `parley::Cluster::is_rtl`).
pub uninterp spec fn parley_cluster_directions(layout: TextLayout, index: usize, affinity: Affinity) -> (Option<bool>, Option<bool>);

/// The anchor of a parley selection (`parley::Selection::anchor`), as its index and affinity.
pub uninterp spec fn parley_selection_anchor(selection: ParleySelection) -> (usize, Affinity);

/// The focus of a parley selection (`parley::Selection::focus`), as its index and affinity.
pub uninterp spec fn parley_selection_focus(selection: ParleySelection) -> (usize, Affinity);

/// A parley cursor together with the index and affinity that it reports.
///
/// Values of this type are only made by the functions of this module that ask parley
/// for a cursor: each copies `index()` and `affinity()` of the parley cursor it holds,
/// which are all of that cursor.
pub struct LayoutCursor {
    index: usize,
    affinity: Affinity,
    raw: parley::Cursor,
}

impl View for LayoutCursor {
    /// The logical text index of the cursor within its layout, and its affinity.
    type V = (usize, Affinity);

    closed spec fn view(&self) -> (usize, Affinity) {
        (self.index, self.affinity)
    }
}

impl LayoutCursor {
    /// The logical text index of the cursor within its layout.
    pub fn index(&self) -> (r: usize)
        ensures
            r == self@.0,
    {
        self.index
    }

    /// The affinity of the cursor.
    pub fn affinity(&self) -> (r: Affinity)
        ensures
            r == self@.1,
    {
        self.affinity
    }
}

/// The largest index that a cursor into a laid-out text can hold: no text in memory is
/// longer than `isize::MAX` bytes.
pub open spec fn max_text_index() -> int {
    isize::MAX as int
}

/// Asks parley for the cursor at `index` with `affinity` in `layout`
/// (`parley::Cursor::from_byte_index`).
///
/// The contract claims that the result is what parley gives for these arguments
/// (`parley_cursor_at`), and that its index is one of a position in a text in memory
/// (parley returns the start of a cluster or the length of the layout's text).
#[verifier::external_body]
fn cursor_from_byte_index(layout: &TextLayout, index: usize, affinity: Affinity) -> (r: LayoutCursor)
    ensures
        r@ == parley_cursor_at(*layout, index, affinity),
        r@.0 <= max_text_index(),
{
    let a = match affinity {
        Affinity::Downstream => parley::Affinity::Downstream,
        Affinity::Upstream => parley::Affinity::Upstream,
    };
    let raw = parley::Cursor::from_byte_index(&layout.layout, index, a);
    let affinity = match raw.affinity() {
        parley::Affinity::Downstream => Affinity::Downstream,
        parley::Affinity::Upstream => Affinity::Upstream,
    };
    LayoutCursor { index: raw.index(), affinity, raw }
}

/// Asks parley for the cursor one cluster to the left of `cursor` in visual order
/// (`parley::Cursor::previous_visual`).
///
/// The contract claims that the result is what parley gives for the cursor
/// (`parley_previous_visual`), and that its index is at most `isize::MAX`: parley returns
/// the cursor unchanged or a cursor it placed in the layout's text.
#[verifier::external_body]
fn previous_visual(cursor: &LayoutCursor, layout: &TextLayout) -> (r: LayoutCursor)
    ensures
        r@ == parley_previous_visual(*layout, cursor@.0, cursor@.1),
        cursor@.0 <= max_text_index() ==> r@.0 <= max_text_index(),
{
    let raw = cursor.raw.previous_visual(&layout.layout);
    let affinity = match raw.affinity() {
        parley::Affinity::Downstream => Affinity::Downstream,
        parley::Affinity::Upstream => Affinity::Upstream,
    };
    LayoutCursor { index: raw.index(), affinity, raw }
}

/// Asks parley for the cursor one cluster to the right of `cursor` in visual order
/// (`parley::Cursor::next_visual`).
///
/// The contract claims that the result is what parley gives for the cursor
/// (`parley_next_visual`), and that its index is at most `isize::MAX`: parley returns the
/// cursor unchanged or a cursor it placed in the layout's text.
#[verifier::external_body]
fn next_visual(cursor: &LayoutCursor, layout: &TextLayout) -> (r: LayoutCursor)
    ensures
        r@ == parley_next_visual(*layout, cursor@.0, cursor@.1),
        cursor@.0 <= max_text_index() ==> r@.0 <= max_text_index(),
{
    let raw = cursor.raw.next_visual(&layout.layout);
    let affinity = match raw.affinity() {
        parley::Affinity::Downstream => Affinity::Downstream,
        parley::Affinity::Upstream => Affinity::Upstream,
    };
    LayoutCursor { index: raw.index(), affinity, raw }
}

/// Asks parley for the clusters to the left and to the right of `cursor`
/// (`parley::Cursor::visual_clusters`), and hands out of each whether it is set
/// right-to-left (`parley::Cluster::is_rtl`), or `None` where there is no cluster.
///
/// The contract claims that the result is what parley gives for the cursor
/// (`parley_cluster_directions`).
#[verifier::external_body]
fn visual_cluster_directions(cursor: &LayoutCursor, layout: &TextLayout) -> (r: [Option<bool>; 2])
    ensures
        r[0] == parley_cluster_directions(*layout, cursor@.0, cursor@.1).0,
        r[1] == parley_cluster_directions(*layout, cursor@.0, cursor@.1).1,
{
    let [left, right] = cursor.raw.visual_clusters(&layout.layout);
    let left = match left {
        Some(cluster) => Some(cluster.is_rtl()),
        None => None,
    };
    let right = match right {
        Some(cluster) => Some(cluster.is_rtl()),
        None => None,
    };
    [left, right]
}

/// The cursor of the whole text that a cursor `c` of a section starting at `byte_offset`
/// stands for.
pub open spec fn shifted(c: (usize, Affinity), byte_offset: usize) -> ByteCursor {
    ByteCursor { index: (c.0 + byte_offset) as usize, affinity: c.1 }
}

/// One laid-out section of a galley: where its text starts in the galley's text, and
/// its layout.
pub struct LayoutSection {
    pub byte_start: usize,
    pub layout: TextLayout,
}

/// The sections of a galley in text order, each starting within the bounds of a text
/// in memory.
pub open spec fn sections_well_formed(sections: Seq<LayoutSection>) -> bool {
    forall|i: int| 0 <= i < sections.len() ==> #[trigger] sections[i].byte_start <= max_text_index()
}

impl ByteCursor {
    /// The index of this cursor within a section whose text starts at `byte_offset`; a
    /// cursor before the section is taken to its start.
    pub open spec fn index_in_section(self, byte_offset: usize) -> usize {
        if self.index >= byte_offset {
            (self.index - byte_offset) as usize
        } else {
            0
        }
    }

    /// Where parley places this cursor in a layout whose text starts at `byte_offset`.
    pub open spec fn placed_in(self, layout: TextLayout, byte_offset: usize) -> (usize, Affinity) {
        parley_cursor_at(layout, self.index_in_section(byte_offset), self.affinity)
    }

    /// Where moving this cursor one cluster to the left in visual order lands, in the
    /// galley with `sections` where section `section` holds the cursor: where parley moves
    /// it within its section; where parley cannot and there is a previous section, where
    /// parley moves it within that one, attached by the direction of the cluster to the
    /// left of the place it reaches; else where it is.
    pub open spec fn moved_left(self, sections: Seq<LayoutSection>, section: int) -> ByteCursor {
        let s = sections[section];
        let placed = self.placed_in(s.layout, s.byte_start);
        let moved = parley_previous_visual(s.layout, placed.0, placed.1);
        if moved != placed || section == 0 {
            shifted(moved, s.byte_start)
        } else {
            let p = sections[section - 1];
            let placed_there = self.placed_in(p.layout, p.byte_start);
            let reached = parley_previous_visual(p.layout, placed_there.0, placed_there.1);
            let is_rtl = match parley_cluster_directions(p.layout, reached.0, reached.1).0 {
                Some(rtl) => rtl,
                None => false,
            };
            shifted((reached.0, ByteCursor::direction_affinity(is_rtl, false)), p.byte_start)
        }
    }

    /// Where moving this cursor one cluster to the right in visual order lands, in the
    /// galley with `sections` where section `section` holds the cursor: where parley moves
    /// it within its section; where parley cannot and there is a next section, where
    /// parley moves it within that one, attached by the direction of the cluster to the
    /// right of the place it reaches; else where it is.
    pub open spec fn moved_right(self, sections: Seq<LayoutSection>, section: int) -> ByteCursor {
        let s = sections[section];
        let placed = self.placed_in(s.layout, s.byte_start);
        let moved = parley_next_visual(s.layout, placed.0, placed.1);
        if moved != placed || section + 1 >= sections.len() {
            shifted(moved, s.byte_start)
        } else {
            let n = sections[section + 1];
            let placed_there = self.placed_in(n.layout, n.byte_start);
            let reached = parley_next_visual(n.layout, placed_there.0, placed_there.1);
            let is_rtl = match parley_cluster_directions(n.layout, reached.0, reached.1).1 {
                Some(rtl) => rtl,
                None => false,
            };
            shifted((reached.0, ByteCursor::direction_affinity(is_rtl, true)), n.byte_start)
        }
    }

    /// The parley cursor for this cursor in a layout whose text starts at `byte_offset`
    /// of the whole text: the cursor's index is taken relative to the section (saturating
    /// at 0) and handed to parley with the cursor's affinity.
    #[inline]
    pub fn as_parley(&self, layout: &TextLayout, byte_offset: usize) -> (r: LayoutCursor)
        ensures
            r@ == self.placed_in(*layout, byte_offset),
            r@.0 <= max_text_index(),
    {
        let index = self.index.saturating_sub(byte_offset);
        cursor_from_byte_index(layout, index, self.affinity)
    }

    /// The cursor of the whole text that a parley cursor of a layout starting at
    /// `byte_offset` stands for.
    pub fn from_parley(parley_cursor: &LayoutCursor, byte_offset: usize) -> (r: Self)
        requires
            parley_cursor@.0 + byte_offset <= usize::MAX,
        ensures
            r == shifted(parley_cursor@, byte_offset),
    {
        ByteCursor { index: parley_cursor.index + byte_offset, affinity: parley_cursor.affinity }
    }

    /// The cursor one cluster to the left of this one in visual order.
    ///
    /// `sections` are the sections of the galley and `section` is the one that holds
    /// this cursor. Where parley cannot move the cursor within its own section, the cursor
    /// moves to the left within the previous section, if there is one, and is attached in
    /// the direction of the cluster it lands next to.
    pub fn prev_visual(&self, sections: &Vec<LayoutSection>, section: usize) -> (r: ByteCursor)
        requires
            section < sections.len(),
            sections_well_formed(sections@),
        ensures
            r == self.moved_left(sections@, section as int),
    {
        let current = &sections[section];
        let parley_cursor = self.as_parley(&current.layout, current.byte_start);
        let prev_in_layout = previous_visual(&parley_cursor, &current.layout);
        // We successfully advanced to the previous visual cluster.
        if parley_cursor.index() != prev_in_layout.index() || parley_cursor.affinity()
            != prev_in_layout.affinity() {
            return Self::from_parley(&prev_in_layout, current.byte_start);
        }
        // We need to check the previous section. Do nothing if we're at the start of the
        // entire galley.
        if section == 0 {
            return Self::from_parley(&prev_in_layout, current.byte_start);
        }
        let prev_section = &sections[section - 1];
        let parley_cursor = self.as_parley(&prev_section.layout, prev_section.byte_start);
        let prev_parley_cursor = previous_visual(&parley_cursor, &prev_section.layout);
        let directions = visual_cluster_directions(&prev_parley_cursor, &prev_section.layout);
        let is_rtl = match directions[0] {
            Some(rtl) => rtl,
            None => false,
        };
        let affinity = ByteCursor::affinity_for_dir(is_rtl, false);
        // The index that parley reached, taken as it is, with the affinity chosen above.
        ByteCursor { index: prev_parley_cursor.index() + prev_section.byte_start, affinity }
    }

    /// The cursor one cluster to the right of this one in visual order.
    ///
    /// `sections` are the sections of the galley and `section` is the one that holds
    /// this cursor. Where parley cannot move the cursor within its own section, the cursor
    /// moves to the right within the next section, if there is one, and is attached in the
    /// direction of the cluster it lands next to.
    pub fn next_visual(&self, sections: &Vec<LayoutSection>, section: usize) -> (r: ByteCursor)
        requires
            section < sections.len(),
            sections_well_formed(sections@),
        ensures
            r == self.moved_right(sections@, section as int),
    {
        let current = &sections[section];
        let parley_cursor = self.as_parley(&current.layout, current.byte_start);
        let next_in_layout = next_visual(&parley_cursor, &current.layout);
        // We successfully advanced to the next visual cluster.
        if parley_cursor.index() != next_in_layout.index() || parley_cursor.affinity()
            != next_in_layout.affinity() {
            return Self::from_parley(&next_in_layout, current.byte_start);
        }
        // We need to check the next section. Do nothing if we're at the end of the entire
        // galley.
        if section + 1 >= sections.len() {
            return Self::from_parley(&next_in_layout, current.byte_start);
        }
        let next_section = &sections[section + 1];
        let parley_cursor = self.as_parley(&next_section.layout, next_section.byte_start);
        let next_parley_cursor = next_visual(&parley_cursor, &next_section.layout);
        let directions = visual_cluster_directions(&next_parley_cursor, &next_section.layout);
        let is_rtl = match directions[1] {
            Some(rtl) => rtl,
            None => false,
        };
        let affinity = ByteCursor::affinity_for_dir(is_rtl, true);
        // The index that parley reached, taken as it is, with the affinity chosen above.
        ByteCursor { index: next_parley_cursor.index() + next_section.byte_start, affinity }
    }
}

/// Asks a parley selection for its anchor (`parley::Selection::anchor`).
///
/// The contract claims that the result is the selection's anchor
/// (`parley_selection_anchor`), and that its index is at most `isize::MAX`: parley makes
/// every cursor from a position in a layout's text.
#[verifier::external_body]
fn selection_anchor(selection: &ParleySelection) -> (r: LayoutCursor)
    ensures
        r@ == parley_selection_anchor(*selection),
        r@.0 <= max_text_index(),
{
    let raw = selection.anchor();
    let affinity = match raw.affinity() {
        parley::Affinity::Downstream => Affinity::Downstream,
        parley::Affinity::Upstream => Affinity::Upstream,
    };
    LayoutCursor { index: raw.index(), affinity, raw }
}

/// Asks a parley selection for its focus (`parley::Selection::focus`).
///
/// The contract claims that the result is the selection's focus
/// (`parley_selection_focus`), and that its index is at most `isize::MAX`: parley makes
/// every cursor from a position in a layout's text.
#[verifier::external_body]
fn selection_focus(selection: &ParleySelection) -> (r: LayoutCursor)
    ensures
        r@ == parley_selection_focus(*selection),
        r@.0 <= max_text_index(),
{
    let raw = selection.focus();
    let affinity = match raw.affinity() {
        parley::Affinity::Downstream => Affinity::Downstream,
        parley::Affinity::Upstream => Affinity::Upstream,
    };
    LayoutCursor { index: raw.index(), affinity, raw }
}

/// The parley selection from `anchor` to `focus` (`parley::Selection::new`).
///
/// parley's `Selection::new` stores the two cursors, and `anchor()` and `focus()` hand
/// them back: the contract claims that the selection's anchor and focus are the cursors
/// it was made from.
#[verifier::external_body]
fn parley_selection(anchor: &LayoutCursor, focus: &LayoutCursor) -> (r: ParleySelection)
    ensures
        parley_selection_anchor(r) == anchor@,
        parley_selection_focus(r) == focus@,
{
    ParleySelection::new(anchor.raw, focus.raw)
}

/// What a selection in a layout was anchored to: a single cluster, or the word or line
/// whose two ends are given as parley cursors.
pub enum LayoutAnchorBase {
    Cluster,
    Word(LayoutCursor, LayoutCursor),
    Line(LayoutCursor, LayoutCursor),
}

/// A parley selection together with the text-edit state that parley 0.12 keeps private:
/// what the selection was anchored to, and the remembered horizontal position of the
/// focus (as `f32` bits).
pub struct LayoutSelection {
    pub selection: ParleySelection,
    pub anchor_base: LayoutAnchorBase,
    pub h_pos: Option<u32>,
}

/// The cursors of `anchor_base` can be moved by `byte_offset` without overflow.
pub open spec fn anchor_base_fits(anchor_base: LayoutAnchorBase, byte_offset: usize) -> bool {
    match anchor_base {
        LayoutAnchorBase::Cluster => true,
        LayoutAnchorBase::Word(start, end) | LayoutAnchorBase::Line(start, end) => start@.0
            + byte_offset <= usize::MAX && end@.0 + byte_offset <= usize::MAX,
    }
}

/// The cursors of `anchor_base` are positions in a text in memory.
pub open spec fn anchor_base_bounded(anchor_base: LayoutAnchorBase) -> bool {
    match anchor_base {
        LayoutAnchorBase::Cluster => true,
        LayoutAnchorBase::Word(start, end) | LayoutAnchorBase::Line(start, end) => start@.0
            <= max_text_index() && end@.0 <= max_text_index(),
    }
}

/// The anchor base of the whole text that an anchor base in a layout starting at
/// `byte_offset` stands for.
pub open spec fn anchor_base_of_layout(anchor_base: LayoutAnchorBase, byte_offset: usize) -> AnchorBase {
    match anchor_base {
        LayoutAnchorBase::Cluster => AnchorBase::Cluster,
        LayoutAnchorBase::Word(start, end) => AnchorBase::Word(
            shifted(start@, byte_offset),
            shifted(end@, byte_offset),
        ),
        LayoutAnchorBase::Line(start, end) => AnchorBase::Line(
            shifted(start@, byte_offset),
            shifted(end@, byte_offset),
        ),
    }
}

/// The selection of the whole text that a selection in a layout starting at
/// `byte_offset` stands for.
pub open spec fn selection_of_layout(selection: LayoutSelection, byte_offset: usize) -> Selection {
    Selection {
        anchor: shifted(parley_selection_anchor(selection.selection), byte_offset),
        focus: shifted(parley_selection_focus(selection.selection), byte_offset),
        h_pos: selection.h_pos,
        anchor_base: anchor_base_of_layout(selection.anchor_base, byte_offset),
    }
}

impl AnchorBase {
    /// `placed` is this anchor base placed in `layout`, whose text starts at
    /// `byte_offset`: the same kind, its ends placed as `ByteCursor::as_parley` places them.
    pub open spec fn placed_as(self, layout: TextLayout, byte_offset: usize, placed: LayoutAnchorBase) -> bool {
        match (self, placed) {
            (AnchorBase::Cluster, LayoutAnchorBase::Cluster) => true,
            (AnchorBase::Word(start, end), LayoutAnchorBase::Word(s, e)) => s@ == start.placed_in(
                layout,
                byte_offset,
            ) && e@ == end.placed_in(layout, byte_offset),
            (AnchorBase::Line(start, end), LayoutAnchorBase::Line(s, e)) => s@ == start.placed_in(
                layout,
                byte_offset,
            ) && e@ == end.placed_in(layout, byte_offset),
            _ => false,
        }
    }

    /// The anchor base of the whole text that an anchor base in a layout starting at
    /// `byte_offset` stands for.
    fn from_parley(parley_anchor_base: &LayoutAnchorBase, byte_offset: usize) -> (r: Self)
        requires
            anchor_base_fits(*parley_anchor_base, byte_offset),
        ensures
            r == anchor_base_of_layout(*parley_anchor_base, byte_offset),
    {
        match parley_anchor_base {
            LayoutAnchorBase::Cluster => AnchorBase::Cluster,
            LayoutAnchorBase::Word(start, end) => AnchorBase::Word(
                ByteCursor::from_parley(start, byte_offset),
                ByteCursor::from_parley(end, byte_offset),
            ),
            LayoutAnchorBase::Line(start, end) => AnchorBase::Line(
                ByteCursor::from_parley(start, byte_offset),
                ByteCursor::from_parley(end, byte_offset),
            ),
        }
    }

    /// This anchor base placed in a layout whose text starts at `byte_offset`.
    fn as_parley(&self, layout: &TextLayout, byte_offset: usize) -> (r: LayoutAnchorBase)
        ensures
            self.placed_as(*layout, byte_offset, r),
            anchor_base_bounded(r),
    {
        match self {
            AnchorBase::Cluster => LayoutAnchorBase::Cluster,
            AnchorBase::Word(start, end) => LayoutAnchorBase::Word(
                start.as_parley(layout, byte_offset),
                end.as_parley(layout, byte_offset),
            ),
            AnchorBase::Line(start, end) => LayoutAnchorBase::Line(
                start.as_parley(layout, byte_offset),
                end.as_parley(layout, byte_offset),
            ),
        }
    }
}

impl Selection {
    /// The selection of the whole text that a selection in a layout starting at
    /// `byte_offset` stands for.
    pub fn from_parley(parley_selection: &LayoutSelection, byte_offset: usize) -> (r: Self)
        requires
            byte_offset <= max_text_index(),
            anchor_base_fits(parley_selection.anchor_base, byte_offset),
        ensures
            r == selection_of_layout(*parley_selection, byte_offset),
    {
        let anchor = selection_anchor(&parley_selection.selection);
        let focus = selection_focus(&parley_selection.selection);
        Selection {
            anchor: ByteCursor::from_parley(&anchor, byte_offset),
            focus: ByteCursor::from_parley(&focus, byte_offset),
            h_pos: parley_selection.h_pos,
            anchor_base: AnchorBase::from_parley(&parley_selection.anchor_base, byte_offset),
        }
    }

    /// The selection in a layout whose text starts at `byte_offset` of the whole text:
    /// both ends, and those of the anchor base, are placed in the layout as
    /// `ByteCursor::as_parley` places them, and the horizontal position is kept.
    pub fn as_parley(&self, layout: &TextLayout, byte_offset: usize) -> (r: LayoutSelection)
        ensures
            parley_selection_anchor(r.selection) == self.anchor.placed_in(*layout, byte_offset),
            parley_selection_focus(r.selection) == self.focus.placed_in(*layout, byte_offset),
            self.anchor_base.placed_as(*layout, byte_offset, r.anchor_base),
            anchor_base_bounded(r.anchor_base),
            r.h_pos == self.h_pos,
    {
        let anchor = self.anchor.as_parley(layout, byte_offset);
        let focus = self.focus.as_parley(layout, byte_offset);
        LayoutSelection {
            selection: parley_selection(&anchor, &focus),
            anchor_base: self.anchor_base.as_parley(layout, byte_offset),
            h_pos: self.h_pos,
        }
    }
}

} // verus!
