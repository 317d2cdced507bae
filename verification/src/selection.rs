use vstd::prelude::*;
use vstd::string::StringSliceAdditionalSpecFns;
use vstd::utf8::*;
use crate::affinity::Affinity;
use crate::byte_cursor::ByteCursor;

verus! {

/// What a selection was anchored to when it was started: a single cluster, or the
/// word or line (given by its two ends) that a double or triple click selected.
#[derive(Clone, Copy, Debug, PartialEq, Eq, Structural)]
pub enum AnchorBase {
    Cluster,
    Word(ByteCursor, ByteCursor),
    Line(ByteCursor, ByteCursor),
}

impl Default for AnchorBase {
    fn default() -> (r: Self)
        ensures
            r == AnchorBase::Cluster,
    {
        AnchorBase::Cluster
    }
}

/// Range between two cursors, with some extra text-edit state. Requires text layout to be
/// done before it can be constructed from two [`ByteCursor`]s.
///
/// `h_pos` is the remembered horizontal position of the focus, as the bits of an `f32`
/// (`f32::to_bits`); the library carries it and never computes with it.
#[derive(Clone, Copy, Debug)]
pub struct Selection {
    pub anchor: ByteCursor,
    pub focus: ByteCursor,
    pub h_pos: Option<u32>,
    pub anchor_base: AnchorBase,
}

impl Selection {
    /// The selection from `anchor` to `focus` with no extra text-edit state.
    pub open spec fn fresh(anchor: ByteCursor, focus: ByteCursor) -> Selection {
        Selection { anchor, focus, h_pos: None, anchor_base: AnchorBase::Cluster }
    }

    /// The end of the selection that comes first in the cursor order.
    pub open spec fn min_cursor(self) -> ByteCursor {
        if self.anchor.before(self.focus) {
            self.anchor
        } else {
            self.focus
        }
    }

    /// The end of the selection that comes last in the cursor order.
    pub open spec fn max_cursor(self) -> ByteCursor {
        if self.anchor.before(self.focus) {
            self.focus
        } else {
            self.anchor
        }
    }

    /// Both selections have the same two ends; the extra text-edit state is not compared.
    pub open spec fn same_ends(self, other: Selection) -> bool {
        self.anchor == other.anchor && self.focus == other.focus
    }

    /// The selection covers all of `other`, in the cursor order.
    pub open spec fn covers(self, other: Selection) -> bool {
        self.min_cursor().at_or_before(other.min_cursor()) && other.max_cursor().at_or_before(
            self.max_cursor(),
        )
    }

    pub fn new(anchor: ByteCursor, focus: ByteCursor) -> (r: Self)
        ensures
            r == Selection::fresh(anchor, focus),
    {
        Selection { anchor, focus, h_pos: None, anchor_base: AnchorBase::Cluster }
    }

    /// When selecting with a mouse, this is where the mouse was first pressed.
    /// This part of the cursor does not move when shift is down.
    #[inline]
    pub fn anchor(&self) -> (r: ByteCursor)
        ensures
            r == self.anchor,
    {
        self.anchor
    }

    /// When selecting with a mouse, this is where the mouse was released.
    /// When moving with e.g. shift+arrows, this is what moves.
    /// Note that the two ends can come in any order, and also be equal (no selection).
    #[inline]
    pub fn focus(&self) -> (r: ByteCursor)
        ensures
            r == self.focus,
    {
        self.focus
    }

    /// The focus under its former name; use `focus` instead.
    pub fn primary(&self) -> (r: ByteCursor)
        ensures
            r == self.focus,
    {
        self.focus
    }

    /// The anchor under its former name; use `anchor` instead.
    pub fn secondary(&self) -> (r: ByteCursor)
        ensures
            r == self.anchor,
    {
        self.anchor
    }

    /// Does this selection contain any characters, or is it empty (both ends are the same)?
    #[inline]
    pub fn is_empty(&self) -> (r: bool)
        ensures
            r == (self.anchor.index == self.focus.index),
    {
        self.anchor.index == self.focus.index
    }

    /// The two ends, the first in the cursor order first.
    #[inline]
    pub fn sorted_cursors(&self) -> (r: [ByteCursor; 2])
        ensures
            r[0] == self.min_cursor(),
            r[1] == self.max_cursor(),
    {
        if self.anchor() < self.focus() {
            [self.anchor(), self.focus()]
        } else {
            [self.focus(), self.anchor()]
        }
    }

    /// The byte range between the two ends.
    #[inline]
    pub fn byte_range(&self) -> (r: core::ops::Range<usize>)
        ensures
            r.start == self.min_cursor().index,
            r.end == self.max_cursor().index,
    {
        let sorted = self.sorted_cursors();
        sorted[0].index..sorted[1].index
    }

    /// Is `other` within this selection, comparing the ends in the cursor order?
    pub fn contains(&self, other: &Self) -> (r: bool)
        ensures
            r == self.covers(*other),
    {
        let mine = self.sorted_cursors();
        let theirs = other.sorted_cursors();
        theirs[0] >= mine[0] && theirs[1] <= mine[1]
    }

    /// The selected part of `text`, whose bytes the cursors index.
    #[inline]
    pub fn slice_str<'s>(&self, text: &'s str) -> (r: &'s str)
        requires
            self.max_cursor().index <= text.spec_bytes().len(),
            is_char_boundary(text.spec_bytes(), self.min_cursor().index as int),
            is_char_boundary(text.spec_bytes(), self.max_cursor().index as int),
        ensures
            r.spec_bytes() == text.spec_bytes().subrange(
                self.min_cursor().index as int,
                self.max_cursor().index as int,
            ),
    {
        let range = self.byte_range();
        let ghost bytes = text.spec_bytes();
        proof {
            encode_utf8_valid_utf8(text@);
        }
        let (_, rest) = text.split_at(range.start);
        proof {
            valid_utf8_split(bytes, range.start as int);
            let rest_bytes = bytes.subrange(range.start as int, bytes.len() as int);
            let k = range.end - range.start;
            if range.end as int == bytes.len() {
                is_char_boundary_start_end_of_seq(rest_bytes);
            } else {
                is_char_boundary_iff_not_is_continuation_byte(bytes, range.end as int);
                is_char_boundary_iff_not_is_continuation_byte(rest_bytes, k);
                assert(rest_bytes[k] == bytes[range.end as int]);
            }
        }
        let (middle, _) = rest.split_at(range.end - range.start);
        assert(middle.spec_bytes() =~= bytes.subrange(range.start as int, range.end as int));
        middle
    }

    /// Collapses this selection into an empty one around its [`Self::focus()`].
    #[inline]
    pub fn collapse(&self) -> (r: Self)
        ensures
            r == Selection::fresh(self.focus, self.focus),
    {
        Self::new(self.focus, self.focus)
    }

    /// The selection with its focus moved to `focus`, keeping the anchor if `extend`,
    /// and else collapsed at `focus`.
    pub fn maybe_extend(&self, focus: ByteCursor, extend: bool) -> (r: Self)
        ensures
            r == (if extend {
                Selection::fresh(self.anchor, focus)
            } else {
                Selection::fresh(focus, focus)
            }),
    {
        if extend {
            Self::new(self.anchor, focus)
        } else {
            Self::new(focus, focus)
        }
    }
}

impl Default for Selection {
    fn default() -> (r: Self)
        ensures
            r == Selection::fresh(
                ByteCursor { index: 0, affinity: Affinity::Downstream },
                ByteCursor { index: 0, affinity: Affinity::Downstream },
            ),
    {
        Selection {
            anchor: ByteCursor::default(),
            focus: ByteCursor::default(),
            h_pos: None,
            anchor_base: AnchorBase::default(),
        }
    }
}

impl PartialEq for Selection {
    fn eq(&self, other: &Self) -> (r: bool) {
        self.anchor == other.anchor && self.focus == other.focus
    }
}

impl Eq for Selection {

}

impl vstd::std_specs::cmp::PartialEqSpecImpl for Selection {
    open spec fn obeys_eq_spec() -> bool {
        true
    }

    open spec fn eq_spec(&self, other: &Self) -> bool {
        self.same_ends(*other)
    }
}

} // verus!
