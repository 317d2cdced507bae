use vstd::prelude::*;
use core::cmp::Ordering;
use crate::affinity::Affinity;

verus! {

/// Byte-index-based text cursor.
///
/// Cursors are ordered by their index first and then by their affinity, with
/// `Affinity::Upstream < Affinity::Downstream`.
#[derive(Clone, Copy, Debug, PartialEq, Eq, Structural, Ord)]
pub struct ByteCursor {
    pub index: usize,
    pub affinity: Affinity,
}

impl ByteCursor {
    /// The cursor at the start of the text.
    pub fn start() -> (r: ByteCursor)
        ensures
            r == (ByteCursor { index: 0, affinity: Affinity::Downstream }),
    {
        ByteCursor { index: 0, affinity: Affinity::Downstream }
    }

    /// The cursor past the end of any text.
    pub fn end() -> (r: ByteCursor)
        ensures
            r == (ByteCursor { index: usize::MAX, affinity: Affinity::Downstream }),
    {
        ByteCursor { index: usize::MAX, affinity: Affinity::Downstream }
    }

    /// `self` comes strictly before `other` in the cursor order.
    pub open spec fn before(self, other: ByteCursor) -> bool {
        ||| self.index < other.index
        ||| (self.index == other.index && self.affinity.rank() < other.affinity.rank())
    }

    /// `self` comes before `other` in the cursor order, or equals it.
    pub open spec fn at_or_before(self, other: ByteCursor) -> bool {
        self.before(other) || self == other
    }

    /// The affinity a cursor gets when it moves onto a cluster in the given direction.
    ///
    /// Moving right over right-to-left text, or left over left-to-right text, attaches the
    /// cursor to the following character; the other two cases attach it to the preceding one.
    pub open spec fn direction_affinity(is_rtl: bool, moving_right: bool) -> Affinity {
        if is_rtl == moving_right {
            Affinity::Downstream
        } else {
            Affinity::Upstream
        }
    }

    /// The affinity a cursor gets when it moves onto a cluster in the given direction.
    pub fn affinity_for_dir(is_rtl: bool, moving_right: bool) -> (r: Affinity)
        ensures
            r == ByteCursor::direction_affinity(is_rtl, moving_right),
    {
        match (is_rtl, moving_right) {
            (true, true) | (false, false) => Affinity::Downstream,
            _ => Affinity::Upstream,
        }
    }

    /// The three-way comparison of two cursors: by index, then by affinity.
    pub open spec fn compare(self, other: ByteCursor) -> Ordering {
        if self.before(other) {
            Ordering::Less
        } else if self == other {
            Ordering::Equal
        } else {
            Ordering::Greater
        }
    }
}

impl Default for ByteCursor {
    fn default() -> (r: Self)
        ensures
            r == (ByteCursor { index: 0, affinity: Affinity::Downstream }),
    {
        ByteCursor { index: 0, affinity: Affinity::Downstream }
    }
}

impl PartialOrd for ByteCursor {
    fn partial_cmp(&self, other: &Self) -> (r: Option<Ordering>) {
        if self.index < other.index {
            Some(Ordering::Less)
        } else if self.index > other.index {
            Some(Ordering::Greater)
        } else {
            self.affinity.partial_cmp(&other.affinity)
        }
    }
}

impl vstd::std_specs::cmp::PartialOrdSpecImpl for ByteCursor {
    open spec fn obeys_partial_cmp_spec() -> bool {
        true
    }

    open spec fn partial_cmp_spec(&self, other: &Self) -> Option<Ordering> {
        Some(self.compare(*other))
    }
}

} // verus!
