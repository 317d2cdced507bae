use vstd::prelude::*;
use core::cmp::Ordering;

verus! {

/// Determines whether a cursor is attached to the preceding or following character.
///
/// The variants are declared in the order `Upstream`, `Downstream`, which is their order.
#[derive(Clone, Copy, Debug, PartialEq, Eq, Structural, Ord)]
pub enum Affinity {
    /// The cursor is attached to the preceding character in the text.
    Upstream,
    /// The cursor is attached to the following character in the text (e.g. if it's positioned in the
    /// middle of a line wrap, it'll be on the bottom line).
    Downstream,
}

impl Affinity {
    /// The position of an affinity in the order `Upstream < Downstream`.
    pub open spec fn rank(self) -> int {
        match self {
            Affinity::Upstream => 0,
            Affinity::Downstream => 1,
        }
    }
}

/// The three-way comparison of two integers.
pub open spec fn compare_ints(a: int, b: int) -> Ordering {
    if a < b {
        Ordering::Less
    } else if a == b {
        Ordering::Equal
    } else {
        Ordering::Greater
    }
}

impl Default for Affinity {
    fn default() -> (r: Self)
        ensures
            r == Affinity::Downstream,
    {
        Affinity::Downstream
    }
}

impl PartialOrd for Affinity {
    fn partial_cmp(&self, other: &Self) -> (r: Option<Ordering>) {
        match (self, other) {
            (Affinity::Downstream, Affinity::Downstream) | (Affinity::Upstream, Affinity::Upstream) => {
                Some(Ordering::Equal)
            },
            (Affinity::Downstream, Affinity::Upstream) => Some(Ordering::Greater),
            (Affinity::Upstream, Affinity::Downstream) => Some(Ordering::Less),
        }
    }
}

impl vstd::std_specs::cmp::PartialOrdSpecImpl for Affinity {
    open spec fn obeys_partial_cmp_spec() -> bool {
        true
    }

    open spec fn partial_cmp_spec(&self, other: &Self) -> Option<Ordering> {
        Some(compare_ints(self.rank(), other.rank()))
    }
}

} // verus!
