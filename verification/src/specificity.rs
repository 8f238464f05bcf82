//! The rank of a selector among those that match the same node.

use vstd::prelude::*;
use core::cmp::Ordering;
use vstd::std_specs::cmp::{PartialEqSpecImpl, PartialOrdSpecImpl};

verus! {

/// How specific a selector is: whether it names an id, how many classes and
/// pseudo-classes it asks for, and whether it names an element.
///
/// Specificities are ordered by the first part, then by the second, then by
/// the third.
#[derive(Clone, Copy, Debug, Eq, Ord, Hash)]
pub struct Specificity(pub [u8; 3]);

/// The order of two triples: by the first part, ties by the second, then by
/// the third.
pub open spec fn lexicographic(a: [u8; 3], b: [u8; 3]) -> Ordering {
    if a[0] != b[0] {
        if a[0] < b[0] {
            Ordering::Less
        } else {
            Ordering::Greater
        }
    } else if a[1] != b[1] {
        if a[1] < b[1] {
            Ordering::Less
        } else {
            Ordering::Greater
        }
    } else if a[2] != b[2] {
        if a[2] < b[2] {
            Ordering::Less
        } else {
            Ordering::Greater
        }
    } else {
        Ordering::Equal
    }
}

/// The first part decides the order, the second where the first parts are
/// equal, and the third where both are: an id outranks any number of
/// classes, and a class outranks an element.
pub proof fn lemma_order_by_parts(a: [u8; 3], b: [u8; 3])
    ensures
        a[0] > b[0] ==> lexicographic(a, b) == Ordering::Greater,
        a[0] == b[0] && a[1] > b[1] ==> lexicographic(a, b) == Ordering::Greater,
        a[0] == b[0] && a[1] == b[1] && a[2] > b[2] ==> lexicographic(a, b) == Ordering::Greater,
        lexicographic(a, b) == Ordering::Equal <==> a[0] == b[0] && a[1] == b[1] && a[2] == b[2],
        lexicographic(a, b) == Ordering::Less <==> lexicographic(b, a) == Ordering::Greater,
{
}

impl PartialEqSpecImpl for Specificity {
    open spec fn obeys_eq_spec() -> bool {
        true
    }

    open spec fn eq_spec(&self, other: &Specificity) -> bool {
        self.0[0] == other.0[0] && self.0[1] == other.0[1] && self.0[2] == other.0[2]
    }
}

impl PartialEq for Specificity {
    fn eq(&self, other: &Specificity) -> (r: bool) {
        self.0[0] == other.0[0] && self.0[1] == other.0[1] && self.0[2] == other.0[2]
    }
}

impl PartialOrdSpecImpl for Specificity {
    open spec fn obeys_partial_cmp_spec() -> bool {
        true
    }

    open spec fn partial_cmp_spec(&self, other: &Specificity) -> Option<Ordering> {
        Some(lexicographic(self.0, other.0))
    }
}

impl PartialOrd for Specificity {
    fn partial_cmp(&self, other: &Specificity) -> (r: Option<Ordering>) {
        let mut i: usize = 0;
        while i < 3
            invariant
                i <= 3,
                forall|j: int| 0 <= j < i ==> self.0[j] == other.0[j],
            decreases 3 - i,
        {
            if self.0[i] < other.0[i] {
                return Some(Ordering::Less);
            }
            if self.0[i] > other.0[i] {
                return Some(Ordering::Greater);
            }
            i += 1;
        }
        Some(Ordering::Equal)
    }
}

} // verus!
