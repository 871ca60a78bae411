//! The order of scaled values: by unit, then by payload.

use core::cmp::Ordering;
use vstd::prelude::*;
use vstd::std_specs::cmp::PartialOrdSpec;

use crate::iec::IEC;

verus! {

impl PartialOrd for IEC {
    /// Compares the units, and the payloads where the units are the same.
    fn partial_cmp(&self, other: &Self) -> (r: Option<Ordering>) {
        let a = self.unit_index();
        let b = other.unit_index();
        let p = self.get_val();
        let q = other.get_val();
        if a < b || (a == b && p < q) {
            Some(Ordering::Less)
        } else if a == b && p == q {
            Some(Ordering::Equal)
        } else {
            Some(Ordering::Greater)
        }
    }
}

impl vstd::std_specs::cmp::PartialOrdSpecImpl for IEC {
    open spec fn obeys_partial_cmp_spec() -> bool {
        true
    }

    open spec fn partial_cmp_spec(&self, other: &Self) -> Option<Ordering> {
        if self.unit() < other.unit() || (self.unit() == other.unit() && self.payload()
            < other.payload()) {
            Some(Ordering::Less)
        } else if self.unit() == other.unit() && self.payload() == other.payload() {
            Some(Ordering::Equal)
        } else {
            Some(Ordering::Greater)
        }
    }
}

/// Within one unit the values are ordered as their payloads are.
pub proof fn lemma_same_unit_order(a: IEC, b: IEC)
    requires
        a.unit() == b.unit(),
    ensures
        a.partial_cmp_spec(&b) == Some(Ordering::Less) <==> a.payload() < b.payload(),
        a.partial_cmp_spec(&b) == Some(Ordering::Equal) <==> a.payload() == b.payload(),
        a.partial_cmp_spec(&b) == Some(Ordering::Greater) <==> a.payload() > b.payload(),
        a.partial_cmp_spec(&b) == Some(Ordering::Equal) <==> a == b,
{
}

/// Scaled values are ordered as the magnitudes they were made from.
pub proof fn lemma_order_follows_magnitude(x: u64, y: u64)
    ensures
        IEC::of(x).partial_cmp_spec(&IEC::of(y)) == Some(Ordering::Less) <==> x < y,
        IEC::of(x).partial_cmp_spec(&IEC::of(y)) == Some(Ordering::Equal) <==> x == y,
        IEC::of(x).partial_cmp_spec(&IEC::of(y)) == Some(Ordering::Greater) <==> x > y,
{
    if x < y {
        IEC::lemma_of_increasing(x, y);
    } else if y < x {
        IEC::lemma_of_increasing(y, x);
    }
}

} // verus!
