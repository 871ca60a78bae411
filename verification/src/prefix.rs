//! The table of divisors and the choice of a bucket for a magnitude.

use vstd::prelude::*;

verus! {

/// The bucket reported for a magnitude of `1024^6` or more. The scan stops
/// one short of the last table entry, so no in-table bucket claims such a
/// magnitude.
pub const ABOVE_TABLE: usize = 7;

/// The divisors of the seven units: `1024^0` up to `1024^6`.
pub const IEC_PREFIX: [u64; 7] = [
    1,
    1024,
    1048576,
    1073741824,
    1099511627776,
    1125899906842624,
    1152921504606846976,
];

/// `1024^i`.
pub open spec fn divisor(i: nat) -> nat
    decreases i,
{
    if i == 0 {
        1
    } else {
        1024 * divisor((i - 1) as nat)
    }
}

/// The bucket of a magnitude: the `i` in `0..=5` with
/// `1024^i <= x < 1024^(i+1)`, bucket 0 also taking `x == 0`, and
/// `ABOVE_TABLE` from `1024^6` on.
pub open spec fn bucket(x: nat) -> nat {
    if x < divisor(1) {
        0
    } else if x < divisor(2) {
        1
    } else if x < divisor(3) {
        2
    } else if x < divisor(4) {
        3
    } else if x < divisor(5) {
        4
    } else if x < divisor(6) {
        5
    } else {
        ABOVE_TABLE as nat
    }
}

/// The powers of 1024 that the table holds, written out.
pub proof fn lemma_divisor_values()
    ensures
        divisor(0) == 1,
        divisor(1) == 1024,
        divisor(2) == 1048576,
        divisor(3) == 1073741824,
        divisor(4) == 1099511627776,
        divisor(5) == 1125899906842624,
        divisor(6) == 1152921504606846976,
{
    reveal_with_fuel(divisor, 7);
}

/// Divisors multiply as powers do: `1024^i * 1024^j == 1024^(i+j)`.
pub proof fn lemma_divisor_product(i: nat, j: nat)
    ensures
        divisor(i) * divisor(j) == divisor(i + j),
    decreases i,
{
    let b = divisor(j);
    if i == 0 {
        assert(1 * b == b) by (nonlinear_arith);
    } else {
        lemma_divisor_product((i - 1) as nat, j);
        let a = divisor((i - 1) as nat);
        assert(((i - 1) as nat) + j == (i + j - 1) as nat);
        assert(divisor(i + j) == 1024 * divisor((i + j - 1) as nat));
        assert((1024 * a) * b == 1024 * (a * b)) by (nonlinear_arith);
    }
}

/// A bucket within the table is the half-open range between two neighbouring
/// powers of 1024, lower bound included; zero goes with the lowest bucket;
/// `ABOVE_TABLE` is reported from `1024^6` on and never below.
pub proof fn lemma_bucket_bounds(x: nat)
    ensures
        bucket(x) <= 5 || bucket(x) == ABOVE_TABLE,
        bucket(x) == ABOVE_TABLE <==> x >= divisor(6),
        bucket(x) <= 5 ==> x < divisor(bucket(x) + 1),
        bucket(x) <= 5 && x > 0 ==> divisor(bucket(x)) <= x,
        x == 0 ==> bucket(x) == 0,
{
    lemma_divisor_values();
}

/// No other bucket than `bucket(x)` has `x` in its range.
pub proof fn lemma_bucket_unique(x: nat, i: nat)
    requires
        i <= 5,
        divisor(i) <= x < divisor(i + 1),
    ensures
        bucket(x) == i,
{
    lemma_divisor_values();
}

/// A larger magnitude never falls into a lower bucket.
pub proof fn lemma_bucket_monotone(x1: nat, x2: nat)
    requires
        x1 <= x2,
    ensures
        bucket(x1) <= bucket(x2),
{
    lemma_divisor_values();
}

/// The divisor of unit `i`, read from the table.
pub fn divisor_for_bucket(i: usize) -> (d: u64)
    requires
        i <= 6,
    ensures
        d == divisor(i as nat),
{
    proof {
        lemma_divisor_values();
    }
    IEC_PREFIX[i]
}

/// Finds the bucket of `x` by scanning the table upwards: the first bucket
/// whose upper bound lies above `x`. The buckets below have been passed by
/// then, so `x` is at least its lower bound, or zero in the lowest.
pub fn iec_position(x: u64) -> (r: usize)
    ensures
        r == bucket(x as nat),
{
    let mut item: usize = 0;
    while item < 6
        invariant
            item <= 6,
            item > 0 ==> x >= divisor(item as nat),
        decreases 6 - item,
    {
        if x < divisor_for_bucket(item + 1) {
            proof {
                lemma_divisor_values();
            }
            return item;
        }
        item = item + 1;
    }
    proof {
        lemma_divisor_values();
    }
    ABOVE_TABLE
}

} // verus!
