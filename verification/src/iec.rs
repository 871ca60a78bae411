//! The scaled value: a magnitude divided by the divisor of its unit.

use vstd::arithmetic::div_mod::{
    lemma_div_by_multiple, lemma_fundamental_div_mod, lemma_mod_multiples_basic,
};
use vstd::prelude::*;

use crate::prefix::{
    bucket, divisor, divisor_for_bucket, iec_position, lemma_divisor_product,
    lemma_divisor_values, ABOVE_TABLE,
};

verus! {

/// The number one in the scale of the payloads: `2^60`, which is `1024^6`.
pub const ONE: u128 = 1152921504606846976;

/// A magnitude scaled to a binary-prefixed unit.
///
/// The variant is the unit. Its payload is the magnitude divided by the unit's
/// divisor, held as a binary fixed-point number with 60 fractional bits: a
/// payload `p` stands for `p / 2^60`. The divisors are powers of two up to
/// `2^60`, so the quotient of any 64-bit magnitude is held exactly.
#[derive(Clone, Copy, Debug, PartialEq, Eq, Structural)]
pub enum IEC {
    B(u128),
    KiB(u128),
    MiB(u128),
    GiB(u128),
    TiB(u128),
    PiB(u128),
    EiB(u128),
}

/// The refusal of a signed magnitude below zero.
#[derive(Clone, Copy, Debug, PartialEq, Eq, Structural)]
pub struct NegativeMagnitude;

/// The unit a magnitude is shown in: its bucket, and exbibytes for every
/// magnitude above the table. A `u64` is less than 16 EiB, so nothing larger
/// than exbibytes is ever needed.
pub open spec fn unit_of(x: nat) -> nat {
    if bucket(x) == ABOVE_TABLE {
        6
    } else {
        bucket(x)
    }
}

proof fn lemma_same_product(x: int, d: int, c: int)
    by (nonlinear_arith)
    requires
        d == c,
    ensures
        x * d == x * c,
{
}

impl IEC {
    /// The index of the unit: 0 for bytes up to 6 for exbibytes.
    pub open spec fn unit(self) -> nat {
        match self {
            IEC::B(_) => 0,
            IEC::KiB(_) => 1,
            IEC::MiB(_) => 2,
            IEC::GiB(_) => 3,
            IEC::TiB(_) => 4,
            IEC::PiB(_) => 5,
            IEC::EiB(_) => 6,
        }
    }

    /// The payload, whichever the unit.
    pub open spec fn payload(self) -> nat {
        match self {
            IEC::B(p) => p as nat,
            IEC::KiB(p) => p as nat,
            IEC::MiB(p) => p as nat,
            IEC::GiB(p) => p as nat,
            IEC::TiB(p) => p as nat,
            IEC::PiB(p) => p as nat,
            IEC::EiB(p) => p as nat,
        }
    }

    /// The value with unit `unit` and payload `payload`; exbibytes for any
    /// index past 5.
    pub open spec fn in_unit(unit: nat, payload: u128) -> IEC {
        if unit == 0 {
            IEC::B(payload)
        } else if unit == 1 {
            IEC::KiB(payload)
        } else if unit == 2 {
            IEC::MiB(payload)
        } else if unit == 3 {
            IEC::GiB(payload)
        } else if unit == 4 {
            IEC::TiB(payload)
        } else if unit == 5 {
            IEC::PiB(payload)
        } else {
            IEC::EiB(payload)
        }
    }

    /// The scaled value of the magnitude `x`: in unit `k = unit_of(x)`, the
    /// payload is `x / 1024^k`, which in the payload's scale is
    /// `x * 1024^(6-k)`.
    pub open spec fn of(x: u64) -> IEC {
        let k = unit_of(x as nat);
        IEC::in_unit(k, (x * divisor((6 - k) as nat)) as u128)
    }

    /// The magnitude that the payload is the quotient of.
    pub open spec fn magnitude(self) -> nat {
        self.payload() / divisor((6 - self.unit()) as nat)
    }

    /// A value is well formed when it is the scaled value of a 64-bit
    /// magnitude: the payload is a whole multiple of `1024^(6-k)`, and the
    /// magnitude it stands for belongs to the unit.
    pub open spec fn wf(self) -> bool {
        &&& self.payload() % divisor((6 - self.unit()) as nat) == 0
        &&& self.magnitude() <= u64::MAX
        &&& unit_of(self.magnitude()) == self.unit()
    }

    /// Scales `x` to its unit. Magnitudes of `1024^6` and more, for which the
    /// bucket scan finds no entry, are given in exbibytes.
    ///
    /// The result is well formed and stands for `x` exactly. Zero is zero
    /// bytes; any other payload is at least one and less than 1024.
    pub fn new(x: u64) -> (v: IEC)
        ensures
            v == IEC::of(x),
            v.wf(),
            v.magnitude() == x,
            v.payload() * divisor(v.unit()) == x * ONE,
            x == 0 ==> v == IEC::B(0),
            x > 0 ==> ONE <= v.payload() < 1024 * ONE,
    {
        let found = iec_position(x);
        let index: usize = if found == ABOVE_TABLE {
            6
        } else {
            found
        };
        let scale = divisor_for_bucket(6 - index);
        proof {
            lemma_divisor_values();
            assert(x * scale <= 0xffff_ffff_ffff_ffff * ONE) by (nonlinear_arith)
                requires
                    x <= 0xffff_ffff_ffff_ffff,
                    scale <= ONE,
            ;
            IEC::lemma_of_magnitude(x);
            IEC::lemma_payload_range(x);
        }
        let item: u128 = (x as u128) * (scale as u128);
        match index {
            0 => IEC::B(item),
            1 => IEC::KiB(item),
            2 => IEC::MiB(item),
            3 => IEC::GiB(item),
            4 => IEC::TiB(item),
            5 => IEC::PiB(item),
            _ => IEC::EiB(item),
        }
    }

    /// Scales a signed magnitude, refusing one below zero.
    pub fn from_signed(x: i64) -> (r: Result<IEC, NegativeMagnitude>)
        ensures
            x < 0 ==> r == Err::<IEC, NegativeMagnitude>(NegativeMagnitude),
            x >= 0 ==> r == Ok::<IEC, NegativeMagnitude>(IEC::of(x as u64)),
    {
        if x < 0 {
            Err(NegativeMagnitude)
        } else {
            Ok(IEC::new(x as u64))
        }
    }

    /// The index of the unit: 0 for bytes up to 6 for exbibytes.
    pub fn unit_index(&self) -> (k: usize)
        ensures
            k == self.unit(),
    {
        match *self {
            IEC::B(_) => 0,
            IEC::KiB(_) => 1,
            IEC::MiB(_) => 2,
            IEC::GiB(_) => 3,
            IEC::TiB(_) => 4,
            IEC::PiB(_) => 5,
            IEC::EiB(_) => 6,
        }
    }

    /// The payload, whichever the unit.
    pub fn get_val(&self) -> (p: u128)
        ensures
            p == self.payload(),
    {
        match *self {
            IEC::B(x) => x,
            IEC::KiB(x) => x,
            IEC::MiB(x) => x,
            IEC::GiB(x) => x,
            IEC::TiB(x) => x,
            IEC::PiB(x) => x,
            IEC::EiB(x) => x,
        }
    }

    /// The scaled value written out, unit by unit.
    pub proof fn lemma_of_by_unit(x: u64)
        ensures
            IEC::of(x).unit() == unit_of(x as nat),
            IEC::of(x).payload() == x * divisor((6 - unit_of(x as nat)) as nat),
            unit_of(x as nat) == 0 ==> IEC::of(x).payload() == x * 1152921504606846976,
            unit_of(x as nat) == 1 ==> IEC::of(x).payload() == x * 1125899906842624,
            unit_of(x as nat) == 2 ==> IEC::of(x).payload() == x * 1099511627776,
            unit_of(x as nat) == 3 ==> IEC::of(x).payload() == x * 1073741824,
            unit_of(x as nat) == 4 ==> IEC::of(x).payload() == x * 1048576,
            unit_of(x as nat) == 5 ==> IEC::of(x).payload() == x * 1024,
            unit_of(x as nat) == 6 ==> IEC::of(x).payload() == x,
    {
        lemma_divisor_values();
        let k = unit_of(x as nat);
        let d = divisor((6 - k) as nat);
        assert(x * d <= 0xffff_ffff_ffff_ffff * ONE) by (nonlinear_arith)
            requires
                x <= 0xffff_ffff_ffff_ffff,
                d <= ONE,
        ;
        assert(IEC::of(x).payload() == x * d);
        if k == 0 {
            lemma_same_product(x as int, d as int, 1152921504606846976);
        } else if k == 1 {
            lemma_same_product(x as int, d as int, 1125899906842624);
        } else if k == 2 {
            lemma_same_product(x as int, d as int, 1099511627776);
        } else if k == 3 {
            lemma_same_product(x as int, d as int, 1073741824);
        } else if k == 4 {
            lemma_same_product(x as int, d as int, 1048576);
        } else if k == 5 {
            lemma_same_product(x as int, d as int, 1024);
        } else {
            assert(x * d == x) by (nonlinear_arith)
                requires
                    d == 1,
            ;
        }
    }

    /// The scaled value of a magnitude is well formed, and gives the
    /// magnitude back: the payload times the unit's divisor is the magnitude,
    /// in the payload's scale. Within the table the unit's divisor is that of
    /// the magnitude's bucket.
    pub proof fn lemma_of_magnitude(x: u64)
        ensures
            IEC::of(x).wf(),
            IEC::of(x).magnitude() == x,
            IEC::of(x).payload() * divisor(IEC::of(x).unit()) == x * ONE,
            bucket(x as nat) != ABOVE_TABLE ==> IEC::of(x).payload() * divisor(bucket(x as nat))
                == x * ONE,
    {
        lemma_divisor_values();
        IEC::lemma_of_by_unit(x);
        let p = IEC::of(x).payload();
        let k = unit_of(x as nat);
        let up = divisor(k);
        let down = divisor((6 - k) as nat);
        lemma_divisor_product((6 - k) as nat, k);
        lemma_div_by_multiple(x as int, down as int);
        lemma_mod_multiples_basic(x as int, down as int);
        assert(p * up == x * ONE) by (nonlinear_arith)
            requires
                p == x * down,
                down * up == ONE,
        ;
    }

    /// A well-formed value is the scaled value of its magnitude, and of no
    /// other.
    pub proof fn lemma_wf_is_of(v: IEC)
        requires
            v.wf(),
        ensures
            v == IEC::of(v.magnitude() as u64),
    {
        lemma_divisor_values();
        let d = divisor((6 - v.unit()) as nat);
        lemma_fundamental_div_mod(v.payload() as int, d as int);
        assert(v.payload() == d * v.magnitude());
        assert(d * v.magnitude() == v.magnitude() * d) by (nonlinear_arith);
    }

    /// Zero is zero bytes. Any other magnitude has a payload of at least one
    /// and less than 1024.
    pub proof fn lemma_payload_range(x: u64)
        ensures
            x == 0 ==> IEC::of(x) == IEC::B(0),
            x > 0 ==> ONE <= IEC::of(x).payload() < 1024 * ONE,
    {
        lemma_divisor_values();
        IEC::lemma_of_by_unit(x);
    }

    /// From `1024^6` on, where the bucket scan finds no entry, the value is
    /// in exbibytes: the payload is the magnitude itself, below 16.
    pub proof fn lemma_above_table(x: u64)
        requires
            bucket(x as nat) == ABOVE_TABLE,
        ensures
            IEC::of(x) == IEC::EiB(x as u128),
            ONE <= IEC::of(x).payload() < 16 * ONE,
    {
        lemma_divisor_values();
        IEC::lemma_of_by_unit(x);
    }

    /// Scaling keeps the order of the magnitudes: the larger one has the
    /// higher unit, or the same unit and the larger payload.
    pub proof fn lemma_of_increasing(x: u64, y: u64)
        requires
            x < y,
        ensures
            IEC::of(x).unit() < IEC::of(y).unit() || (IEC::of(x).unit() == IEC::of(y).unit()
                && IEC::of(x).payload() < IEC::of(y).payload()),
    {
        lemma_divisor_values();
        IEC::lemma_of_by_unit(x);
        IEC::lemma_of_by_unit(y);
    }
}

} // verus!
