//! Rendering: the payload rounded to two decimals, then the unit's suffix.

use vstd::prelude::*;

use crate::iec::{IEC, ONE};
use crate::prefix::{bucket, lemma_divisor_values};

verus! {

/// The character of a decimal digit.
pub open spec fn digit(d: nat) -> char {
    if d == 0 {
        '0'
    } else if d == 1 {
        '1'
    } else if d == 2 {
        '2'
    } else if d == 3 {
        '3'
    } else if d == 4 {
        '4'
    } else if d == 5 {
        '5'
    } else if d == 6 {
        '6'
    } else if d == 7 {
        '7'
    } else if d == 8 {
        '8'
    } else {
        '9'
    }
}

/// The decimal numeral of `n`, without leading zeros; `0` for zero.
pub open spec fn decimal(n: nat) -> Seq<char>
    decreases n,
{
    if n < 10 {
        seq![digit(n)]
    } else {
        decimal(n / 10).push(digit(n % 10))
    }
}

/// The payload `p` in hundredths, rounded to the nearest; a payload exactly
/// half way between two hundredths goes to the even one.
pub open spec fn hundredths(p: nat) -> nat {
    let q = (p * 100) / (ONE as nat);
    let r = (p * 100) % (ONE as nat);
    if 2 * r > ONE || (2 * r == ONE && q % 2 == 1) {
        q + 1
    } else {
        q
    }
}

/// The suffix of the unit with index `unit`.
pub open spec fn suffix_of(unit: nat) -> Seq<char> {
    if unit == 0 {
        seq!['B']
    } else if unit == 1 {
        seq!['K', 'i', 'B']
    } else if unit == 2 {
        seq!['M', 'i', 'B']
    } else if unit == 3 {
        seq!['G', 'i', 'B']
    } else if unit == 4 {
        seq!['T', 'i', 'B']
    } else if unit == 5 {
        seq!['P', 'i', 'B']
    } else {
        seq!['E', 'i', 'B']
    }
}

/// The text of a number of hundredths: the whole part, a point, two digits.
pub open spec fn fixed_two(h: nat) -> Seq<char> {
    decimal(h / 100).push('.').push(digit(h / 10 % 10)).push(digit(h % 10))
}

/// Rounds a payload to hundredths.
pub fn round_hundredths(p: u128) -> (h: u128)
    ensures
        h == hundredths(p as nat),
{
    let whole: u128 = p / ONE;
    let part: u128 = p % ONE;
    let q: u128 = whole * 100 + (part * 100) / ONE;
    let r: u128 = (part * 100) % ONE;
    let half: u128 = ONE / 2;
    if r > half || (r == half && q % 2 == 1) {
        q + 1
    } else {
        q
    }
}

fn digit_str(d: u128) -> (s: &'static str)
    requires
        d < 10,
    ensures
        s@ == seq![digit(d as nat)],
{
    proof {
        reveal_strlit("0");
        reveal_strlit("1");
        reveal_strlit("2");
        reveal_strlit("3");
        reveal_strlit("4");
        reveal_strlit("5");
        reveal_strlit("6");
        reveal_strlit("7");
        reveal_strlit("8");
        reveal_strlit("9");
    }
    let s = if d == 0 {
        "0"
    } else if d == 1 {
        "1"
    } else if d == 2 {
        "2"
    } else if d == 3 {
        "3"
    } else if d == 4 {
        "4"
    } else if d == 5 {
        "5"
    } else if d == 6 {
        "6"
    } else if d == 7 {
        "7"
    } else if d == 8 {
        "8"
    } else {
        "9"
    };
    assert(s@ =~= seq![digit(d as nat)]);
    s
}

fn push_decimal(s: &mut String, n: u128)
    ensures
        final(s)@ == old(s)@ + decimal(n as nat),
    decreases n,
{
    if n >= 10 {
        push_decimal(s, n / 10);
    }
    s.append(digit_str(n % 10));
    assert(final(s)@ =~= old(s)@ + decimal(n as nat));
}

/// Below 1024 a magnitude is in the lowest bucket and is given in bytes: its
/// text is its decimal numeral, `.00`, and `B`.
pub proof fn lemma_bytes(x: u64)
    requires
        x <= 1023,
    ensures
        bucket(x as nat) == 0,
        IEC::of(x) == IEC::B((x * ONE) as u128),
        IEC::of(x).rendered() == decimal(x as nat) + seq!['.', '0', '0', 'B'],
{
    lemma_divisor_values();
    let h = hundredths(IEC::of(x).payload());
    assert(h == x * 100);
    assert(IEC::of(x).rendered() =~= decimal(x as nat) + seq!['.', '0', '0', 'B']);
}

/// From 1024 up to `1024^2 - 1` a magnitude is in bucket 1 and is given in
/// kibibytes: the payload is `x / 1024`, at least one and less than 1024,
/// and the text ends in `KiB`.
pub proof fn lemma_kibibytes(x: u64)
    requires
        1024 <= x <= 1024 * 1024 - 1,
    ensures
        bucket(x as nat) == 1,
        IEC::of(x) is KiB,
        IEC::of(x).payload() * 1024 == x * ONE,
        ONE <= IEC::of(x).payload() < 1024 * ONE,
        IEC::of(x).rendered() == fixed_two(hundredths(IEC::of(x).payload())) + seq!['K', 'i', 'B'],
{
    lemma_divisor_values();
    IEC::lemma_of_by_unit(x);
}

impl IEC {
    /// The text of the value: the payload to two decimals, then the suffix.
    pub open spec fn rendered(self) -> Seq<char> {
        fixed_two(hundredths(self.payload())) + suffix_of(self.unit())
    }

    /// The suffix of the unit: `B`, `KiB`, `MiB`, `GiB`, `TiB`, `PiB` or `EiB`.
    pub fn suffix(&self) -> (s: &'static str)
        ensures
            s@ == suffix_of(self.unit()),
    {
        proof {
            reveal_strlit("B");
            reveal_strlit("KiB");
            reveal_strlit("MiB");
            reveal_strlit("GiB");
            reveal_strlit("TiB");
            reveal_strlit("PiB");
            reveal_strlit("EiB");
        }
        let s = match *self {
            IEC::B(_) => "B",
            IEC::KiB(_) => "KiB",
            IEC::MiB(_) => "MiB",
            IEC::GiB(_) => "GiB",
            IEC::TiB(_) => "TiB",
            IEC::PiB(_) => "PiB",
            IEC::EiB(_) => "EiB",
        };
        assert(s@ =~= suffix_of(self.unit()));
        s
    }

    /// Renders the value: `4.88KiB` for 5000.
    pub fn to_display_string(&self) -> (s: String)
        ensures
            s@ == self.rendered(),
    {
        let h = round_hundredths(self.get_val());
        let mut s = String::new();
        push_decimal(&mut s, h / 100);
        s.append(".");
        s.append(digit_str(h / 10 % 10));
        s.append(digit_str(h % 10));
        s.append(self.suffix());
        proof {
            reveal_strlit(".");
            assert(s@ =~= self.rendered());
        }
        s
    }
}

} // verus!
