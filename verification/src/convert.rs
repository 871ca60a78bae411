//! Scaled values from the integer types: from the unsigned ones always, from
//! the signed ones unless the value is below zero.

use vstd::prelude::*;
use vstd::std_specs::convert::{FromSpecImpl, TryFromSpecImpl};

use crate::iec::{NegativeMagnitude, IEC};

verus! {

impl From<u8> for IEC {
    fn from(x: u8) -> (v: IEC) {
        IEC::new(x as u64)
    }
}

impl FromSpecImpl<u8> for IEC {
    open spec fn obeys_from_spec() -> bool {
        true
    }

    open spec fn from_spec(x: u8) -> IEC {
        IEC::of(x as u64)
    }
}

impl From<u16> for IEC {
    fn from(x: u16) -> (v: IEC) {
        IEC::new(x as u64)
    }
}

impl FromSpecImpl<u16> for IEC {
    open spec fn obeys_from_spec() -> bool {
        true
    }

    open spec fn from_spec(x: u16) -> IEC {
        IEC::of(x as u64)
    }
}

impl From<u32> for IEC {
    fn from(x: u32) -> (v: IEC) {
        IEC::new(x as u64)
    }
}

impl FromSpecImpl<u32> for IEC {
    open spec fn obeys_from_spec() -> bool {
        true
    }

    open spec fn from_spec(x: u32) -> IEC {
        IEC::of(x as u64)
    }
}

impl From<u64> for IEC {
    fn from(x: u64) -> (v: IEC) {
        IEC::new(x)
    }
}

impl FromSpecImpl<u64> for IEC {
    open spec fn obeys_from_spec() -> bool {
        true
    }

    open spec fn from_spec(x: u64) -> IEC {
        IEC::of(x)
    }
}

impl From<usize> for IEC {
    fn from(x: usize) -> (v: IEC) {
        IEC::new(x as u64)
    }
}

impl FromSpecImpl<usize> for IEC {
    open spec fn obeys_from_spec() -> bool {
        true
    }

    open spec fn from_spec(x: usize) -> IEC {
        IEC::of(x as u64)
    }
}

impl TryFrom<i8> for IEC {
    type Error = NegativeMagnitude;

    fn try_from(x: i8) -> (r: Result<IEC, NegativeMagnitude>) {
        IEC::from_signed(x as i64)
    }
}

impl TryFromSpecImpl<i8> for IEC {
    open spec fn obeys_try_from_spec() -> bool {
        true
    }

    open spec fn try_from_spec(x: i8) -> Result<IEC, NegativeMagnitude> {
        if x < 0 {
            Err(NegativeMagnitude)
        } else {
            Ok(IEC::of(x as u64))
        }
    }
}

impl TryFrom<i16> for IEC {
    type Error = NegativeMagnitude;

    fn try_from(x: i16) -> (r: Result<IEC, NegativeMagnitude>) {
        IEC::from_signed(x as i64)
    }
}

impl TryFromSpecImpl<i16> for IEC {
    open spec fn obeys_try_from_spec() -> bool {
        true
    }

    open spec fn try_from_spec(x: i16) -> Result<IEC, NegativeMagnitude> {
        if x < 0 {
            Err(NegativeMagnitude)
        } else {
            Ok(IEC::of(x as u64))
        }
    }
}

impl TryFrom<i32> for IEC {
    type Error = NegativeMagnitude;

    fn try_from(x: i32) -> (r: Result<IEC, NegativeMagnitude>) {
        IEC::from_signed(x as i64)
    }
}

impl TryFromSpecImpl<i32> for IEC {
    open spec fn obeys_try_from_spec() -> bool {
        true
    }

    open spec fn try_from_spec(x: i32) -> Result<IEC, NegativeMagnitude> {
        if x < 0 {
            Err(NegativeMagnitude)
        } else {
            Ok(IEC::of(x as u64))
        }
    }
}

impl TryFrom<i64> for IEC {
    type Error = NegativeMagnitude;

    fn try_from(x: i64) -> (r: Result<IEC, NegativeMagnitude>) {
        IEC::from_signed(x)
    }
}

impl TryFromSpecImpl<i64> for IEC {
    open spec fn obeys_try_from_spec() -> bool {
        true
    }

    open spec fn try_from_spec(x: i64) -> Result<IEC, NegativeMagnitude> {
        if x < 0 {
            Err(NegativeMagnitude)
        } else {
            Ok(IEC::of(x as u64))
        }
    }
}

impl TryFrom<isize> for IEC {
    type Error = NegativeMagnitude;

    fn try_from(x: isize) -> (r: Result<IEC, NegativeMagnitude>) {
        IEC::from_signed(x as i64)
    }
}

impl TryFromSpecImpl<isize> for IEC {
    open spec fn obeys_try_from_spec() -> bool {
        true
    }

    open spec fn try_from_spec(x: isize) -> Result<IEC, NegativeMagnitude> {
        if x < 0 {
            Err(NegativeMagnitude)
        } else {
            Ok(IEC::of(x as u64))
        }
    }
}

} // verus!
