//! Binary-prefixed (IEC) rendering of unsigned magnitudes.
//!
//! A magnitude such as a byte count is placed in one of seven units, bytes up
//! to exbibytes, each 1024 times the one before, and shown with two decimals
//! and the unit's suffix: `5000` becomes `4.88KiB`.
//!
//! Two inputs need a decision, and this is what the library does with them:
//!
//! * A magnitude of `1024^6` or more lies above the last bucket that the
//!   table scan can report. It is given in exbibytes, so `u64::MAX` renders
//!   as `16.00EiB`.
//! * A signed magnitude below zero is refused with [`NegativeMagnitude`].
//!
//! Payloads are exact: the quotient of the magnitude by a power of 1024 is
//! kept as a binary fixed-point number, and rendering rounds that exact
//! quotient, half-way cases going to the even hundredth.

pub mod convert;
pub mod iec;
pub mod order;
pub mod prefix;
pub mod render;

pub use iec::{NegativeMagnitude, IEC};
pub use prefix::iec_position;
