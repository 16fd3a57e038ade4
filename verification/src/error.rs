//! Error taxonomy of the header checks. Each failure is a distinct,
//! data-carrying kind holding the exact values that were compared, so a
//! caller can branch on it and surface the rejection without re-deriving
//! anything.

use vstd::prelude::*;
use crate::header::EpochField;

verus! {

/// The header's protocol version differs from the version this node expects.
#[derive(Clone, Copy, Debug, PartialEq, Eq, Structural)]
pub struct BlockVersionError {
    pub expected: u32,
    pub actual: u32,
}

/// The header's height is not exactly one above the parent's.
#[derive(Clone, Copy, Debug, PartialEq, Eq, Structural)]
pub struct NumberError {
    pub expected: u64,
    pub actual: u64,
}

/// The header's epoch field is rejected.
#[derive(Clone, Copy, Debug, PartialEq, Eq, Structural)]
pub enum EpochError {
    /// The field cannot represent a valid position: `length == 0` or
    /// `index >= length`, whatever the parent holds.
    Malformed { value: EpochField },
    /// The field does not follow the parent by a same-epoch advance or an
    /// epoch rollover.
    NonContinuous { current: EpochField, parent: EpochField },
}

/// The header's timestamp lies outside the admissible window.
#[derive(Clone, Copy, Debug, PartialEq, Eq, Structural)]
pub enum TimestampError {
    /// Below the median-time floor of the ancestor blocks.
    BlockTimeTooOld { min: u64, actual: u64 },
    /// Above the future-time ceiling drawn from the wall clock.
    BlockTimeTooNew { max: u64, actual: u64 },
}

/// The proof-of-work engine rejected the header.
#[derive(Clone, Copy, Debug, PartialEq, Eq, Structural)]
pub enum PowError {
    InvalidNonce,
}

/// Verdict of the whole pipeline: the first failing check's error, in the
/// fixed order version, number, epoch, timestamp, proof-of-work.
#[derive(Clone, Copy, Debug, PartialEq, Eq, Structural)]
pub enum HeaderError {
    Version(BlockVersionError),
    Number(NumberError),
    Epoch(EpochError),
    Timestamp(TimestampError),
    Pow(PowError),
}

} // verus!
