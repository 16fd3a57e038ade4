//! Plain-value model of a block header and its epoch field.

use vstd::prelude::*;

verus! {

/// Position of a block inside a difficulty-adjustment window: the epoch's
/// number since genesis, the block's index within the epoch, and the epoch's
/// total length in blocks.
///
/// A field is only well formed when `length > 0 && index < length`; a value
/// violating that is representable and is rejected by the epoch check.
#[derive(Clone, Copy, Debug, PartialEq, Eq, Structural)]
pub struct EpochField {
    pub number: u64,
    pub index: u64,
    pub length: u64,
}

impl EpochField {
    pub fn new(number: u64, index: u64, length: u64) -> (r: EpochField)
        ensures
            r == (EpochField { number, index, length }),
    {
        EpochField { number, index, length }
    }
}

/// Immutable header of a candidate block, reduced to the values the
/// consensus checks read. The parent hash is the identifier under which the
/// median-time context looks ancestors up; the nonce is the opaque
/// proof-of-work material that only a `PowEngine` interprets.
#[derive(Clone, Copy, Debug, PartialEq, Eq, Structural)]
pub struct Header {
    pub version: u32,
    pub number: u64,
    pub timestamp: u64,
    pub epoch: EpochField,
    pub parent_hash: u64,
    pub nonce: u128,
}

impl Header {
    pub fn new(
        version: u32,
        number: u64,
        timestamp: u64,
        epoch: EpochField,
        parent_hash: u64,
        nonce: u128,
    ) -> (r: Header)
        ensures
            r == (Header { version, number, timestamp, epoch, parent_hash, nonce }),
    {
        Header { version, number, timestamp, epoch, parent_hash, nonce }
    }
}

} // verus!
