//! Deterministic stand-ins for the injected capabilities, so that callers
//! and tests can drive the checks without a real chain index or mining
//! algorithm. Both are ordinary implementations of the context traits,
//! verified like any other code here.

use vstd::prelude::*;
use crate::context::{MedianTimeContext, PowEngine};
use crate::header::Header;

verus! {

/// Window size the mock context serves for the median.
pub const MOCK_MEDIAN_BLOCK_COUNT: u64 = 11;

/// A chain view over a vector of timestamps: block number `n` (from 1) has
/// hash `n`, timestamp `timestamps[n - 1]`, and parent hash `n - 1`. A hash
/// outside the vector answers as a genesis block.
pub struct MockMedianTime {
    pub timestamps: Vec<u64>,
}

impl MockMedianTime {
    pub fn new(timestamps: Vec<u64>) -> (r: Self)
        ensures
            r.timestamps == timestamps,
    {
        MockMedianTime { timestamps }
    }

    /// The hash under which the mock serves block `block_number`.
    pub fn get_block_hash(block_number: u64) -> (r: u64)
        ensures
            r == block_number,
    {
        block_number
    }
}

impl MedianTimeContext for MockMedianTime {
    open spec fn spec_median_block_count(&self) -> u64 {
        MOCK_MEDIAN_BLOCK_COUNT
    }

    open spec fn spec_timestamp_and_parent(&self, block_hash: u64) -> (u64, u64, u64) {
        if 1 <= block_hash && block_hash <= self.timestamps@.len() {
            (self.timestamps@[block_hash - 1], block_hash, (block_hash - 1) as u64)
        } else {
            (0, 0, 0)
        }
    }

    fn median_block_count(&self) -> u64 {
        MOCK_MEDIAN_BLOCK_COUNT
    }

    fn timestamp_and_parent(&self, block_hash: u64) -> (u64, u64, u64) {
        if 1 <= block_hash && block_hash <= self.timestamps.len() as u64 {
            let i = (block_hash - 1) as usize;
            (self.timestamps[i], block_hash, block_hash - 1)
        } else {
            (0, 0, 0)
        }
    }
}

/// A proof-of-work engine with a fixed verdict, whatever the header holds:
/// the deterministic fake for driving the proof-of-work check.
pub struct FixedPowEngine {
    pub ok: bool,
}

impl FixedPowEngine {
    pub fn new(ok: bool) -> (r: Self)
        ensures
            r.ok == ok,
    {
        FixedPowEngine { ok }
    }
}

impl PowEngine for FixedPowEngine {
    open spec fn spec_verify(&self, header: Header) -> bool {
        self.ok
    }

    fn verify(&self, header: &Header) -> bool {
        self.ok
    }
}

} // verus!
