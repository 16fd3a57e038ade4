//! Capabilities the checks depend on: a read view over already-accepted
//! chain state for median-time lookups, and a pluggable proof-of-work
//! engine. Both are injected by the caller; the core never reaches into
//! ambient state, so deterministic implementations can stand in for them.

use vstd::prelude::*;
use crate::header::Header;

verus! {

/// Read view over the accepted ancestor chain, keyed by block hash. It
/// serves, for a given hash, the block's timestamp, its height, and its
/// parent's hash, from already-materialized in-memory state; nothing here
/// mutates the chain. A hash outside the view answers as a genesis block
/// (height 0), which ends any walk over ancestors.
pub trait MedianTimeContext {
    /// How many ancestor blocks the median window covers.
    spec fn spec_median_block_count(&self) -> u64;

    /// What a lookup of `block_hash` answers: the block's timestamp, its
    /// height, and its parent's hash.
    spec fn spec_timestamp_and_parent(&self, block_hash: u64) -> (u64, u64, u64);

    fn median_block_count(&self) -> (r: u64)
        ensures
            r == self.spec_median_block_count(),
            r >= 1,
    ;

    fn timestamp_and_parent(&self, block_hash: u64) -> (r: (u64, u64, u64))
        ensures
            r == self.spec_timestamp_and_parent(block_hash),
    ;
}

/// Capability that decides whether a header's proof-of-work material is
/// valid under the consensus algorithm in force. The core never inspects
/// the algorithm; it consumes the boolean verdict alone.
pub trait PowEngine {
    /// The verdict the engine gives for `header`: a function of the header
    /// and the engine's own configuration alone.
    spec fn spec_verify(&self, header: Header) -> bool;

    fn verify(&self, header: &Header) -> (r: bool)
        ensures
            r == self.spec_verify(*header),
    ;
}

} // verus!
