//! Header-validation core of a blockchain full node: the independent checks a
//! candidate block header must pass, against its accepted parent and chain
//! context, before the block is accepted as consensus-valid.

pub mod context;
pub mod error;
pub mod header;
pub mod median;
pub mod mock;
pub mod verifiers;

use vstd::prelude::*;

verus! {

/// Tolerance added to the wall-clock time to form the upper bound a header
/// timestamp may not exceed, in milliseconds.
pub const ALLOWED_FUTURE_BLOCKTIME: u64 = 15000;

} // verus!
