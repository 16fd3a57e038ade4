//! The independent header checks and the exact statements of their verdicts.
//! Each verifier reads the candidate header (and what context it needs) and
//! returns either success or the one data-carrying error of its check.

use vstd::prelude::*;
use crate::header::{EpochField, Header};
use crate::error::{BlockVersionError, EpochError, HeaderError, NumberError, PowError, TimestampError};
use crate::context::{MedianTimeContext, PowEngine};
use crate::median::{block_median_time, spec_block_median_time};
use crate::ALLOWED_FUTURE_BLOCKTIME;

verus! {

/// Verdict of the version check: success exactly when the header carries the
/// expected protocol version, otherwise the compared pair.
pub open spec fn spec_version_verify(header: Header, expected_version: u32) -> Result<
    (),
    BlockVersionError,
> {
    if header.version == expected_version {
        Ok(())
    } else {
        Err(BlockVersionError { expected: expected_version, actual: header.version })
    }
}

/// Verdict of the height check: success exactly when the header's number is
/// one above the parent's.
pub open spec fn spec_number_verify(parent: Header, header: Header) -> Result<(), NumberError>
    recommends
        parent.number < u64::MAX,
{
    if header.number == parent.number + 1 {
        Ok(())
    } else {
        Err(NumberError { expected: (parent.number + 1) as u64, actual: header.number })
    }
}

/// An epoch field that cannot represent a valid position within an epoch.
pub open spec fn epoch_malformed(e: EpochField) -> bool {
    e.length == 0 || e.index >= e.length
}

/// Continuity of the epoch sequence: either a same-epoch advance (same epoch
/// number, index one further, same length) or an epoch rollover (epoch number
/// one further, index reset to zero; the new length is free, since epoch
/// length is recomputed by difficulty adjustment outside this core).
pub open spec fn epoch_continuous(parent: EpochField, current: EpochField) -> bool {
    ||| (current.number == parent.number && current.index == parent.index + 1 && current.length
        == parent.length)
    ||| (current.number == parent.number + 1 && current.index == 0)
}

/// Verdict of the epoch check: a malformed field is rejected whatever the
/// parent holds; a well-formed one must follow the parent continuously.
pub open spec fn spec_epoch_verify(parent: Header, header: Header) -> Result<(), EpochError> {
    if epoch_malformed(header.epoch) {
        Err(EpochError::Malformed { value: header.epoch })
    } else if !epoch_continuous(parent.epoch, header.epoch) {
        Err(EpochError::NonContinuous { current: header.epoch, parent: parent.epoch })
    } else {
        Ok(())
    }
}

/// Verdict of the proof-of-work check: whatever boolean the engine gives for
/// the header, mapped to success or `InvalidNonce`.
pub open spec fn spec_pow_verify<P: PowEngine>(pow: &P, header: Header) -> Result<(), PowError> {
    if pow.spec_verify(header) {
        Ok(())
    } else {
        Err(PowError::InvalidNonce)
    }
}

/// Verdict of the timestamp check: success exactly when the header's
/// timestamp is at least the median of the ancestor timestamps the context
/// serves and at most the wall-clock time plus the future tolerance.
pub open spec fn spec_timestamp_verify<M: MedianTimeContext>(
    ctx: &M,
    header: Header,
    now: u64,
) -> Result<(), TimestampError>
    recommends
        now + ALLOWED_FUTURE_BLOCKTIME <= u64::MAX,
{
    let min = spec_block_median_time(ctx, header.parent_hash);
    let max = (now + ALLOWED_FUTURE_BLOCKTIME) as u64;
    if header.timestamp < min {
        Err(TimestampError::BlockTimeTooOld { min, actual: header.timestamp })
    } else if header.timestamp > max {
        Err(TimestampError::BlockTimeTooNew { max, actual: header.timestamp })
    } else {
        Ok(())
    }
}

/// Verdict of the whole pipeline: the checks run in the fixed order version,
/// number, epoch, timestamp, proof-of-work, and the first failure is the
/// result. Cheap structural checks come first so malformed headers are
/// rejected without paying for chain lookups or hashing.
pub open spec fn spec_header_verify<M: MedianTimeContext, P: PowEngine>(
    ctx: &M,
    pow: &P,
    expected_version: u32,
    now: u64,
    parent: Header,
    header: Header,
) -> Result<(), HeaderError>
    recommends
        parent.number < u64::MAX,
        now + ALLOWED_FUTURE_BLOCKTIME <= u64::MAX,
{
    match spec_version_verify(header, expected_version) {
        Err(e) => Err(HeaderError::Version(e)),
        Ok(_) => match spec_number_verify(parent, header) {
            Err(e) => Err(HeaderError::Number(e)),
            Ok(_) => match spec_epoch_verify(parent, header) {
                Err(e) => Err(HeaderError::Epoch(e)),
                Ok(_) => match spec_timestamp_verify(ctx, header, now) {
                    Err(e) => Err(HeaderError::Timestamp(e)),
                    Ok(_) => match spec_pow_verify(pow, header) {
                        Err(e) => Err(HeaderError::Pow(e)),
                        Ok(_) => Ok(()),
                    },
                },
            },
        },
    }
}

/// Checks the protocol version: a forward-compatibility gate so that a node
/// rejects headers produced under a protocol version it does not understand.
pub struct VersionVerifier<'a> {
    pub header: &'a Header,
    pub expected_version: u32,
}

impl<'a> VersionVerifier<'a> {
    pub fn new(header: &'a Header, expected_version: u32) -> (r: Self)
        ensures
            r.header == header,
            r.expected_version == expected_version,
    {
        VersionVerifier { header, expected_version }
    }

    pub fn verify(&self) -> (r: Result<(), BlockVersionError>)
        ensures
            r == spec_version_verify(*self.header, self.expected_version),
    {
        if self.header.version == self.expected_version {
            Ok(())
        } else {
            Err(BlockVersionError { expected: self.expected_version, actual: self.header.version })
        }
    }
}

/// Checks that the height grows by exactly one per block, which also rejects
/// gaps that would let non-contiguous chains be spliced together.
pub struct NumberVerifier<'a> {
    pub parent: &'a Header,
    pub header: &'a Header,
}

impl<'a> NumberVerifier<'a> {
    pub fn new(parent: &'a Header, header: &'a Header) -> (r: Self)
        ensures
            r.parent == parent,
            r.header == header,
    {
        NumberVerifier { parent, header }
    }

    pub fn verify(&self) -> (r: Result<(), NumberError>)
        requires
            self.parent.number < u64::MAX,
        ensures
            r == spec_number_verify(*self.parent, *self.header),
    {
        if self.header.number == self.parent.number + 1 {
            Ok(())
        } else {
            Err(NumberError { expected: self.parent.number + 1, actual: self.header.number })
        }
    }
}

/// Checks the epoch field: well-formedness first, then continuity against
/// the parent's field.
pub struct EpochVerifier {}

impl EpochVerifier {
    pub fn verify(parent: &Header, header: &Header) -> (r: Result<(), EpochError>)
        ensures
            r == spec_epoch_verify(*parent, *header),
    {
        let current = header.epoch;
        let previous = parent.epoch;
        if current.length == 0 || current.index >= current.length {
            return Err(EpochError::Malformed { value: current });
        }
        let same_epoch = current.number == previous.number && current.length == previous.length
            && previous.index < u64::MAX && current.index == previous.index + 1;
        let rollover = previous.number < u64::MAX && current.number == previous.number + 1
            && current.index == 0;
        if same_epoch || rollover {
            Ok(())
        } else {
            Err(EpochError::NonContinuous { current, parent: previous })
        }
    }
}

/// Checks proof-of-work validity through the injected engine; the pipeline
/// stays portable across consensus algorithms because only the engine
/// interprets the header's nonce material.
pub struct PowVerifier<'a, P> {
    pub header: &'a Header,
    pub pow: &'a P,
}

impl<'a, P: PowEngine> PowVerifier<'a, P> {
    pub fn new(header: &'a Header, pow: &'a P) -> (r: Self)
        ensures
            r.header == header,
            r.pow == pow,
    {
        PowVerifier { header, pow }
    }

    pub fn verify(&self) -> (r: Result<(), PowError>)
        ensures
            r == spec_pow_verify(self.pow, *self.header),
    {
        if self.pow.verify(self.header) {
            Ok(())
        } else {
            Err(PowError::InvalidNonce)
        }
    }
}

/// Checks the header's timestamp against a median-time floor and a
/// future-time ceiling. The floor is the median of the ancestor timestamps
/// (walked from the parent through the injected context), which resists
/// manipulation by a single miner; the ceiling is the injected wall-clock
/// time plus a fixed tolerance that absorbs clock skew between nodes.
pub struct TimestampVerifier<'a, M> {
    pub median_time_context: &'a M,
    pub header: &'a Header,
    pub now: u64,
}

impl<'a, M: MedianTimeContext> TimestampVerifier<'a, M> {
    pub fn new(median_time_context: &'a M, header: &'a Header, now: u64) -> (r: Self)
        ensures
            r.median_time_context == median_time_context,
            r.header == header,
            r.now == now,
    {
        TimestampVerifier { median_time_context, header, now }
    }

    pub fn verify(&self) -> (r: Result<(), TimestampError>)
        requires
            self.now + ALLOWED_FUTURE_BLOCKTIME <= u64::MAX,
        ensures
            r == spec_timestamp_verify(self.median_time_context, *self.header, self.now),
    {
        let min = block_median_time(self.median_time_context, self.header.parent_hash);
        if self.header.timestamp < min {
            return Err(TimestampError::BlockTimeTooOld { min, actual: self.header.timestamp });
        }
        let max = self.now + ALLOWED_FUTURE_BLOCKTIME;
        if self.header.timestamp > max {
            Err(TimestampError::BlockTimeTooNew { max, actual: self.header.timestamp })
        } else {
            Ok(())
        }
    }
}

/// The orchestrator: runs the five checks against one candidate header and
/// its accepted parent, in the fixed order version, number, epoch,
/// timestamp, proof-of-work, stopping at the first failure. A header either
/// fully passes or is rejected with the first check's typed error; there is
/// no partial acceptance and no retry, since every check is a deterministic
/// function of its inputs.
pub struct HeaderVerifier<'a, M, P> {
    pub median_time_context: &'a M,
    pub pow: &'a P,
    pub expected_version: u32,
    pub now: u64,
}

impl<'a, M: MedianTimeContext, P: PowEngine> HeaderVerifier<'a, M, P> {
    pub fn new(median_time_context: &'a M, pow: &'a P, expected_version: u32, now: u64) -> (r:
        Self)
        ensures
            r.median_time_context == median_time_context,
            r.pow == pow,
            r.expected_version == expected_version,
            r.now == now,
    {
        HeaderVerifier { median_time_context, pow, expected_version, now }
    }

    pub fn verify(&self, parent: &Header, header: &Header) -> (r: Result<(), HeaderError>)
        requires
            parent.number < u64::MAX,
            self.now + ALLOWED_FUTURE_BLOCKTIME <= u64::MAX,
        ensures
            r == spec_header_verify(
                self.median_time_context,
                self.pow,
                self.expected_version,
                self.now,
                *parent,
                *header,
            ),
    {
        if let Err(e) = VersionVerifier::new(header, self.expected_version).verify() {
            return Err(HeaderError::Version(e));
        }
        if let Err(e) = NumberVerifier::new(parent, header).verify() {
            return Err(HeaderError::Number(e));
        }
        if let Err(e) = EpochVerifier::verify(parent, header) {
            return Err(HeaderError::Epoch(e));
        }
        if let Err(e) = TimestampVerifier::new(self.median_time_context, header, self.now).verify() {
            return Err(HeaderError::Timestamp(e));
        }
        if let Err(e) = PowVerifier::new(header, self.pow).verify() {
            return Err(HeaderError::Pow(e));
        }
        Ok(())
    }
}

/// A malformed epoch field is rejected as malformed, and identically,
/// whatever parent the check runs against.
pub proof fn lemma_epoch_malformed_independent_of_parent(
    parent_a: Header,
    parent_b: Header,
    header: Header,
)
    requires
        epoch_malformed(header.epoch),
    ensures
        spec_epoch_verify(parent_a, header) == Err::<(), EpochError>(
            EpochError::Malformed { value: header.epoch },
        ),
        spec_epoch_verify(parent_a, header) == spec_epoch_verify(parent_b, header),
{
}

/// Verifying one (header, parent, context) triple twice yields the same
/// result: the verdict is a function of the inputs alone, with no hidden
/// mutable state.
pub proof fn lemma_verify_idempotent<M: MedianTimeContext, P: PowEngine>(
    ctx: &M,
    pow: &P,
    expected_version: u32,
    now: u64,
    parent: Header,
    header: Header,
    first: Result<(), HeaderError>,
    second: Result<(), HeaderError>,
)
    requires
        first == spec_header_verify(ctx, pow, expected_version, now, parent, header),
        second == spec_header_verify(ctx, pow, expected_version, now, parent, header),
    ensures
        first == second,
{
}

/// The pipeline reports the first failing check in the fixed order version,
/// number, epoch, timestamp, proof-of-work: an earlier check's failure is
/// reported whatever the later checks would say, and success is reached only
/// when all five checks pass.
pub proof fn lemma_first_failure_reported<M: MedianTimeContext, P: PowEngine>(
    ctx: &M,
    pow: &P,
    expected_version: u32,
    now: u64,
    parent: Header,
    header: Header,
)
    ensures
        spec_version_verify(header, expected_version) is Err ==> spec_header_verify(
            ctx,
            pow,
            expected_version,
            now,
            parent,
            header,
        ) == Err::<(), HeaderError>(
            HeaderError::Version(spec_version_verify(header, expected_version)->Err_0),
        ),
        spec_version_verify(header, expected_version) is Ok && spec_number_verify(parent, header)
            is Err ==> spec_header_verify(ctx, pow, expected_version, now, parent, header)
            == Err::<(), HeaderError>(
            HeaderError::Number(spec_number_verify(parent, header)->Err_0),
        ),
        spec_version_verify(header, expected_version) is Ok && spec_number_verify(parent, header)
            is Ok && spec_epoch_verify(parent, header) is Err ==> spec_header_verify(
            ctx,
            pow,
            expected_version,
            now,
            parent,
            header,
        ) == Err::<(), HeaderError>(HeaderError::Epoch(spec_epoch_verify(parent, header)->Err_0)),
        spec_version_verify(header, expected_version) is Ok && spec_number_verify(parent, header)
            is Ok && spec_epoch_verify(parent, header) is Ok && spec_timestamp_verify(
            ctx,
            header,
            now,
        ) is Err ==> spec_header_verify(ctx, pow, expected_version, now, parent, header) == Err::<
            (),
            HeaderError,
        >(HeaderError::Timestamp(spec_timestamp_verify(ctx, header, now)->Err_0)),
        spec_version_verify(header, expected_version) is Ok && spec_number_verify(parent, header)
            is Ok && spec_epoch_verify(parent, header) is Ok && spec_timestamp_verify(
            ctx,
            header,
            now,
        ) is Ok && spec_pow_verify(pow, header) is Err ==> spec_header_verify(
            ctx,
            pow,
            expected_version,
            now,
            parent,
            header,
        ) == Err::<(), HeaderError>(HeaderError::Pow(spec_pow_verify(pow, header)->Err_0)),
        spec_version_verify(header, expected_version) is Ok && spec_number_verify(parent, header)
            is Ok && spec_epoch_verify(parent, header) is Ok && spec_timestamp_verify(
            ctx,
            header,
            now,
        ) is Ok && spec_pow_verify(pow, header) is Ok ==> spec_header_verify(
            ctx,
            pow,
            expected_version,
            now,
            parent,
            header,
        ) == Ok::<(), HeaderError>(()),
{
}

} // verus!
