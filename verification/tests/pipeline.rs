use header_verification::error::{
    BlockVersionError, EpochError, HeaderError, NumberError, PowError, TimestampError,
};
use header_verification::header::{EpochField, Header};
use header_verification::median::block_median_time;
use header_verification::mock::{FixedPowEngine, MockMedianTime};
use header_verification::verifiers::{EpochVerifier, HeaderVerifier, NumberVerifier, VersionVerifier};
use header_verification::ALLOWED_FUTURE_BLOCKTIME;

fn header(version: u32, number: u64, timestamp: u64, epoch: EpochField, parent_hash: u64) -> Header {
    Header::new(version, number, timestamp, epoch, parent_hash, 0)
}

fn epoch(number: u64, index: u64, length: u64) -> EpochField {
    EpochField::new(number, index, length)
}

#[test]
fn version_passes_iff_equal() {
    let h = header(7, 0, 0, epoch(0, 0, 1), 0);
    assert!(VersionVerifier::new(&h, 7).verify().is_ok());
    assert_eq!(
        VersionVerifier::new(&h, 8).verify().err(),
        Some(BlockVersionError { expected: 8, actual: 7 })
    );
}

#[test]
fn number_passes_iff_successor() {
    let parent = header(0, 41, 0, epoch(0, 41, 100), 0);
    let next = header(0, 42, 0, epoch(0, 42, 100), 0);
    assert!(NumberVerifier::new(&parent, &next).verify().is_ok());
    let gap = header(0, 43, 0, epoch(0, 43, 100), 0);
    assert_eq!(
        NumberVerifier::new(&parent, &gap).verify().err(),
        Some(NumberError { expected: 42, actual: 43 })
    );
    let same = header(0, 41, 0, epoch(0, 41, 100), 0);
    assert_eq!(
        NumberVerifier::new(&parent, &same).verify().err(),
        Some(NumberError { expected: 42, actual: 41 })
    );
}

#[test]
fn epoch_malformed_cases() {
    let parent = header(0, 10, 0, epoch(1, 5, 10), 0);
    for (n, i, l) in [(1, 0, 0), (1, 10, 0), (1, 10, 5), (1, 10, 10)] {
        let h = header(0, 11, 0, epoch(n, i, l), 0);
        assert_eq!(
            EpochVerifier::verify(&parent, &h).err(),
            Some(EpochError::Malformed { value: epoch(n, i, l) })
        );
    }
}

#[test]
fn epoch_continuity_cases() {
    let parent = header(0, 10, 0, epoch(1, 5, 10), 0);
    for (n, i, l) in [(1, 6, 10), (2, 0, 10), (2, 0, 11)] {
        let h = header(0, 11, 0, epoch(n, i, l), 0);
        assert!(EpochVerifier::verify(&parent, &h).is_ok());
    }
    for (n, i, l) in [(1, 5, 10), (1, 5, 11), (2, 5, 10), (1, 6, 11), (2, 6, 10)] {
        let h = header(0, 11, 0, epoch(n, i, l), 0);
        assert_eq!(
            EpochVerifier::verify(&parent, &h).err(),
            Some(EpochError::NonContinuous { current: epoch(n, i, l), parent: epoch(1, 5, 10) })
        );
    }
    let late_parent = header(0, 14, 0, epoch(1, 9, 10), 0);
    for (n, i, l) in [(2, 1, 10), (3, 0, 10)] {
        let h = header(0, 15, 0, epoch(n, i, l), 0);
        assert_eq!(
            EpochVerifier::verify(&late_parent, &h).err(),
            Some(EpochError::NonContinuous { current: epoch(n, i, l), parent: epoch(1, 9, 10) })
        );
    }
}

#[test]
fn median_of_distinct_timestamps() {
    // Block n carries timestamp n * 1000; from block 99 the window covers
    // blocks 99 down to 89, whose median is block 94's timestamp.
    let timestamps: Vec<u64> = (1..=100u64).map(|n| n * 1000).collect();
    let ctx = MockMedianTime::new(timestamps);
    assert_eq!(block_median_time(&ctx, MockMedianTime::get_block_hash(99)), 94_000);
}

#[test]
fn median_of_short_chain() {
    // Only five blocks exist; the walk from block 5 ends at the genesis
    // answer (timestamp 0), so six values are collected and the upper middle
    // of [0, 10, 20, 30, 40, 50] is returned.
    let ctx = MockMedianTime::new(vec![10, 20, 30, 40, 50]);
    assert_eq!(block_median_time(&ctx, MockMedianTime::get_block_hash(5)), 30);
}

fn mock_chain(now: u64) -> MockMedianTime {
    MockMedianTime::new(vec![now; 100])
}

#[test]
fn timestamp_window_boundaries() {
    let now: u64 = 100_000;
    let ctx = mock_chain(now);
    let pow = FixedPowEngine::new(true);
    let verifier = HeaderVerifier::new(&ctx, &pow, 0, now);
    let parent = header(0, 99, now, epoch(0, 99, 1000), 98);
    let max = now + ALLOWED_FUTURE_BLOCKTIME;

    let at_min = header(0, 100, now, epoch(0, 100, 1000), 99);
    assert!(verifier.verify(&parent, &at_min).is_ok());

    let at_max = header(0, 100, max, epoch(0, 100, 1000), 99);
    assert!(verifier.verify(&parent, &at_max).is_ok());

    let below = header(0, 100, now - 1, epoch(0, 100, 1000), 99);
    assert_eq!(
        verifier.verify(&parent, &below),
        Err(HeaderError::Timestamp(TimestampError::BlockTimeTooOld {
            min: now,
            actual: now - 1,
        }))
    );

    let above = header(0, 100, max + 1, epoch(0, 100, 1000), 99);
    assert_eq!(
        verifier.verify(&parent, &above),
        Err(HeaderError::Timestamp(TimestampError::BlockTimeTooNew {
            max,
            actual: max + 1,
        }))
    );
}

#[test]
fn pow_verdict_regardless_of_header() {
    let now: u64 = 100_000;
    let ctx = mock_chain(now);
    let rejecting = FixedPowEngine::new(false);
    let verifier = HeaderVerifier::new(&ctx, &rejecting, 0, now);
    let parent = header(0, 99, now, epoch(0, 99, 1000), 98);
    for nonce in [0u128, 1, u128::MAX] {
        let h = Header::new(0, 100, now, epoch(0, 100, 1000), 99, nonce);
        assert_eq!(
            verifier.verify(&parent, &h),
            Err(HeaderError::Pow(PowError::InvalidNonce))
        );
    }
}

#[test]
fn verify_same_triple_twice() {
    let now: u64 = 100_000;
    let ctx = mock_chain(now);
    let pow = FixedPowEngine::new(true);
    let verifier = HeaderVerifier::new(&ctx, &pow, 0, now);
    let parent = header(0, 99, now, epoch(0, 99, 1000), 98);
    let good = header(0, 100, now, epoch(0, 100, 1000), 99);
    assert_eq!(verifier.verify(&parent, &good), verifier.verify(&parent, &good));
    let bad = header(3, 101, now - 1, epoch(5, 0, 0), 99);
    assert_eq!(verifier.verify(&parent, &bad), verifier.verify(&parent, &bad));
}

#[test]
fn first_failing_check_is_reported() {
    let now: u64 = 100_000;
    let ctx = mock_chain(now);
    let pow = FixedPowEngine::new(false);
    let verifier = HeaderVerifier::new(&ctx, &pow, 0, now);
    let parent = header(0, 99, now, epoch(0, 99, 1000), 98);

    // Every check fails here: wrong version, wrong number, malformed epoch,
    // stale timestamp, rejecting engine. The version error must come out.
    let all_bad = header(1, 99, now - 1, epoch(0, 5, 0), 99);
    assert_eq!(
        verifier.verify(&parent, &all_bad),
        Err(HeaderError::Version(BlockVersionError { expected: 0, actual: 1 }))
    );

    let number_on = header(0, 99, now - 1, epoch(0, 5, 0), 99);
    assert_eq!(
        verifier.verify(&parent, &number_on),
        Err(HeaderError::Number(NumberError { expected: 100, actual: 99 }))
    );

    let epoch_on = header(0, 100, now - 1, epoch(0, 5, 0), 99);
    assert_eq!(
        verifier.verify(&parent, &epoch_on),
        Err(HeaderError::Epoch(EpochError::Malformed { value: epoch(0, 5, 0) }))
    );

    let timestamp_on = header(0, 100, now - 1, epoch(0, 100, 1000), 99);
    assert_eq!(
        verifier.verify(&parent, &timestamp_on),
        Err(HeaderError::Timestamp(TimestampError::BlockTimeTooOld {
            min: now,
            actual: now - 1,
        }))
    );

    let pow_on = header(0, 100, now, epoch(0, 100, 1000), 99);
    assert_eq!(
        verifier.verify(&parent, &pow_on),
        Err(HeaderError::Pow(PowError::InvalidNonce))
    );

    let accepting = FixedPowEngine::new(true);
    let passing_verifier = HeaderVerifier::new(&ctx, &accepting, 0, now);
    assert_eq!(passing_verifier.verify(&parent, &pow_on), Ok(()));
}
