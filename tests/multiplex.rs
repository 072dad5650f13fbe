use std::collections::HashSet;

use anyhow::Error;
use multiplexedblob_wal::{
    classify, BlobstoreGetData, BlobstoreIsPresent, BlobstoresReturnedError, ConfigError,
    ErrorKind, FailureClass, GetQuorum, IsPresentOutcome, IsPresentQuorum, MultiplexQuorum,
    Next, Operation, OverwriteStatus, PutPhase, PutSession,
};

fn quorum(n: usize, w: usize) -> MultiplexQuorum {
    MultiplexQuorum::new(n, w).expect("valid quorum")
}

fn failed_keys(e: &ErrorKind) -> HashSet<u64> {
    match e {
        ErrorKind::AllFailed(m)
        | ErrorKind::SomePutsFailed(m)
        | ErrorKind::SomeGetsFailed(m)
        | ErrorKind::SomeIsPresentsFailed(m) => m.keys().copied().collect(),
        ErrorKind::WalUnavailable { .. } => HashSet::new(),
    }
}

fn keys(ids: &[u64]) -> HashSet<u64> {
    ids.iter().copied().collect()
}

fn writing_session(n: usize, w: usize) -> PutSession {
    let q = quorum(n, w);
    let mut s = PutSession::start(7, &q, n, "k".to_string(), b"v", 1_000, 42);
    assert!(s.on_wal_result(Ok(())).is_ok());
    s
}

#[test]
fn quorum_read_is_n_minus_w_plus_one() {
    let q = quorum(3, 2);
    assert_eq!(q.write(), 2);
    assert_eq!(q.read(), 2);
    assert_eq!(q.read() + q.write(), 3 + 1);
    let q = quorum(5, 1);
    assert_eq!(q.read(), 5);
    let q = quorum(4, 4);
    assert_eq!(q.read(), 1);
}

#[test]
fn quorum_rejects_zero_write() {
    assert_eq!(MultiplexQuorum::new(3, 0).unwrap_err(), ConfigError::ZeroWriteQuorum);
}

#[test]
fn quorum_rejects_write_above_store_count() {
    assert_eq!(
        MultiplexQuorum::new(3, 4).unwrap_err(),
        ConfigError::NotEnoughBlobstores { have: 3, need: 4 }
    );
    assert_eq!(
        MultiplexQuorum::new(0, 1).unwrap_err(),
        ConfigError::NotEnoughBlobstores { have: 0, need: 1 }
    );
}

#[test]
fn put_all_succeed_returns_not_checked() {
    let q = quorum(3, 2);
    let mut s = PutSession::start(7, &q, 3, "k".to_string(), b"v", 1_000, 42);
    assert_eq!(s.phase(), PutPhase::AwaitingWal);
    let entry = s.wal_entry().clone();
    assert_eq!(entry.blobstore_key, "k");
    assert_eq!(entry.multiplex_id, 7);
    assert_eq!(entry.timestamp, 1_000);
    assert_eq!(entry.operation_key, 42);
    assert_eq!(entry.blob_size, Some(1));
    assert!(s.on_wal_result(Ok(())).is_ok());
    assert_eq!(s.phase(), PutPhase::Writing);
    assert!(matches!(s.on_reply(1, Ok(OverwriteStatus::NewKey)), Next::Wait));
    assert!(matches!(
        s.on_reply(2, Ok(OverwriteStatus::NewKey)),
        Next::Return(OverwriteStatus::NotChecked)
    ));
    assert_eq!(s.phase(), PutPhase::Finished);
}

#[test]
fn put_one_store_fails_still_reaches_quorum() {
    let mut s = writing_session(3, 2);
    assert!(matches!(s.on_reply(1, Err(Error::msg("disk full"))), Next::Wait));
    assert!(matches!(s.on_reply(2, Ok(OverwriteStatus::NewKey)), Next::Wait));
    assert!(matches!(
        s.on_reply(3, Ok(OverwriteStatus::Overwrote)),
        Next::Return(OverwriteStatus::NotChecked)
    ));
}

#[test]
fn put_wal_failure_writes_no_store() {
    let q = quorum(3, 2);
    let mut s = PutSession::start(7, &q, 3, "k".to_string(), b"v", 1_000, 42);
    let e = s.on_wal_result(Err(Error::msg("log down"))).unwrap_err();
    assert_eq!(e.class(), FailureClass::WalUnavailable);
    match e {
        ErrorKind::WalUnavailable { key, .. } => assert_eq!(key, "k"),
        _ => panic!("expected a log failure"),
    }
    assert_eq!(s.phase(), PutPhase::Finished);
}

#[test]
fn put_two_failures_is_some_puts_failed() {
    let mut s = writing_session(3, 2);
    assert!(matches!(s.on_reply(1, Err(Error::msg("b1"))), Next::Wait));
    assert!(matches!(s.on_reply(2, Err(Error::msg("b2"))), Next::Wait));
    assert!(matches!(s.on_reply(3, Ok(OverwriteStatus::NewKey)), Next::Wait));
    let e = s.finish();
    assert_eq!(e.class(), FailureClass::SomePutsFailed);
    assert_eq!(failed_keys(&e), keys(&[1, 2]));
}

#[test]
fn put_all_failures_is_all_failed() {
    let mut s = writing_session(3, 2);
    for id in 1..=3u64 {
        assert!(matches!(s.on_reply(id, Err(Error::msg("down"))), Next::Wait));
    }
    let e = s.finish();
    assert_eq!(e.class(), FailureClass::AllFailed);
    assert_eq!(failed_keys(&e), keys(&[1, 2, 3]));
}

#[test]
fn put_quorum_first_ignores_slow_stores() {
    let mut s = writing_session(5, 3);
    for id in 1..=2u64 {
        assert!(matches!(s.on_reply(id, Ok(OverwriteStatus::NewKey)), Next::Wait));
    }
    assert!(matches!(
        s.on_reply(3, Ok(OverwriteStatus::NewKey)),
        Next::Return(OverwriteStatus::NotChecked)
    ));
}

#[test]
fn put_blob_size_is_value_length() {
    let q = quorum(1, 1);
    let s = PutSession::start(1, &q, 1, "key".to_string(), &[0u8; 300], -5, 9);
    assert_eq!(s.wal_entry().blob_size, Some(300));
    let s = PutSession::start(1, &q, 1, "key".to_string(), &[], -5, 9);
    assert_eq!(s.wal_entry().blob_size, Some(0));
}

#[test]
fn get_first_blob_wins() {
    let q = quorum(3, 2);
    let mut g = GetQuorum::new(&q, 3);
    let blob = BlobstoreGetData { bytes: b"v".to_vec() };
    match g.on_reply(1, Ok(Some(blob))) {
        Next::Return(Some(d)) => assert_eq!(d.bytes, b"v".to_vec()),
        _ => panic!("expected the blob"),
    }
}

#[test]
fn get_blob_after_failures_and_one_miss() {
    let q = quorum(3, 2);
    let mut g = GetQuorum::new(&q, 3);
    assert!(matches!(g.on_reply(3, Err(Error::msg("timeout"))), Next::Wait));
    assert!(matches!(g.on_reply(2, Ok(None)), Next::Wait));
    match g.on_reply(1, Ok(Some(BlobstoreGetData { bytes: vec![1, 2, 3] }))) {
        Next::Return(Some(d)) => assert_eq!(d.bytes, vec![1, 2, 3]),
        _ => panic!("expected the blob"),
    }
}

#[test]
fn get_read_quorum_of_misses_is_absent() {
    let q = quorum(3, 2);
    let mut g = GetQuorum::new(&q, 3);
    assert!(matches!(g.on_reply(1, Ok(None)), Next::Wait));
    assert!(matches!(g.on_reply(3, Err(Error::msg("b3"))), Next::Wait));
    assert!(matches!(g.on_reply(2, Ok(None)), Next::Return(None)));
}

#[test]
fn get_one_miss_two_failures_is_some_gets_failed() {
    let q = quorum(3, 2);
    let mut g = GetQuorum::new(&q, 3);
    assert!(matches!(g.on_reply(1, Ok(None)), Next::Wait));
    assert!(matches!(g.on_reply(2, Err(Error::msg("b2"))), Next::Wait));
    assert!(matches!(g.on_reply(3, Err(Error::msg("b3"))), Next::Wait));
    let e = g.finish();
    assert_eq!(e.class(), FailureClass::SomeGetsFailed);
    assert_eq!(failed_keys(&e), keys(&[2, 3]));
}

#[test]
fn get_all_failures_is_all_failed() {
    let q = quorum(3, 2);
    let mut g = GetQuorum::new(&q, 3);
    for id in 1..=3u64 {
        assert!(matches!(g.on_reply(id, Err(Error::msg("down"))), Next::Wait));
    }
    let e = g.finish();
    assert_eq!(e.class(), FailureClass::AllFailed);
    assert_eq!(failed_keys(&e), keys(&[1, 2, 3]));
}

#[test]
fn is_present_first_present_wins() {
    let q = quorum(3, 2);
    let mut p = IsPresentQuorum::new(&q, 3);
    assert!(matches!(
        p.on_reply(1, Ok(BlobstoreIsPresent::Present)),
        Next::Return(IsPresentOutcome::Present)
    ));
}

#[test]
fn is_present_all_uncertain_is_all_failed() {
    let q = quorum(3, 2);
    let mut p = IsPresentQuorum::new(&q, 3);
    for id in 1..=3u64 {
        let reply = Ok(BlobstoreIsPresent::ProbablyNotPresent(Error::msg(format!("diag {}", id))));
        assert!(matches!(p.on_reply(id, reply), Next::Wait));
    }
    match p.finish() {
        Err(e) => {
            assert_eq!(e.class(), FailureClass::AllFailed);
            assert_eq!(failed_keys(&e), keys(&[1, 2, 3]));
        }
        Ok(_) => panic!("expected every store to have failed"),
    }
}

#[test]
fn is_present_quorum_of_absent() {
    let q = quorum(3, 2);
    let mut p = IsPresentQuorum::new(&q, 3);
    assert!(matches!(p.on_reply(1, Ok(BlobstoreIsPresent::Absent)), Next::Wait));
    assert!(matches!(
        p.on_reply(2, Ok(BlobstoreIsPresent::Absent)),
        Next::Return(IsPresentOutcome::Absent)
    ));
}

#[test]
fn is_present_partial_failure_downgrades() {
    let q = quorum(3, 2);
    let mut p = IsPresentQuorum::new(&q, 3);
    assert!(matches!(p.on_reply(1, Ok(BlobstoreIsPresent::Absent)), Next::Wait));
    assert!(matches!(p.on_reply(2, Err(Error::msg("b2"))), Next::Wait));
    assert!(matches!(
        p.on_reply(3, Ok(BlobstoreIsPresent::ProbablyNotPresent(Error::msg("b3")))),
        Next::Wait
    ));
    match p.finish() {
        Ok(IsPresentOutcome::ProbablyNotPresent(e)) => {
            assert_eq!(e.class(), FailureClass::SomeIsPresentsFailed);
            assert_eq!(failed_keys(&e), keys(&[2, 3]));
        }
        _ => panic!("expected a downgrade to probably not present"),
    }
}

#[test]
fn classify_counts_against_store_count() {
    let mut errors: BlobstoresReturnedError = BlobstoresReturnedError::new();
    errors.insert(1, Error::msg("a"));
    errors.insert(2, Error::msg("b"));
    assert_eq!(classify(Operation::Put, errors, 2).class(), FailureClass::AllFailed);
    let mut errors: BlobstoresReturnedError = BlobstoresReturnedError::new();
    errors.insert(1, Error::msg("a"));
    assert_eq!(classify(Operation::Put, errors, 2).class(), FailureClass::SomePutsFailed);
    let errors: BlobstoresReturnedError = BlobstoresReturnedError::new();
    assert_eq!(classify(Operation::Get, errors, 3).class(), FailureClass::SomeGetsFailed);
    let errors: BlobstoresReturnedError = BlobstoresReturnedError::new();
    assert_eq!(classify(Operation::IsPresent, errors, 1).class(), FailureClass::SomeIsPresentsFailed);
}

#[test]
fn repeated_failure_of_one_store_counts_once() {
    let q = quorum(2, 1);
    let mut g = GetQuorum::new(&q, 2);
    assert!(matches!(g.on_reply(1, Err(Error::msg("first"))), Next::Wait));
    assert!(matches!(g.on_reply(1, Err(Error::msg("second"))), Next::Wait));
    let e = g.finish();
    assert_eq!(e.class(), FailureClass::SomeGetsFailed);
    assert_eq!(failed_keys(&e), keys(&[1]));
}
