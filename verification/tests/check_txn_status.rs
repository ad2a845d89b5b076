use txn_status::commands::{CheckTxnStatus, Deadline, ProcessResult};
use txn_status::concurrency_manager::ConcurrencyManager;
use txn_status::lock::{Lock, LockKind};
use txn_status::modify::Modify;
use txn_status::store::{MvccStore, TxnCommitRecord};
use txn_status::timestamp::TimeStamp;
use txn_status::types::TxnStatus;
use txn_status::write::{WriteKind, WriteRecord};

const DEFAULT_EXECUTION_DURATION_LIMIT_MS: u64 = 24 * 60 * 60 * 1000;

fn command(
    primary_key: &[u8],
    lock_ts: TimeStamp,
    caller_start_ts: TimeStamp,
    current_ts: TimeStamp,
    rollback_if_not_exist: bool,
    force_sync_commit: bool,
    resolving_pessimistic_lock: bool,
) -> CheckTxnStatus {
    CheckTxnStatus {
        primary_key: primary_key.to_vec(),
        lock_ts,
        caller_start_ts,
        current_ts,
        rollback_if_not_exist,
        force_sync_commit,
        resolving_pessimistic_lock,
        deadline: Deadline::from_now(0, DEFAULT_EXECUTION_DURATION_LIMIT_MS),
    }
}

fn must_success(
    engine: &mut MvccStore,
    primary_key: &[u8],
    lock_ts: impl Into<TimeStamp>,
    caller_start_ts: impl Into<TimeStamp>,
    current_ts: impl Into<TimeStamp>,
    rollback_if_not_exist: bool,
    force_sync_commit: bool,
    resolving_pessimistic_lock: bool,
    status_pred: impl FnOnce(TxnStatus) -> bool,
) {
    let current_ts = current_ts.into();
    let mut cm = ConcurrencyManager::new(current_ts);
    let cmd = command(
        primary_key,
        lock_ts.into(),
        caller_start_ts.into(),
        current_ts,
        rollback_if_not_exist,
        force_sync_commit,
        resolving_pessimistic_lock,
    );
    let result = cmd.process_write(engine, &mut cm).unwrap();
    if let ProcessResult::TxnStatus { txn_status } = result.pr {
        assert!(status_pred(txn_status));
    } else {
        unreachable!();
    }
    engine.write(result.to_be_write.modifies);
}

fn must_err(
    engine: &mut MvccStore,
    primary_key: &[u8],
    lock_ts: impl Into<TimeStamp>,
    caller_start_ts: impl Into<TimeStamp>,
    current_ts: impl Into<TimeStamp>,
    rollback_if_not_exist: bool,
    force_sync_commit: bool,
    resolving_pessimistic_lock: bool,
) {
    let current_ts = current_ts.into();
    let mut cm = ConcurrencyManager::new(current_ts);
    let cmd = command(
        primary_key,
        lock_ts.into(),
        caller_start_ts.into(),
        current_ts,
        rollback_if_not_exist,
        force_sync_commit,
        resolving_pessimistic_lock,
    );
    assert!(cmd.process_write(engine, &mut cm).is_err());
}

fn committed(commit_ts: impl Into<TimeStamp>) -> impl FnOnce(TxnStatus) -> bool {
    move |s| {
        s == TxnStatus::Committed {
            commit_ts: commit_ts.into(),
        }
    }
}

fn uncommitted(
    ttl: u64,
    min_commit_ts: impl Into<TimeStamp>,
    should_be_pushed: bool,
) -> impl FnOnce(TxnStatus) -> bool {
    move |s| {
        if let TxnStatus::Uncommitted {
            lock,
            min_commit_ts_pushed,
        } = s
        {
            lock.ttl == ttl
                && lock.min_commit_ts == min_commit_ts.into()
                && min_commit_ts_pushed == should_be_pushed
        } else {
            false
        }
    }
}

fn put_lock(
    engine: &mut MvccStore,
    key: &[u8],
    start_ts: TimeStamp,
    ttl: u64,
    kind: LockKind,
    is_pessimistic: bool,
    min_commit_ts: TimeStamp,
    value: Option<&[u8]>,
    use_async_commit: bool,
) {
    let lock = Lock {
        key: key.to_vec(),
        start_ts,
        ttl,
        kind,
        is_pessimistic,
        min_commit_ts,
        short_value: value.map(|v| v.to_vec()),
        use_async_commit,
    };
    engine.write(vec![Modify::PutLock(lock)]);
}

fn must_prewrite_put_async_commit(
    engine: &mut MvccStore,
    key: &[u8],
    value: &[u8],
    start_ts: impl Into<TimeStamp>,
    min_commit_ts: impl Into<TimeStamp>,
) {
    put_lock(
        engine,
        key,
        start_ts.into(),
        100,
        LockKind::Put,
        false,
        min_commit_ts.into(),
        Some(value),
        true,
    );
}

fn must_acquire_pessimistic_lock(
    engine: &mut MvccStore,
    key: &[u8],
    start_ts: impl Into<TimeStamp>,
) {
    put_lock(
        engine,
        key,
        start_ts.into(),
        0,
        LockKind::MarkerOnly,
        true,
        TimeStamp::zero(),
        None,
        false,
    );
}

fn must_pessimistic_prewrite_put_async_commit(
    engine: &mut MvccStore,
    key: &[u8],
    value: &[u8],
    start_ts: impl Into<TimeStamp>,
    min_commit_ts: impl Into<TimeStamp>,
) {
    put_lock(
        engine,
        key,
        start_ts.into(),
        100,
        LockKind::Put,
        false,
        min_commit_ts.into(),
        Some(value),
        true,
    );
}

fn must_acquire_pessimistic_lock_for_large_txn(
    engine: &mut MvccStore,
    key: &[u8],
    start_ts: impl Into<TimeStamp>,
    for_update_ts: impl Into<TimeStamp>,
    lock_ttl: u64,
) {
    let start_ts = start_ts.into();
    let for_update_ts = for_update_ts.into();
    let later = if for_update_ts.0 > start_ts.0 {
        for_update_ts
    } else {
        start_ts
    };
    put_lock(
        engine,
        key,
        start_ts,
        lock_ttl,
        LockKind::MarkerOnly,
        true,
        later.next(),
        None,
        false,
    );
}

fn must_acquire_pessimistic_lock_with_ttl(
    engine: &mut MvccStore,
    key: &[u8],
    start_ts: impl Into<TimeStamp>,
    ttl: u64,
) {
    put_lock(
        engine,
        key,
        start_ts.into(),
        ttl,
        LockKind::MarkerOnly,
        true,
        TimeStamp::zero(),
        None,
        false,
    );
}

fn must_prewrite_put_for_large_txn(
    engine: &mut MvccStore,
    key: &[u8],
    value: &[u8],
    start_ts: impl Into<TimeStamp>,
    ttl: u64,
) {
    let start_ts = start_ts.into();
    put_lock(
        engine,
        key,
        start_ts,
        ttl,
        LockKind::Put,
        false,
        start_ts.next(),
        Some(value),
        false,
    );
}

fn must_prewrite_put_impl(
    engine: &mut MvccStore,
    key: &[u8],
    value: &[u8],
    start_ts: impl Into<TimeStamp>,
    lock_ttl: u64,
    min_commit_ts: impl Into<TimeStamp>,
) {
    put_lock(
        engine,
        key,
        start_ts.into(),
        lock_ttl,
        LockKind::Put,
        false,
        min_commit_ts.into(),
        Some(value),
        false,
    );
}

fn must_pessimistic_prewrite_put(engine: &mut MvccStore, key: &[u8], value: &[u8]) {
    let held = engine.load_lock(&key.to_vec()).unwrap();
    put_lock(
        engine,
        key,
        held.start_ts,
        held.ttl,
        LockKind::Put,
        false,
        held.min_commit_ts,
        Some(value),
        false,
    );
}

fn must_large_txn_locked(
    engine: &MvccStore,
    key: &[u8],
    start_ts: impl Into<TimeStamp>,
    ttl: u64,
    min_commit_ts: impl Into<TimeStamp>,
    is_pessimistic: bool,
) {
    let lock = engine.load_lock(&key.to_vec()).unwrap();
    assert_eq!(lock.start_ts, start_ts.into());
    assert_eq!(lock.ttl, ttl);
    assert_eq!(lock.min_commit_ts, min_commit_ts.into());
    assert_eq!(lock.is_pessimistic, is_pessimistic);
}

fn must_pessimistic_locked(engine: &MvccStore, key: &[u8], start_ts: impl Into<TimeStamp>) {
    let lock = engine.load_lock(&key.to_vec()).unwrap();
    assert_eq!(lock.start_ts, start_ts.into());
    assert!(lock.is_pessimistic);
}

fn must_unlocked(engine: &MvccStore, key: &[u8]) {
    assert!(engine.load_lock(&key.to_vec()).is_none());
}

fn must_commit(
    engine: &mut MvccStore,
    key: &[u8],
    start_ts: impl Into<TimeStamp>,
    commit_ts: impl Into<TimeStamp>,
) {
    let start_ts = start_ts.into();
    let held = engine.load_lock(&key.to_vec()).unwrap();
    assert_eq!(held.start_ts, start_ts);
    let record = WriteRecord::new(
        key.to_vec(),
        commit_ts.into(),
        start_ts,
        WriteKind::Put,
        held.short_value,
    );
    engine.write(vec![
        Modify::PutWrite(record),
        Modify::DeleteLock(key.to_vec()),
    ]);
}

fn must_rollback(
    engine: &mut MvccStore,
    key: &[u8],
    start_ts: impl Into<TimeStamp>,
    protect: bool,
) {
    let record = WriteRecord::new_rollback(key.to_vec(), start_ts.into(), protect);
    engine.write(vec![
        Modify::PutWrite(record),
        Modify::DeleteLock(key.to_vec()),
    ]);
}

fn must_pessimistic_rollback(
    engine: &mut MvccStore,
    key: &[u8],
    start_ts: impl Into<TimeStamp>,
) {
    let held = engine.load_lock(&key.to_vec()).unwrap();
    assert_eq!(held.start_ts, start_ts.into());
    assert!(held.is_pessimistic);
    engine.write(vec![Modify::DeleteLock(key.to_vec())]);
}

fn must_seek_write(
    engine: &MvccStore,
    key: &[u8],
    ts: impl Into<TimeStamp>,
    start_ts: impl Into<TimeStamp>,
    commit_ts: impl Into<TimeStamp>,
    kind: WriteKind,
) {
    let write = engine.load_write_before(&key.to_vec(), ts.into()).unwrap();
    assert_eq!(write.start_ts, start_ts.into());
    assert_eq!(write.commit_ts, commit_ts.into());
    assert_eq!(write.kind, kind);
}

fn must_get_commit_ts(
    engine: &MvccStore,
    key: &[u8],
    start_ts: impl Into<TimeStamp>,
    commit_ts: impl Into<TimeStamp>,
) {
    match engine.get_txn_commit_record(&key.to_vec(), start_ts.into()) {
        TxnCommitRecord::SingleRecord {
            commit_ts: found,
            write,
        } => {
            assert_ne!(write.kind, WriteKind::Rollback);
            assert_eq!(found, commit_ts.into());
        }
        other => panic!("no commit record: {:?}", other),
    }
}

fn must_get_rollback_ts(engine: &MvccStore, key: &[u8], start_ts: impl Into<TimeStamp>) {
    let start_ts = start_ts.into();
    match engine.get_txn_commit_record(&key.to_vec(), start_ts) {
        TxnCommitRecord::SingleRecord { commit_ts, write } => {
            assert_eq!(write.kind, WriteKind::Rollback);
            assert_eq!(commit_ts, start_ts);
        }
        TxnCommitRecord::OverlappedRollback { commit_ts } => assert_eq!(commit_ts, start_ts),
        other => panic!("no rollback record: {:?}", other),
    }
}

fn must_get_rollback_ts_none(engine: &MvccStore, key: &[u8], start_ts: impl Into<TimeStamp>) {
    match engine.get_txn_commit_record(&key.to_vec(), start_ts.into()) {
        TxnCommitRecord::SingleRecord { write, .. } => {
            assert_ne!(write.kind, WriteKind::Rollback)
        }
        TxnCommitRecord::OverlappedRollback { .. } => panic!("found an overlapped rollback"),
        TxnCommitRecord::Missing { .. } => {}
    }
}

fn must_get_rollback_protected(
    engine: &MvccStore,
    key: &[u8],
    start_ts: impl Into<TimeStamp>,
    protected: bool,
) {
    let start_ts = start_ts.into();
    let write = engine.get_write(&key.to_vec(), start_ts).unwrap();
    assert_eq!(write.start_ts, start_ts);
    assert_eq!(write.kind, WriteKind::Rollback);
    assert_eq!(write.protected, protected);
    assert_eq!(
        engine.has_protected_rollback(&key.to_vec(), start_ts),
        protected
    );
}

fn do_test_check_async_commit_txn_status(rollback_if_not_exist: bool) {
    let mut engine = MvccStore::new();
    let r = rollback_if_not_exist;

    // The primary is prewritten (optimistic)
    must_prewrite_put_async_commit(&mut engine, b"k1", b"v", 1, 2);
    // All following checks should return the unchanged lock information
    // caller_start_ts == current_ts == 0
    must_success(&mut engine, b"k1", 1, 0, 0, r, false, false, uncommitted(100, 2, false));
    // caller_start_ts != 0
    must_success(&mut engine, b"k1", 1, 5, 0, r, false, false, uncommitted(100, 2, false));
    // current_ts != 0
    must_success(&mut engine, b"k1", 1, 0, 8, r, false, false, uncommitted(100, 2, false));
    // caller_start_ts != 0 && current_ts != 0
    must_success(&mut engine, b"k1", 1, 10, 12, r, false, false, uncommitted(100, 2, false));
    // caller_start_ts == u64::MAX
    must_success(
        &mut engine,
        b"k1",
        1,
        TimeStamp::max(),
        12,
        r,
        false,
        false,
        uncommitted(100, 2, false),
    );
    // current_ts == u64::MAX
    must_success(
        &mut engine,
        b"k1",
        1,
        12,
        TimeStamp::max(),
        r,
        false,
        false,
        uncommitted(100, 2, false),
    );
    // force_sync_commit = true
    must_success(
        &mut engine,
        b"k1",
        1,
        12,
        TimeStamp::max(),
        r,
        true,
        false,
        |s| s == TxnStatus::TtlExpire,
    );
    must_unlocked(&engine, b"k1");
    // Every rollback that a status check writes is protected.
    must_get_rollback_protected(&engine, b"k1", 1, true);

    // The primary is prewritten (pessimistic)
    must_acquire_pessimistic_lock(&mut engine, b"k2", 15);
    must_pessimistic_prewrite_put_async_commit(&mut engine, b"k2", b"v", 15, 17);
    // All following checks should return the unchanged lock information
    // caller_start_ts == current_ts == 0
    must_success(&mut engine, b"k2", 15, 0, 0, r, false, false, uncommitted(100, 17, false));
    // caller_start_ts != 0
    must_success(&mut engine, b"k2", 15, 18, 0, r, false, false, uncommitted(100, 17, false));
    // current_ts != 0
    must_success(&mut engine, b"k2", 15, 0, 18, r, false, false, uncommitted(100, 17, false));
    // caller_start_ts != 0 && current_ts != 0
    must_success(&mut engine, b"k2", 15, 19, 20, r, false, false, uncommitted(100, 17, false));
    // caller_start_ts == u64::MAX
    must_success(
        &mut engine,
        b"k2",
        15,
        TimeStamp::max(),
        20,
        r,
        false,
        false,
        uncommitted(100, 17, false),
    );
    // current_ts == u64::MAX
    must_success(
        &mut engine,
        b"k2",
        15,
        20,
        TimeStamp::max(),
        r,
        false,
        false,
        uncommitted(100, 17, false),
    );
    // force_sync_commit = true
    must_success(
        &mut engine,
        b"k2",
        15,
        20,
        TimeStamp::max(),
        r,
        true,
        false,
        |s| s == TxnStatus::TtlExpire,
    );
    must_unlocked(&engine, b"k2");
    must_get_rollback_protected(&engine, b"k2", 15, true);

    // A pessimistic transaction with two keys (large txn), secondary is
    // prewritten first
    must_acquire_pessimistic_lock_for_large_txn(&mut engine, b"k3", 20, 20, 100);
    must_acquire_pessimistic_lock_for_large_txn(&mut engine, b"k4", 20, 25, 100);
    must_pessimistic_prewrite_put_async_commit(&mut engine, b"k4", b"v", 20, 28);
    // the client must check with caller_start_ts == current_ts == 0, should
    // not push
    must_success(&mut engine, b"k3", 20, 0, 0, r, false, false, uncommitted(100, 21, false));

    // A pessimistic transaction with two keys (not large txn), secondary
    // is prewritten first
    must_acquire_pessimistic_lock_with_ttl(&mut engine, b"k5", 30, 100);
    must_acquire_pessimistic_lock_with_ttl(&mut engine, b"k6", 30, 100);
    must_pessimistic_prewrite_put_async_commit(&mut engine, b"k6", b"v", 30, 36);
    // the client must check with caller_start_ts == current_ts == 0, should
    // not push
    must_success(&mut engine, b"k5", 30, 0, 0, r, false, false, uncommitted(100, 0, false));
}

#[test]
fn test_check_async_commit_txn_status() {
    do_test_check_async_commit_txn_status(true);
    do_test_check_async_commit_txn_status(false);
}

fn test_check_txn_status_impl(rollback_if_not_exist: bool) {
    let mut engine = MvccStore::new();

    let (k, v) = (b"k1", b"v1");

    let r = rollback_if_not_exist;

    let ts = TimeStamp::compose;

    // Try to check a not exist thing.
    if r {
        must_success(&mut engine, k, ts(3, 0), ts(3, 1), ts(3, 2), r, false, false, |s| {
            s == TxnStatus::LockNotExist
        });
        // A protected rollback record will be written.
        must_get_rollback_protected(&engine, k, ts(3, 0), true);
    } else {
        must_err(&mut engine, k, ts(3, 0), ts(3, 1), ts(3, 2), r, false, false);
    }

    // Lock the key with TTL=100.
    must_prewrite_put_for_large_txn(&mut engine, k, v, ts(5, 0), 100);
    // The initial min_commit_ts is start_ts + 1.
    must_large_txn_locked(&engine, k, ts(5, 0), 100, ts(5, 1), false);

    // A check with caller_start_ts = 0 and current_ts = 0 should just return
    // the information of the lock without changing it.
    must_success(&mut engine, k, ts(5, 0), 0, 0, r, false, false, uncommitted(100, ts(5, 1), false));

    // Update min_commit_ts to current_ts.
    must_success(
        &mut engine,
        k,
        ts(5, 0),
        ts(6, 0),
        ts(7, 0),
        r,
        false,
        false,
        uncommitted(100, ts(7, 0), true),
    );
    must_large_txn_locked(&engine, k, ts(5, 0), 100, ts(7, 0), false);

    // Update min_commit_ts to caller_start_ts + 1 if current_ts < caller_start_ts.
    // This case should be impossible. But if it happens, we prevents it.
    must_success(
        &mut engine,
        k,
        ts(5, 0),
        ts(9, 0),
        ts(8, 0),
        r,
        false,
        false,
        uncommitted(100, ts(9, 1), true),
    );
    must_large_txn_locked(&engine, k, ts(5, 0), 100, ts(9, 1), false);

    // caller_start_ts < lock.min_commit_ts < current_ts
    // When caller_start_ts < lock.min_commit_ts, no need to update it, but pushed
    // should be true.
    must_success(
        &mut engine,
        k,
        ts(5, 0),
        ts(8, 0),
        ts(10, 0),
        r,
        false,
        false,
        uncommitted(100, ts(9, 1), true),
    );
    must_large_txn_locked(&engine, k, ts(5, 0), 100, ts(9, 1), false);

    // current_ts < lock.min_commit_ts < caller_start_ts
    must_success(
        &mut engine,
        k,
        ts(5, 0),
        ts(11, 0),
        ts(9, 0),
        r,
        false,
        false,
        uncommitted(100, ts(11, 1), true),
    );
    must_large_txn_locked(&engine, k, ts(5, 0), 100, ts(11, 1), false);

    // For same caller_start_ts and current_ts, update min_commit_ts to
    // caller_start_ts + 1
    must_success(
        &mut engine,
        k,
        ts(5, 0),
        ts(12, 0),
        ts(12, 0),
        r,
        false,
        false,
        uncommitted(100, ts(12, 1), true),
    );
    must_large_txn_locked(&engine, k, ts(5, 0), 100, ts(12, 1), false);

    // Logical time is also considered in the comparing
    must_success(
        &mut engine,
        k,
        ts(5, 0),
        ts(13, 1),
        ts(13, 3),
        r,
        false,
        false,
        uncommitted(100, ts(13, 3), true),
    );
    must_large_txn_locked(&engine, k, ts(5, 0), 100, ts(13, 3), false);

    must_commit(&mut engine, k, ts(5, 0), ts(15, 0));
    must_unlocked(&engine, k);

    // Check committed key will get the commit ts.
    must_success(
        &mut engine,
        k,
        ts(5, 0),
        ts(12, 0),
        ts(12, 0),
        r,
        false,
        false,
        committed(ts(15, 0)),
    );
    must_unlocked(&engine, k);

    must_prewrite_put_for_large_txn(&mut engine, k, v, ts(20, 0), 100);

    // Check a committed transaction when there is another lock. Expect getting the
    // commit ts.
    must_success(
        &mut engine,
        k,
        ts(5, 0),
        ts(12, 0),
        ts(12, 0),
        r,
        false,
        false,
        committed(ts(15, 0)),
    );

    // Check a not existing transaction, the result depends on whether
    // `rollback_if_not_exist` is set.
    if r {
        must_success(&mut engine, k, ts(6, 0), ts(12, 0), ts(12, 0), r, false, false, |s| {
            s == TxnStatus::LockNotExist
        });
        // And a rollback record will be written.
        must_seek_write(&engine, k, ts(6, 0), ts(6, 0), ts(6, 0), WriteKind::Rollback);
    } else {
        must_err(&mut engine, k, ts(6, 0), ts(12, 0), ts(12, 0), r, false, false);
    }

    // TTL check is based on physical time (in ms). When logical time's difference
    // is larger than TTL, the lock won't be resolved.
    must_success(
        &mut engine,
        k,
        ts(20, 0),
        ts(21, 105),
        ts(21, 105),
        r,
        false,
        false,
        uncommitted(100, ts(21, 106), true),
    );
    must_large_txn_locked(&engine, k, ts(20, 0), 100, ts(21, 106), false);

    // If physical time's difference exceeds TTL, lock will be resolved.
    must_success(&mut engine, k, ts(20, 0), ts(121, 0), ts(121, 0), r, false, false, |s| {
        s == TxnStatus::TtlExpire
    });
    must_unlocked(&engine, k);
    must_seek_write(
        &engine,
        k,
        TimeStamp::max(),
        ts(20, 0),
        ts(20, 0),
        WriteKind::Rollback,
    );

    // Push the min_commit_ts of pessimistic locks.
    must_acquire_pessimistic_lock_for_large_txn(&mut engine, k, ts(4, 0), ts(130, 0), 200);
    must_large_txn_locked(&engine, k, ts(4, 0), 200, ts(130, 1), true);
    must_success(
        &mut engine,
        k,
        ts(4, 0),
        ts(135, 0),
        ts(135, 0),
        r,
        false,
        false,
        uncommitted(200, ts(135, 1), true),
    );
    must_large_txn_locked(&engine, k, ts(4, 0), 200, ts(135, 1), true);

    // Commit the key.
    must_pessimistic_prewrite_put(&mut engine, k, v);
    must_commit(&mut engine, k, ts(4, 0), ts(140, 0));
    must_unlocked(&engine, k);
    must_get_commit_ts(&engine, k, ts(4, 0), ts(140, 0));

    // Now the transactions are intersecting:
    // T1: start_ts = 5, commit_ts = 15
    // T2: start_ts = 20, rollback
    // T3: start_ts = 4, commit_ts = 140
    must_success(
        &mut engine,
        k,
        ts(4, 0),
        ts(10, 0),
        ts(10, 0),
        r,
        false,
        false,
        committed(ts(140, 0)),
    );
    must_success(
        &mut engine,
        k,
        ts(5, 0),
        ts(10, 0),
        ts(10, 0),
        r,
        false,
        false,
        committed(ts(15, 0)),
    );
    must_success(&mut engine, k, ts(20, 0), ts(10, 0), ts(10, 0), r, false, false, |s| {
        s == TxnStatus::RolledBack
    });

    // Rollback expired pessimistic lock.
    must_acquire_pessimistic_lock_for_large_txn(&mut engine, k, ts(150, 0), ts(150, 0), 100);
    must_success(
        &mut engine,
        k,
        ts(150, 0),
        ts(160, 0),
        ts(160, 0),
        r,
        false,
        false,
        uncommitted(100, ts(160, 1), true),
    );
    must_large_txn_locked(&engine, k, ts(150, 0), 100, ts(160, 1), true);
    must_success(&mut engine, k, ts(150, 0), ts(160, 0), ts(260, 0), r, false, false, |s| {
        s == TxnStatus::TtlExpire
    });
    must_unlocked(&engine, k);
    // Rolling back a pessimistic lock should leave Rollback mark.
    must_seek_write(
        &engine,
        k,
        TimeStamp::max(),
        ts(150, 0),
        ts(150, 0),
        WriteKind::Rollback,
    );

    // Rollback when current_ts is u64::max_value()
    must_prewrite_put_for_large_txn(&mut engine, k, v, ts(270, 0), 100);
    must_large_txn_locked(&engine, k, ts(270, 0), 100, ts(270, 1), false);
    must_success(
        &mut engine,
        k,
        ts(270, 0),
        ts(271, 0),
        TimeStamp::max(),
        r,
        false,
        false,
        |s| s == TxnStatus::TtlExpire,
    );
    must_unlocked(&engine, k);
    must_seek_write(
        &engine,
        k,
        TimeStamp::max(),
        ts(270, 0),
        ts(270, 0),
        WriteKind::Rollback,
    );

    must_acquire_pessimistic_lock_for_large_txn(&mut engine, k, ts(280, 0), ts(280, 0), 100);
    must_large_txn_locked(&engine, k, ts(280, 0), 100, ts(280, 1), true);
    must_success(
        &mut engine,
        k,
        ts(280, 0),
        ts(281, 0),
        TimeStamp::max(),
        r,
        false,
        false,
        |s| s == TxnStatus::TtlExpire,
    );
    must_unlocked(&engine, k);
    must_seek_write(
        &engine,
        k,
        TimeStamp::max(),
        ts(280, 0),
        ts(280, 0),
        WriteKind::Rollback,
    );

    // Don't push forward the min_commit_ts if the min_commit_ts of the lock is 0.
    must_acquire_pessimistic_lock_with_ttl(&mut engine, k, ts(290, 0), 100);
    must_success(
        &mut engine,
        k,
        ts(290, 0),
        ts(300, 0),
        ts(300, 0),
        r,
        false,
        false,
        uncommitted(100, TimeStamp::zero(), false),
    );
    must_large_txn_locked(&engine, k, ts(290, 0), 100, TimeStamp::zero(), true);
    must_pessimistic_rollback(&mut engine, k, ts(290, 0));

    must_prewrite_put_impl(&mut engine, k, v, ts(300, 0), 100, TimeStamp::zero());
    must_success(
        &mut engine,
        k,
        ts(300, 0),
        ts(310, 0),
        ts(310, 0),
        r,
        false,
        false,
        uncommitted(100, TimeStamp::zero(), false),
    );
    must_large_txn_locked(&engine, k, ts(300, 0), 100, TimeStamp::zero(), false);
    must_rollback(&mut engine, k, ts(300, 0), false);

    must_prewrite_put_for_large_txn(&mut engine, k, v, ts(310, 0), 100);
    must_large_txn_locked(&engine, k, ts(310, 0), 100, ts(310, 1), false);
    // Don't push forward the min_commit_ts if caller_start_ts is max, but pushed
    // should be true.
    must_success(
        &mut engine,
        k,
        ts(310, 0),
        TimeStamp::max(),
        ts(320, 0),
        r,
        false,
        false,
        uncommitted(100, ts(310, 1), true),
    );
    must_commit(&mut engine, k, ts(310, 0), ts(315, 0));
    must_success(
        &mut engine,
        k,
        ts(310, 0),
        TimeStamp::max(),
        ts(320, 0),
        r,
        false,
        false,
        committed(ts(315, 0)),
    );
}

#[test]
fn test_check_txn_status() {
    test_check_txn_status_impl(false);
    test_check_txn_status_impl(true);
}

#[test]
fn test_check_txn_status_resolving_pessimistic_lock() {
    let mut engine = MvccStore::new();
    let k = b"k1";
    let v = b"v1";
    let ts = TimeStamp::compose;

    // Check with resolving_pessimistic_lock flag.
    // Path: there is no commit or rollback record, no rollback record should be
    // written.
    must_success(&mut engine, k, ts(3, 0), ts(3, 0), ts(4, 0), true, false, true, |s| {
        s == TxnStatus::LockNotExistDoNothing
    });
    must_get_rollback_ts_none(&engine, k, ts(5, 0));

    // Path: there is no commit or rollback record, and the caller resolves a
    // pessimistic lock: nothing is written and nothing fails, also where
    // rollback_if_not_exist is set to false.
    must_success(&mut engine, k, ts(3, 0), ts(5, 0), ts(5, 0), false, false, true, |s| {
        s == TxnStatus::LockNotExistDoNothing
    });
    must_get_rollback_ts_none(&engine, k, ts(3, 0));

    // Path: the pessimistic primary key lock does exist, and it's not expired yet.
    must_acquire_pessimistic_lock_with_ttl(&mut engine, k, ts(10, 0), 10);
    must_pessimistic_locked(&engine, k, ts(10, 0));
    must_success(
        &mut engine,
        k,
        ts(10, 0),
        ts(11, 0),
        ts(11, 0),
        true,
        false,
        true,
        uncommitted(10, TimeStamp::zero(), false),
    );

    // Path: the pessimistic primary key lock does exist, and it's expired, the
    // primary lock will be pessimistically rolled back but there will not
    // be a rollback record.
    must_success(&mut engine, k, ts(10, 0), ts(21, 0), ts(21, 0), true, false, true, |s| {
        s == TxnStatus::PessimisticRollBack
    });
    must_unlocked(&engine, k);
    must_get_rollback_ts_none(&engine, k, ts(22, 0));

    // Path: the prewrite primary key lock does exist, and it's not expired yet.
    // Should return locked status.
    must_prewrite_put_impl(&mut engine, k, v, ts(30, 0), 10, TimeStamp::zero());
    must_success(
        &mut engine,
        k,
        ts(30, 0),
        ts(31, 0),
        ts(31, 0),
        true,
        false,
        true,
        uncommitted(10, TimeStamp::zero(), false),
    );

    // Path: the prewrite primary key expired and the solving key is a pessimistic
    // lock, rollback record should be written and the transaction status is
    // certain.
    must_success(&mut engine, k, ts(30, 0), ts(41, 0), ts(41, 0), true, false, true, |s| {
        s == TxnStatus::TtlExpire
    });
    must_unlocked(&engine, k);
    must_get_rollback_ts(&engine, k, ts(30, 0));

    // Path: the resolving_pessimistic_lock is false and the primary key lock is
    // pessimistic lock, the transaction is in commit phase and the rollback
    // record should be written.
    must_acquire_pessimistic_lock_with_ttl(&mut engine, k, ts(50, 0), 10);
    must_pessimistic_locked(&engine, k, ts(50, 0));
    must_success(
        &mut engine,
        k,
        ts(50, 0),
        ts(61, 0),
        ts(61, 0),
        true,
        false,
        // resolving_pessimistic_lock
        false,
        |s| s == TxnStatus::TtlExpire,
    );
    must_unlocked(&engine, k);
    must_get_rollback_ts(&engine, k, ts(50, 0));
}
