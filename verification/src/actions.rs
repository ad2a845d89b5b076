//! The decisions of status resolution: what to report of a transaction and
//! what to change, given what the snapshot holds for its primary key.

use vstd::prelude::*;
use crate::bytes::clone_bytes;
use crate::error::{Error, ErrorView};
use crate::lock::{Lock, LockView};
use crate::modify::{CommitRecordView, ModifyView, StoreView};
use crate::reader::SnapshotReader;
use crate::store::TxnCommitRecord;
use crate::timestamp::{later_of, TimeStamp};
use crate::txn::{opt_released_view, MvccTxn, ReleasedLock};
use crate::types::{status_result_view, TxnStatus, TxnStatusView};
use crate::write::{WriteKind, WriteRecord};

verus! {

/// What to do when neither a lock nor a write record of the transaction is
/// found.
#[derive(Clone, Copy, Debug, PartialEq, Eq, Structural)]
pub enum MissingLockAction {
    /// Write a protected rollback, so that the transaction can never lock
    /// the key later.
    ProtectedRollback,
    /// Report that the transaction is not found.
    ReturnError,
}

impl MissingLockAction {
    /// The action that the caller's choice stands for.
    pub open spec fn spec_rollback(rollback_if_not_exist: bool) -> MissingLockAction {
        if rollback_if_not_exist {
            MissingLockAction::ProtectedRollback
        } else {
            MissingLockAction::ReturnError
        }
    }

    /// The action that the caller's choice stands for.
    #[verifier::when_used_as_spec(spec_rollback)]
    pub fn rollback(rollback_if_not_exist: bool) -> (action: MissingLockAction)
        ensures
            action == MissingLockAction::spec_rollback(rollback_if_not_exist),
    {
        if rollback_if_not_exist {
            MissingLockAction::ProtectedRollback
        } else {
            MissingLockAction::ReturnError
        }
    }
}

/// What resolution decides: the status to report or the failure, the
/// mutations to apply, and the key whose lock is released, if any.
pub struct Resolution {
    pub status: Result<TxnStatusView, ErrorView>,
    pub modifies: Seq<ModifyView>,
    pub released: Option<Seq<u8>>,
}

/// Whether the lock has outlived its time to live at `current_ts`. Only the
/// physical parts count; an unbounded `current_ts` expires every lock.
pub open spec fn lock_expired(lock: LockView, current_ts: TimeStamp) -> bool {
    current_ts.spec_is_max() || current_ts.spec_physical() >= lock.start_ts.spec_physical()
        + lock.ttl
}

/// Whether the fate of the lock's transaction must be left open: it commits
/// asynchronously, and the caller neither knows that it fell back to an
/// ordinary commit nor resolves a pessimistic lock.
pub open spec fn awaits_async_commit(
    lock: LockView,
    force_sync_commit: bool,
    resolving_pessimistic_lock: bool,
) -> bool {
    lock.use_async_commit && !force_sync_commit && !resolving_pessimistic_lock
}

/// Whether a caller that started at `caller_start_ts` pushes the lock's
/// `min_commit_ts` forward: the bound is determined, the caller's start is
/// bounded, and the transaction could still commit at or before it.
pub open spec fn pushes_min_commit_ts(lock: LockView, caller_start_ts: TimeStamp) -> bool {
    !lock.min_commit_ts.spec_is_zero() && !caller_start_ts.spec_is_max() && caller_start_ts.0
        >= lock.min_commit_ts.0
}

/// The lock's `min_commit_ts` after a caller that started at
/// `caller_start_ts` met it at `current_ts`: where the caller pushes, the
/// later of the tick after its start and `current_ts`; else unchanged.
pub open spec fn pushed_min_commit_ts(
    lock: LockView,
    caller_start_ts: TimeStamp,
    current_ts: TimeStamp,
) -> TimeStamp {
    if pushes_min_commit_ts(lock, caller_start_ts) {
        later_of(TimeStamp((caller_start_ts.0 + 1) as u64), current_ts)
    } else {
        lock.min_commit_ts
    }
}

/// Whether a lock with this `min_commit_ts` can no longer block a reader
/// that started at `caller_start_ts`.
pub open spec fn min_commit_ts_pushed(min_commit_ts: TimeStamp, caller_start_ts: TimeStamp) -> bool {
    (!caller_start_ts.spec_is_zero() && min_commit_ts.0 > caller_start_ts.0)
        || caller_start_ts.spec_is_max()
}

/// The mutations that roll the lock's transaction back on its key: a
/// protected rollback record, then the removal of the lock.
pub open spec fn rollback_modifies(store: StoreView, lock: LockView) -> Seq<ModifyView> {
    seq![
        ModifyView::PutWrite(store.protected_rollback_record(lock.key, lock.start_ts)),
        ModifyView::DeleteLock(lock.key),
    ]
}

/// What resolution decides when the primary key holds the lock of the
/// transaction under scrutiny.
pub open spec fn resolve_lock_exists(
    store: StoreView,
    lock: LockView,
    current_ts: TimeStamp,
    caller_start_ts: TimeStamp,
    force_sync_commit: bool,
    resolving_pessimistic_lock: bool,
) -> Resolution {
    if awaits_async_commit(lock, force_sync_commit, resolving_pessimistic_lock) {
        Resolution {
            status: Ok(TxnStatusView::Uncommitted { lock, min_commit_ts_pushed: false }),
            modifies: seq![],
            released: None,
        }
    } else if lock_expired(lock, current_ts) {
        if lock.is_pessimistic && resolving_pessimistic_lock {
            Resolution {
                status: Ok(TxnStatusView::PessimisticRollBack),
                modifies: seq![ModifyView::DeleteLock(lock.key)],
                released: Some(lock.key),
            }
        } else {
            Resolution {
                status: Ok(TxnStatusView::TtlExpire),
                modifies: rollback_modifies(store, lock),
                released: Some(lock.key),
            }
        }
    } else {
        let min_commit_ts = pushed_min_commit_ts(lock, caller_start_ts, current_ts);
        let pushed = lock.with_min_commit_ts(min_commit_ts);
        Resolution {
            status: Ok(
                TxnStatusView::Uncommitted {
                    lock: pushed,
                    min_commit_ts_pushed: min_commit_ts_pushed(min_commit_ts, caller_start_ts),
                },
            ),
            modifies: if pushes_min_commit_ts(lock, caller_start_ts) {
                seq![ModifyView::PutLock(pushed)]
            } else {
                seq![]
            },
            released: None,
        }
    }
}

/// What resolution decides when the primary key holds no lock of the
/// transaction that started at `lock_ts`.
pub open spec fn resolve_missing_lock(
    store: StoreView,
    key: Seq<u8>,
    lock_ts: TimeStamp,
    action: MissingLockAction,
    resolving_pessimistic_lock: bool,
) -> Resolution {
    match store.txn_commit_record(key, lock_ts) {
        CommitRecordView::Single { commit_ts, write } => Resolution {
            status: if write.kind == WriteKind::Rollback {
                Ok(TxnStatusView::RolledBack)
            } else {
                Ok(TxnStatusView::Committed { commit_ts })
            },
            modifies: seq![],
            released: None,
        },
        CommitRecordView::OverlappedRollback { .. } => Resolution {
            status: Ok(TxnStatusView::RolledBack),
            modifies: seq![],
            released: None,
        },
        CommitRecordView::Missing { .. } => if resolving_pessimistic_lock {
            Resolution {
                status: Ok(TxnStatusView::LockNotExistDoNothing),
                modifies: seq![],
                released: None,
            }
        } else if action == MissingLockAction::ProtectedRollback {
            Resolution {
                status: Ok(TxnStatusView::LockNotExist),
                modifies: seq![
                    ModifyView::PutWrite(store.protected_rollback_record(key, lock_ts)),
                ],
                released: None,
            }
        } else {
            Resolution {
                status: Err(ErrorView::TxnNotFound { start_ts: lock_ts, key }),
                modifies: seq![],
                released: None,
            }
        },
    }
}

/// Whether the lock has outlived its time to live at `current_ts`.
pub fn is_lock_expired(lock: &Lock, current_ts: TimeStamp) -> (res: bool)
    ensures
        res == lock_expired(lock@, current_ts),
{
    if current_ts.is_max() {
        return true;
    }
    match lock.start_ts.physical().checked_add(lock.ttl) {
        Some(expiry) => current_ts.physical() >= expiry,
        None => false,
    }
}

/// The record to store under `(key, start_ts)` so that the transaction that
/// started at `start_ts` stays rolled back on `key`.
pub fn make_rollback(reader: &SnapshotReader, key: &Vec<u8>, start_ts: TimeStamp) -> (record:
    WriteRecord)
    requires
        reader.wf(),
    ensures
        record@ == reader.store().protected_rollback_record(key@, start_ts),
{
    match reader.get_write(key, start_ts) {
        Some(write) => {
            if write.kind == WriteKind::Rollback && write.start_ts == start_ts && write.commit_ts
                == start_ts {
                write.set_protected()
            } else {
                write.set_overlapped_rollback()
            }
        },
        None => WriteRecord::new_rollback(clone_bytes(key), start_ts, true),
    }
}

/// Rolls the lock's transaction back on its key: asks for a protected
/// rollback record and for the removal of the lock.
pub fn rollback_lock(txn: &mut MvccTxn, reader: &SnapshotReader, lock: &Lock) -> (released:
    ReleasedLock)
    requires
        reader.wf(),
    ensures
        final(txn).start_ts == old(txn).start_ts,
        final(txn)@ == old(txn)@ + rollback_modifies(reader.store(), lock@),
        released.key@ == lock@.key,
{
    let record = make_rollback(reader, &lock.key, lock.start_ts);
    txn.put_write(record);
    txn.unlock_key(clone_bytes(&lock.key))
}

/// Resolves the status of a transaction whose lock is on its primary key.
///
/// An asynchronously committing lock is reported unchanged unless the caller
/// may decide. An expired lock is removed, with a protected rollback record
/// unless the lock is pessimistic and the caller resolves a pessimistic
/// lock. A live lock gets its `min_commit_ts` pushed past the caller's start.
pub fn check_txn_status_lock_exists(
    txn: &mut MvccTxn,
    reader: &SnapshotReader,
    lock: Lock,
    current_ts: TimeStamp,
    caller_start_ts: TimeStamp,
    force_sync_commit: bool,
    resolving_pessimistic_lock: bool,
) -> (res: (TxnStatus, Option<ReleasedLock>))
    requires
        reader.wf(),
    ensures
        final(txn).start_ts == old(txn).start_ts,
        ({
            let r = resolve_lock_exists(
                reader.store(),
                lock@,
                current_ts,
                caller_start_ts,
                force_sync_commit,
                resolving_pessimistic_lock,
            );
            &&& r.status == Ok::<TxnStatusView, ErrorView>(res.0@)
            &&& final(txn)@ == old(txn)@ + r.modifies
            &&& opt_released_view(res.1) == r.released
        }),
{
    let mut lock = lock;
    if lock.use_async_commit && !force_sync_commit && !resolving_pessimistic_lock {
        return (TxnStatus::uncommitted(lock, false), None);
    }
    if is_lock_expired(&lock, current_ts) {
        if lock.is_pessimistic && resolving_pessimistic_lock {
            let released = txn.unlock_key(clone_bytes(&lock.key));
            return (TxnStatus::PessimisticRollBack, Some(released));
        }
        let released = rollback_lock(txn, reader, &lock);
        return (TxnStatus::TtlExpire, Some(released));
    }
    if !lock.min_commit_ts.is_zero() && !caller_start_ts.is_max() && caller_start_ts.0
        >= lock.min_commit_ts.0 {
        lock.min_commit_ts = caller_start_ts.next();
        if lock.min_commit_ts.0 < current_ts.0 {
            lock.min_commit_ts = current_ts;
        }
        txn.put_lock(lock.clone());
    }
    let min_commit_ts_pushed = (!caller_start_ts.is_zero() && lock.min_commit_ts.0
        > caller_start_ts.0) || caller_start_ts.is_max();
    (TxnStatus::uncommitted(lock, min_commit_ts_pushed), None)
}

/// Resolves the status of a transaction that holds no lock on its primary
/// key: by its write record if it left one, else by what the caller asks.
/// A caller that resolves a pessimistic lock never has a rollback written,
/// whatever `action` says.
pub fn check_txn_status_missing_lock(
    txn: &mut MvccTxn,
    reader: &SnapshotReader,
    primary_key: Vec<u8>,
    action: MissingLockAction,
    resolving_pessimistic_lock: bool,
) -> (res: Result<TxnStatus, Error>)
    requires
        reader.wf(),
    ensures
        final(txn).start_ts == old(txn).start_ts,
        ({
            let r = resolve_missing_lock(
                reader.store(),
                primary_key@,
                reader.start_ts,
                action,
                resolving_pessimistic_lock,
            );
            &&& r.status == status_result_view(res)
            &&& final(txn)@ == old(txn)@ + r.modifies
        }),
{
    match reader.get_txn_commit_record(&primary_key) {
        TxnCommitRecord::SingleRecord { commit_ts, write } => {
            if write.kind == WriteKind::Rollback {
                Ok(TxnStatus::RolledBack)
            } else {
                Ok(TxnStatus::committed(commit_ts))
            }
        },
        TxnCommitRecord::OverlappedRollback { .. } => Ok(TxnStatus::RolledBack),
        TxnCommitRecord::Missing { .. } => {
            if resolving_pessimistic_lock {
                return Ok(TxnStatus::LockNotExistDoNothing);
            }
            if action == MissingLockAction::ReturnError {
                return Err(Error::TxnNotFound { start_ts: reader.start_ts, key: primary_key });
            }
            let record = make_rollback(reader, &primary_key, reader.start_ts);
            txn.put_write(record);
            Ok(TxnStatus::LockNotExist)
        },
    }
}

} // verus!
