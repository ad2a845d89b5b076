//! Taking a lock: the first phase of a transaction's commit on one key.

use vstd::prelude::*;
use crate::bytes::clone_bytes;
use crate::error::{Error, ErrorView};
use crate::lock::{Lock, LockView};
use crate::modify::{CommitRecordView, ModifyView, StoreView};
use crate::reader::SnapshotReader;
use crate::store::TxnCommitRecord;
use crate::txn::MvccTxn;
use crate::write::WriteKind;

verus! {

/// What a lock request decides: success or the reason of the refusal, and
/// the mutations to apply.
pub struct LockDecision {
    pub status: Result<(), ErrorView>,
    pub modifies: Seq<ModifyView>,
}

/// The refusal of a lock request, with nothing to change.
pub open spec fn refused(err: ErrorView) -> LockDecision {
    LockDecision { status: Err(err), modifies: seq![] }
}

/// What is decided of the request to store `lock` on its key.
///
/// A transaction of which the history holds a record is refused: it was
/// rolled back or is committed. Else a key that another transaction has
/// locked is refused. A key that the transaction has locked already stays
/// as it is. An unlocked key gets the lock.
pub open spec fn decide_prewrite(store: StoreView, lock: LockView) -> LockDecision {
    match store.txn_commit_record(lock.key, lock.start_ts) {
        CommitRecordView::Single { commit_ts, write } => if write.kind == WriteKind::Rollback {
            refused(ErrorView::AlreadyRolledBack { start_ts: lock.start_ts, key: lock.key })
        } else {
            refused(ErrorView::Committed { start_ts: lock.start_ts, commit_ts, key: lock.key })
        },
        CommitRecordView::OverlappedRollback { .. } => refused(
            ErrorView::AlreadyRolledBack { start_ts: lock.start_ts, key: lock.key },
        ),
        CommitRecordView::Missing { .. } => match store.lock_of(lock.key) {
            Some(held) => if held.start_ts == lock.start_ts {
                LockDecision { status: Ok(()), modifies: seq![] }
            } else {
                refused(ErrorView::KeyIsLocked { key: lock.key, start_ts: held.start_ts })
            },
            None => LockDecision { status: Ok(()), modifies: seq![ModifyView::PutLock(lock)] },
        },
    }
}

/// The mathematical value of the result of a lock request.
pub open spec fn unit_result_view(res: Result<(), Error>) -> Result<(), ErrorView> {
    match res {
        Ok(_) => Ok(()),
        Err(e) => Err(e@),
    }
}

/// Asks to store `lock` on its key, for the transaction that the lock
/// names. See [`decide_prewrite`] for what is refused.
pub fn prewrite(txn: &mut MvccTxn, reader: &SnapshotReader, lock: Lock) -> (res: Result<(), Error>)
    requires
        reader.wf(),
    ensures
        final(txn).start_ts == old(txn).start_ts,
        unit_result_view(res) == decide_prewrite(reader.store(), lock@).status,
        final(txn)@ == old(txn)@ + decide_prewrite(reader.store(), lock@).modifies,
{
    match reader.snapshot.get_txn_commit_record(&lock.key, lock.start_ts) {
        TxnCommitRecord::SingleRecord { commit_ts, write } => {
            if write.kind == WriteKind::Rollback {
                return Err(Error::AlreadyRolledBack { start_ts: lock.start_ts, key: lock.key });
            }
            return Err(Error::Committed { start_ts: lock.start_ts, commit_ts, key: lock.key });
        },
        TxnCommitRecord::OverlappedRollback { .. } => {
            return Err(Error::AlreadyRolledBack { start_ts: lock.start_ts, key: lock.key });
        },
        TxnCommitRecord::Missing { .. } => {},
    }
    match reader.load_lock(&lock.key) {
        Some(held) => {
            if held.start_ts == lock.start_ts {
                Ok(())
            } else {
                Err(Error::KeyIsLocked { key: lock.key, start_ts: held.start_ts })
            }
        },
        None => {
            txn.put_lock(lock);
            Ok(())
        },
    }
}

/// Once the history of a key holds a protected rollback of a transaction,
/// the transaction's request for a lock on the key is refused, and changes
/// nothing.
pub proof fn lemma_protected_rollback_blocks_lock(store: StoreView, lock: LockView)
    requires
        store.has_protected_rollback(lock.key, lock.start_ts),
    ensures
        decide_prewrite(store, lock).status is Err,
        decide_prewrite(store, lock).modifies == Seq::<ModifyView>::empty(),
{
    let record = store.writes[(lock.key, lock.start_ts)];
    if record.is_rollback_of(lock.start_ts) {
        assert(store.has_record_of(lock.key, lock.start_ts, lock.start_ts));
    }
}

/// A lock request never touches the write history, so what is rolled back
/// for good stays so.
pub proof fn lemma_prewrite_keeps_history(store: StoreView, lock: LockView)
    ensures
        store.apply_all(decide_prewrite(store, lock).modifies).writes == store.writes,
{
    let d = decide_prewrite(store, lock);
    if d.modifies.len() > 0 {
        crate::laws::lemma_apply_one(store, ModifyView::PutLock(lock));
    }
}

} // verus!
