//! Record mutations: what a request asks the store to change.

use vstd::prelude::*;
use crate::lock::{Lock, LockView};
use crate::timestamp::TimeStamp;
use crate::write::{WriteRecord, WriteRecordView};

verus! {

/// One pending change to the records of a key.
#[derive(Debug, PartialEq, Eq)]
pub enum Modify {
    /// Store the lock under its key, in place of any lock that is there.
    PutLock(Lock),
    /// Remove the lock of the key, if there is one.
    DeleteLock(Vec<u8>),
    /// Store the record under its key and commit timestamp.
    PutWrite(WriteRecord),
}

/// The mathematical value of a [`Modify`].
pub enum ModifyView {
    PutLock(LockView),
    DeleteLock(Seq<u8>),
    PutWrite(WriteRecordView),
}

impl View for Modify {
    type V = ModifyView;

    open spec fn view(&self) -> ModifyView {
        match *self {
            Modify::PutLock(lock) => ModifyView::PutLock(lock@),
            Modify::DeleteLock(key) => ModifyView::DeleteLock(key@),
            Modify::PutWrite(record) => ModifyView::PutWrite(record@),
        }
    }
}

/// The mathematical value of a list of mutations.
pub open spec fn modifies_view(modifies: Seq<Modify>) -> Seq<ModifyView> {
    modifies.map_values(|m: Modify| m@)
}

/// The records of every key at one moment: at most one lock per key, and at
/// most one write record per key and commit timestamp.
pub struct StoreView {
    pub locks: Map<Seq<u8>, LockView>,
    pub writes: Map<(Seq<u8>, TimeStamp), WriteRecordView>,
}

/// What the write history of a key says of one transaction.
pub enum CommitRecordView {
    /// The transaction left this record.
    Single { commit_ts: TimeStamp, write: WriteRecordView },
    /// The transaction left no record of its own, but the record stored under
    /// its start timestamp is marked as its protected rollback.
    OverlappedRollback { commit_ts: TimeStamp },
    /// Nothing is known of the transaction. If another transaction's record
    /// is stored under its start timestamp, that record is given.
    Missing { overlapped_write: Option<WriteRecordView> },
}

impl StoreView {
    /// The store without any record.
    pub open spec fn empty() -> StoreView {
        StoreView { locks: Map::empty(), writes: Map::empty() }
    }

    /// Every record is stored under the key and timestamp that it names.
    pub open spec fn consistent(self) -> bool {
        &&& forall|k: Seq<u8>| #[trigger] self.locks.contains_key(k) ==> self.locks[k].key == k
        &&& forall|k: Seq<u8>, c: TimeStamp| #[trigger]
            self.writes.contains_key((k, c)) ==> self.writes[(k, c)].key == k && self.writes[(
                k,
                c,
            )].commit_ts == c
    }

    /// The lock on `key`, if there is one.
    pub open spec fn lock_of(self, key: Seq<u8>) -> Option<LockView> {
        if self.locks.contains_key(key) {
            Some(self.locks[key])
        } else {
            None
        }
    }

    /// The record stored under `(key, commit_ts)`, if there is one.
    pub open spec fn write_at(self, key: Seq<u8>, commit_ts: TimeStamp) -> Option<
        WriteRecordView,
    > {
        if self.writes.contains_key((key, commit_ts)) {
            Some(self.writes[(key, commit_ts)])
        } else {
            None
        }
    }

    /// Whether the record stored under `(key, commit_ts)` was left by the
    /// transaction that started at `start_ts`.
    pub open spec fn has_record_of(
        self,
        key: Seq<u8>,
        start_ts: TimeStamp,
        commit_ts: TimeStamp,
    ) -> bool {
        self.writes.contains_key((key, commit_ts)) && self.writes[(key, commit_ts)].start_ts
            == start_ts
    }

    /// Whether `commit_ts` is the greatest timestamp under which a record of
    /// the transaction that started at `start_ts` is stored for `key`.
    pub open spec fn is_commit_ts_of(
        self,
        key: Seq<u8>,
        start_ts: TimeStamp,
        commit_ts: TimeStamp,
    ) -> bool {
        &&& self.has_record_of(key, start_ts, commit_ts)
        &&& forall|c: TimeStamp| #[trigger]
            self.has_record_of(key, start_ts, c) ==> c.0 <= commit_ts.0
    }

    /// What the history of `key` says of the transaction that started at
    /// `start_ts`: its latest record if it left one, else what is stored under
    /// `start_ts` itself.
    pub open spec fn txn_commit_record(self, key: Seq<u8>, start_ts: TimeStamp) -> CommitRecordView {
        if exists|c: TimeStamp| self.has_record_of(key, start_ts, c) {
            let commit_ts = choose|c: TimeStamp| self.is_commit_ts_of(key, start_ts, c);
            CommitRecordView::Single { commit_ts, write: self.writes[(key, commit_ts)] }
        } else if self.writes.contains_key((key, start_ts)) {
            let write = self.writes[(key, start_ts)];
            if write.has_overlapped_rollback {
                CommitRecordView::OverlappedRollback { commit_ts: start_ts }
            } else {
                CommitRecordView::Missing { overlapped_write: Some(write) }
            }
        } else {
            CommitRecordView::Missing { overlapped_write: None }
        }
    }

    /// Whether `commit_ts` is the greatest timestamp, not after `ts`, under
    /// which a record is stored for `key`.
    pub open spec fn is_latest_commit_before(
        self,
        key: Seq<u8>,
        ts: TimeStamp,
        commit_ts: TimeStamp,
    ) -> bool {
        &&& self.writes.contains_key((key, commit_ts))
        &&& commit_ts.0 <= ts.0
        &&& forall|c: TimeStamp| #[trigger]
            self.writes.contains_key((key, c)) && c.0 <= ts.0 ==> c.0 <= commit_ts.0
    }

    /// The most recent record of `key` stored at or before `ts`.
    pub open spec fn write_before(self, key: Seq<u8>, ts: TimeStamp) -> Option<WriteRecordView> {
        if exists|c: TimeStamp| self.writes.contains_key((key, c)) && c.0 <= ts.0 {
            let commit_ts = choose|c: TimeStamp| self.is_latest_commit_before(key, ts, c);
            Some(self.writes[(key, commit_ts)])
        } else {
            None
        }
    }

    /// Whether the history of `key` keeps the transaction that started at
    /// `ts` rolled back for good.
    pub open spec fn has_protected_rollback(self, key: Seq<u8>, ts: TimeStamp) -> bool {
        self.writes.contains_key((key, ts)) && self.writes[(key, ts)].protects_rollback_of(ts)
    }

    /// The record to store under `(key, ts)` so that the transaction that
    /// started at `ts` stays rolled back: what is stored there already, with
    /// the mark that fits it, or a new protected rollback.
    pub open spec fn protected_rollback_record(self, key: Seq<u8>, ts: TimeStamp) -> WriteRecordView {
        match self.write_at(key, ts) {
            Some(write) => if write.is_rollback_of(ts) {
                write.with_protection()
            } else {
                write.with_overlapped_rollback()
            },
            None => WriteRecordView::rollback(key, ts, true),
        }
    }

    /// The store after one mutation.
    pub open spec fn apply(self, m: ModifyView) -> StoreView {
        match m {
            ModifyView::PutLock(lock) => StoreView {
                locks: self.locks.insert(lock.key, lock),
                ..self
            },
            ModifyView::DeleteLock(key) => StoreView { locks: self.locks.remove(key), ..self },
            ModifyView::PutWrite(record) => StoreView {
                writes: self.writes.insert((record.key, record.commit_ts), record),
                ..self
            },
        }
    }

    /// The store after a list of mutations, applied in order.
    pub open spec fn apply_all(self, ms: Seq<ModifyView>) -> StoreView
        decreases ms.len(),
    {
        if ms.len() == 0 {
            self
        } else {
            self.apply_all(ms.drop_last()).apply(ms.last())
        }
    }
}

} // verus!
