//! Reads of one request: every read sees the store as it was when the
//! request began.

use vstd::prelude::*;
use crate::lock::Lock;
use crate::modify::StoreView;
use crate::store::{opt_lock_view, opt_write_view, MvccStore, TxnCommitRecord};
use crate::timestamp::TimeStamp;
use crate::write::WriteRecord;

verus! {

/// Reads the records of a snapshot on behalf of the transaction that started
/// at `start_ts`. It borrows the snapshot, so nothing can change what it
/// reads while it lives.
pub struct SnapshotReader<'a> {
    /// The start timestamp of the transaction that the request is about.
    pub start_ts: TimeStamp,
    /// The store as it was when the request began.
    pub snapshot: &'a MvccStore,
}

impl<'a> SnapshotReader<'a> {
    /// The records that the reader sees.
    pub open spec fn store(&self) -> StoreView {
        self.snapshot@
    }

    /// The snapshot behind the reader is well formed.
    pub open spec fn wf(&self) -> bool {
        self.snapshot.wf()
    }

    /// What a well-formed reader sees is consistent.
    pub proof fn lemma_wf_consistent(&self)
        requires
            self.wf(),
        ensures
            self.store().consistent(),
    {
        self.snapshot.lemma_wf_consistent();
    }

    /// A reader of `snapshot` for the transaction that started at `start_ts`.
    pub fn new(start_ts: TimeStamp, snapshot: &'a MvccStore) -> (reader: SnapshotReader<'a>)
        requires
            snapshot.wf(),
        ensures
            reader.wf(),
            reader.start_ts == start_ts,
            reader.store() == snapshot@,
    {
        SnapshotReader { start_ts, snapshot }
    }

    /// The lock on `key`, if there is one.
    pub fn load_lock(&self, key: &Vec<u8>) -> (res: Option<Lock>)
        requires
            self.wf(),
        ensures
            opt_lock_view(res) == self.store().lock_of(key@),
    {
        self.snapshot.load_lock(key)
    }

    /// The most recent write record of `key` stored at or before `ts`.
    pub fn load_write_before(&self, key: &Vec<u8>, ts: TimeStamp) -> (res: Option<WriteRecord>)
        requires
            self.wf(),
        ensures
            opt_write_view(res) == self.store().write_before(key@, ts),
    {
        self.snapshot.load_write_before(key, ts)
    }

    /// The record stored under `(key, commit_ts)`, if there is one.
    pub fn get_write(&self, key: &Vec<u8>, commit_ts: TimeStamp) -> (res: Option<WriteRecord>)
        requires
            self.wf(),
        ensures
            opt_write_view(res) == self.store().write_at(key@, commit_ts),
    {
        self.snapshot.get_write(key, commit_ts)
    }

    /// Whether the history of `key` keeps the transaction that started at
    /// `ts` rolled back for good.
    pub fn has_protected_rollback(&self, key: &Vec<u8>, ts: TimeStamp) -> (res: bool)
        requires
            self.wf(),
        ensures
            res == self.store().has_protected_rollback(key@, ts),
    {
        self.snapshot.has_protected_rollback(key, ts)
    }

    /// What the history of `key` says of the reader's transaction.
    pub fn get_txn_commit_record(&self, key: &Vec<u8>) -> (res: TxnCommitRecord)
        requires
            self.wf(),
        ensures
            res@ == self.store().txn_commit_record(key@, self.start_ts),
    {
        self.snapshot.get_txn_commit_record(key, self.start_ts)
    }
}

} // verus!
