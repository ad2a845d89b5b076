//! Write records: the append-only history of commits and rollbacks of a key.

use vstd::prelude::*;
use crate::bytes::{clone_bytes, clone_opt_bytes, opt_bytes_view};
use crate::timestamp::TimeStamp;

verus! {

/// What a write record says happened to the key.
#[derive(Clone, Copy, Debug, PartialEq, Eq, Structural)]
pub enum WriteKind {
    /// A value was committed.
    Put,
    /// A deletion was committed.
    Delete,
    /// The transaction was rolled back.
    Rollback,
    /// The transaction committed without changing the key.
    LockOnly,
}

/// One entry of a key's history, stored under `(key, commit_ts)`.
#[derive(Debug, PartialEq, Eq)]
pub struct WriteRecord {
    /// The key that the record belongs to.
    pub key: Vec<u8>,
    /// The timestamp under which the record is stored. A rollback is stored
    /// under the start timestamp of the transaction it rolls back.
    pub commit_ts: TimeStamp,
    /// The start timestamp of the transaction that left the record.
    pub start_ts: TimeStamp,
    /// What happened.
    pub kind: WriteKind,
    /// The committed value, when it is short enough to travel with the record.
    pub short_value: Option<Vec<u8>>,
    /// On a rollback: whether it must survive, so that a late lock request of
    /// the same transaction finds it.
    pub protected: bool,
    /// Whether the record, besides what it says itself, also stands for a
    /// protected rollback of the transaction that started at `commit_ts`.
    pub has_overlapped_rollback: bool,
}

/// The mathematical value of a [`WriteRecord`].
pub struct WriteRecordView {
    pub key: Seq<u8>,
    pub commit_ts: TimeStamp,
    pub start_ts: TimeStamp,
    pub kind: WriteKind,
    pub short_value: Option<Seq<u8>>,
    pub protected: bool,
    pub has_overlapped_rollback: bool,
}

impl WriteRecordView {
    /// The rollback record of the transaction that started at `start_ts`.
    pub open spec fn rollback(key: Seq<u8>, start_ts: TimeStamp, protected: bool) -> WriteRecordView {
        WriteRecordView {
            key,
            commit_ts: start_ts,
            start_ts,
            kind: WriteKind::Rollback,
            short_value: None,
            protected,
            has_overlapped_rollback: false,
        }
    }

    /// This record, marked as also standing for a protected rollback of the
    /// transaction that started at its `commit_ts`.
    pub open spec fn with_overlapped_rollback(self) -> WriteRecordView {
        WriteRecordView { has_overlapped_rollback: true, ..self }
    }

    /// This record, marked as protected.
    pub open spec fn with_protection(self) -> WriteRecordView {
        WriteRecordView { protected: true, ..self }
    }

    /// Whether the record was left by the transaction that started at `ts`.
    pub open spec fn belongs_to(self, ts: TimeStamp) -> bool {
        self.start_ts == ts
    }

    /// Whether the record is a rollback of the transaction that started at
    /// `ts`, stored where such a rollback belongs.
    pub open spec fn is_rollback_of(self, ts: TimeStamp) -> bool {
        self.kind == WriteKind::Rollback && self.start_ts == ts && self.commit_ts == ts
    }

    /// Whether the record, stored under `ts`, keeps the transaction that
    /// started at `ts` rolled back for good.
    pub open spec fn protects_rollback_of(self, ts: TimeStamp) -> bool {
        self.commit_ts == ts && ((self.is_rollback_of(ts) && self.protected)
            || self.has_overlapped_rollback)
    }
}

impl View for WriteRecord {
    type V = WriteRecordView;

    open spec fn view(&self) -> WriteRecordView {
        WriteRecordView {
            key: self.key@,
            commit_ts: self.commit_ts,
            start_ts: self.start_ts,
            kind: self.kind,
            short_value: opt_bytes_view(self.short_value),
            protected: self.protected,
            has_overlapped_rollback: self.has_overlapped_rollback,
        }
    }
}

impl WriteRecord {
    /// The record of a commit at `commit_ts` by the transaction that started
    /// at `start_ts`.
    pub fn new(
        key: Vec<u8>,
        commit_ts: TimeStamp,
        start_ts: TimeStamp,
        kind: WriteKind,
        short_value: Option<Vec<u8>>,
    ) -> (record: WriteRecord)
        ensures
            record@ == (WriteRecordView {
                key: key@,
                commit_ts,
                start_ts,
                kind,
                short_value: opt_bytes_view(short_value),
                protected: false,
                has_overlapped_rollback: false,
            }),
    {
        WriteRecord {
            key,
            commit_ts,
            start_ts,
            kind,
            short_value,
            protected: false,
            has_overlapped_rollback: false,
        }
    }

    /// The rollback record of the transaction that started at `start_ts`.
    pub fn new_rollback(key: Vec<u8>, start_ts: TimeStamp, protected: bool) -> (record: WriteRecord)
        ensures
            record@ == WriteRecordView::rollback(key@, start_ts, protected),
    {
        WriteRecord {
            key,
            commit_ts: start_ts,
            start_ts,
            kind: WriteKind::Rollback,
            short_value: None,
            protected,
            has_overlapped_rollback: false,
        }
    }

    /// Marks the record as also standing for a protected rollback of the
    /// transaction that started at its `commit_ts`.
    pub fn set_overlapped_rollback(self) -> (record: WriteRecord)
        ensures
            record@ == self@.with_overlapped_rollback(),
    {
        WriteRecord {
            key: self.key,
            commit_ts: self.commit_ts,
            start_ts: self.start_ts,
            kind: self.kind,
            short_value: self.short_value,
            protected: self.protected,
            has_overlapped_rollback: true,
        }
    }

    /// Marks the record as protected.
    pub fn set_protected(self) -> (record: WriteRecord)
        ensures
            record@ == self@.with_protection(),
    {
        WriteRecord {
            key: self.key,
            commit_ts: self.commit_ts,
            start_ts: self.start_ts,
            kind: self.kind,
            short_value: self.short_value,
            protected: true,
            has_overlapped_rollback: self.has_overlapped_rollback,
        }
    }
}

impl Clone for WriteRecord {
    fn clone(&self) -> (res: WriteRecord)
        ensures
            res@ == self@,
    {
        WriteRecord {
            key: clone_bytes(&self.key),
            commit_ts: self.commit_ts,
            start_ts: self.start_ts,
            kind: self.kind,
            short_value: clone_opt_bytes(&self.short_value),
            protected: self.protected,
            has_overlapped_rollback: self.has_overlapped_rollback,
        }
    }
}

} // verus!
