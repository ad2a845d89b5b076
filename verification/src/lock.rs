//! Lock records: one per currently locked key.

use vstd::prelude::*;
use crate::bytes::{bytes_eq, clone_bytes, clone_opt_bytes, opt_bytes_eq, opt_bytes_view};
use crate::timestamp::TimeStamp;

verus! {

/// What the locking transaction intends to do with the key.
#[derive(Clone, Copy, Debug, PartialEq, Eq, Structural)]
pub enum LockKind {
    /// The transaction writes a value.
    Put,
    /// The transaction deletes the key.
    Delete,
    /// The transaction only marks the key as read.
    MarkerOnly,
}

/// A lock that a transaction holds on a key.
#[derive(Debug, PartialEq, Eq)]
pub struct Lock {
    /// The key that the lock is on.
    pub key: Vec<u8>,
    /// The start timestamp of the transaction that owns the lock.
    pub start_ts: TimeStamp,
    /// Time to live in milliseconds, counted from the physical part of
    /// `start_ts`.
    pub ttl: u64,
    /// What the transaction intends to do with the key.
    pub kind: LockKind,
    /// Whether the lock was taken before the value to write was known.
    pub is_pessimistic: bool,
    /// The least timestamp at which the transaction may commit; zero while
    /// it is not determined.
    pub min_commit_ts: TimeStamp,
    /// The value to write, when it is short enough to travel with the lock.
    pub short_value: Option<Vec<u8>>,
    /// Whether the transaction commits asynchronously, so that the primary
    /// lock alone does not tell its fate.
    pub use_async_commit: bool,
}

/// The mathematical value of a [`Lock`].
pub struct LockView {
    pub key: Seq<u8>,
    pub start_ts: TimeStamp,
    pub ttl: u64,
    pub kind: LockKind,
    pub is_pessimistic: bool,
    pub min_commit_ts: TimeStamp,
    pub short_value: Option<Seq<u8>>,
    pub use_async_commit: bool,
}

impl LockView {
    /// This lock with another `min_commit_ts`.
    pub open spec fn with_min_commit_ts(self, ts: TimeStamp) -> LockView {
        LockView { min_commit_ts: ts, ..self }
    }
}

impl View for Lock {
    type V = LockView;

    open spec fn view(&self) -> LockView {
        LockView {
            key: self.key@,
            start_ts: self.start_ts,
            ttl: self.ttl,
            kind: self.kind,
            is_pessimistic: self.is_pessimistic,
            min_commit_ts: self.min_commit_ts,
            short_value: opt_bytes_view(self.short_value),
            use_async_commit: self.use_async_commit,
        }
    }
}

impl Lock {
    /// A lock on `key` for the transaction that started at `start_ts`, not
    /// pessimistic, not asynchronously committed, with no short value and an
    /// undetermined `min_commit_ts`.
    pub fn new(key: Vec<u8>, start_ts: TimeStamp, ttl: u64, kind: LockKind) -> (lock: Lock)
        ensures
            lock@ == (LockView {
                key: key@,
                start_ts,
                ttl,
                kind,
                is_pessimistic: false,
                min_commit_ts: TimeStamp(0),
                short_value: None,
                use_async_commit: false,
            }),
    {
        Lock {
            key,
            start_ts,
            ttl,
            kind,
            is_pessimistic: false,
            min_commit_ts: TimeStamp(0),
            short_value: None,
            use_async_commit: false,
        }
    }
}

impl Lock {
    /// Whether two locks hold the same values.
    pub fn same_as(&self, other: &Lock) -> (res: bool)
        ensures
            res == (self@ == other@),
    {
        bytes_eq(&self.key, &other.key) && self.start_ts == other.start_ts && self.ttl == other.ttl
            && self.kind == other.kind && self.is_pessimistic == other.is_pessimistic
            && self.min_commit_ts == other.min_commit_ts && opt_bytes_eq(
            &self.short_value,
            &other.short_value,
        ) && self.use_async_commit == other.use_async_commit
    }
}

impl Clone for Lock {
    fn clone(&self) -> (res: Lock)
        ensures
            res@ == self@,
    {
        Lock {
            key: clone_bytes(&self.key),
            start_ts: self.start_ts,
            ttl: self.ttl,
            kind: self.kind,
            is_pessimistic: self.is_pessimistic,
            min_commit_ts: self.min_commit_ts,
            short_value: clone_opt_bytes(&self.short_value),
            use_async_commit: self.use_async_commit,
        }
    }
}

} // verus!
