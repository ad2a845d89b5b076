//! Why a request fails.

use vstd::prelude::*;
use crate::timestamp::TimeStamp;

verus! {

/// The failure of a request. Each kind tells the caller something different
/// to do next.
#[derive(Debug, PartialEq, Eq)]
pub enum Error {
    /// The storage engine refused or failed an operation. Nothing was
    /// changed; the request may be tried again.
    Engine(String),
    /// Neither a lock nor a write record of the transaction was found, and
    /// the caller did not ask for a rollback in that case.
    TxnNotFound { start_ts: TimeStamp, key: Vec<u8> },
    /// The request's deadline passed before its mutations were applied.
    /// Nothing was changed.
    DeadlineExceeded,
    /// Another transaction holds the lock on the key.
    KeyIsLocked { key: Vec<u8>, start_ts: TimeStamp },
    /// The transaction that asks for a lock was rolled back before.
    AlreadyRolledBack { start_ts: TimeStamp, key: Vec<u8> },
    /// The transaction that asks for a lock is committed already.
    Committed { start_ts: TimeStamp, commit_ts: TimeStamp, key: Vec<u8> },
}

/// The mathematical value of an [`Error`].
pub enum ErrorView {
    Engine(Seq<char>),
    TxnNotFound { start_ts: TimeStamp, key: Seq<u8> },
    DeadlineExceeded,
    KeyIsLocked { key: Seq<u8>, start_ts: TimeStamp },
    AlreadyRolledBack { start_ts: TimeStamp, key: Seq<u8> },
    Committed { start_ts: TimeStamp, commit_ts: TimeStamp, key: Seq<u8> },
}

impl View for Error {
    type V = ErrorView;

    open spec fn view(&self) -> ErrorView {
        match *self {
            Error::Engine(msg) => ErrorView::Engine(msg@),
            Error::TxnNotFound { start_ts, key } => ErrorView::TxnNotFound { start_ts, key: key@ },
            Error::DeadlineExceeded => ErrorView::DeadlineExceeded,
            Error::KeyIsLocked { key, start_ts } => ErrorView::KeyIsLocked { key: key@, start_ts },
            Error::AlreadyRolledBack { start_ts, key } => ErrorView::AlreadyRolledBack {
                start_ts,
                key: key@,
            },
            Error::Committed { start_ts, commit_ts, key } => ErrorView::Committed {
                start_ts,
                commit_ts,
                key: key@,
            },
        }
    }
}

} // verus!
