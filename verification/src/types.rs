//! What a request reports back.

use vstd::prelude::*;
use crate::error::{Error, ErrorView};
use crate::lock::{Lock, LockView};
use crate::timestamp::TimeStamp;

verus! {

/// The state of a transaction, as its primary key shows it.
#[derive(Debug, PartialEq, Eq)]
pub enum TxnStatus {
    /// The transaction was rolled back before.
    RolledBack,
    /// The lock had outlived its time to live; the transaction is rolled
    /// back by this request.
    TtlExpire,
    /// The transaction is committed.
    Committed { commit_ts: TimeStamp },
    /// The transaction still holds its lock. `min_commit_ts_pushed` tells the
    /// caller that the transaction cannot commit before the caller's start.
    Uncommitted { lock: Lock, min_commit_ts_pushed: bool },
    /// Nothing was found of the transaction; a rollback is written by this
    /// request.
    LockNotExist,
    /// Nothing was found of the transaction, and nothing is written.
    LockNotExistDoNothing,
    /// The expired pessimistic lock is removed by this request, without a
    /// rollback record.
    PessimisticRollBack,
}

/// The mathematical value of a [`TxnStatus`].
pub enum TxnStatusView {
    RolledBack,
    TtlExpire,
    Committed { commit_ts: TimeStamp },
    Uncommitted { lock: LockView, min_commit_ts_pushed: bool },
    LockNotExist,
    LockNotExistDoNothing,
    PessimisticRollBack,
}

impl TxnStatusView {
    /// Whether the status is final: the transaction is committed or rolled
    /// back, and a record of it is in the store.
    pub open spec fn is_terminal(self) -> bool {
        self is Committed || self is RolledBack
    }
}

impl View for TxnStatus {
    type V = TxnStatusView;

    open spec fn view(&self) -> TxnStatusView {
        match *self {
            TxnStatus::RolledBack => TxnStatusView::RolledBack,
            TxnStatus::TtlExpire => TxnStatusView::TtlExpire,
            TxnStatus::Committed { commit_ts } => TxnStatusView::Committed { commit_ts },
            TxnStatus::Uncommitted { lock, min_commit_ts_pushed } => TxnStatusView::Uncommitted {
                lock: lock@,
                min_commit_ts_pushed,
            },
            TxnStatus::LockNotExist => TxnStatusView::LockNotExist,
            TxnStatus::LockNotExistDoNothing => TxnStatusView::LockNotExistDoNothing,
            TxnStatus::PessimisticRollBack => TxnStatusView::PessimisticRollBack,
        }
    }
}

impl TxnStatus {
    /// The status of a transaction that still holds `lock`.
    pub fn uncommitted(lock: Lock, min_commit_ts_pushed: bool) -> (status: TxnStatus)
        ensures
            status@ == (TxnStatusView::Uncommitted { lock: lock@, min_commit_ts_pushed }),
    {
        TxnStatus::Uncommitted { lock, min_commit_ts_pushed }
    }

    /// The status of a transaction that committed at `commit_ts`.
    pub fn committed(commit_ts: TimeStamp) -> (status: TxnStatus)
        ensures
            status@ == (TxnStatusView::Committed { commit_ts }),
    {
        TxnStatus::Committed { commit_ts }
    }
}

/// The mathematical value of the result of a request.
pub open spec fn status_result_view(res: Result<TxnStatus, Error>) -> Result<
    TxnStatusView,
    ErrorView,
> {
    match res {
        Ok(status) => Ok(status@),
        Err(e) => Err(e@),
    }
}

} // verus!
