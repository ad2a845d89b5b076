//! Runs a request to its end: deadline, decision, atomic apply, answer.

use vstd::prelude::*;
use crate::commands::{
    CheckTxnStatus, CheckTxnStatusView, ProcessResult, ProcessResultView, WriteResult,
    WriteResultView,
};
use crate::concurrency_manager::ConcurrencyManager;
use crate::error::{Error, ErrorView};
use crate::modify::StoreView;
use crate::store::MvccStore;
use crate::timestamp::{later_of, TimeStamp};
use crate::txn::{opt_wake_up_view, WakeUp, WakeUpView};

verus! {

/// What the caller and the lock manager get once a request has run.
#[derive(Debug, PartialEq, Eq)]
pub struct Response {
    /// The answer for the caller.
    pub pr: ProcessResult,
    /// The number of rows that the request touched.
    pub rows: usize,
    /// The message for the lock manager, if a lock was released.
    pub wake_up: Option<WakeUp>,
}

/// The mathematical value of a [`Response`].
pub struct ResponseView {
    pub pr: ProcessResultView,
    pub rows: usize,
    pub wake_up: Option<WakeUpView>,
}

impl View for Response {
    type V = ResponseView;

    open spec fn view(&self) -> ResponseView {
        ResponseView { pr: self.pr@, rows: self.rows, wake_up: opt_wake_up_view(self.wake_up) }
    }
}

impl CheckTxnStatusView {
    /// The store after the request has run at `now_ms`: unchanged if the
    /// deadline has passed or the request fails, else with all its
    /// mutations applied.
    pub open spec fn store_after(self, store: StoreView, now_ms: u64) -> StoreView {
        if self.deadline.exceeded(now_ms) {
            store
        } else {
            match self.process(store) {
                Ok(w) => store.apply_all(w.to_be_write.modifies),
                Err(_) => store,
            }
        }
    }

    /// The coordinator's mark after the request has run at `now_ms`.
    pub open spec fn max_ts_after(self, max_ts: TimeStamp, now_ms: u64) -> TimeStamp {
        if self.deadline.exceeded(now_ms) {
            max_ts
        } else {
            later_of(max_ts, self.new_max_ts())
        }
    }

    /// The response to the request, run at `now_ms` on `store`.
    pub open spec fn response(self, store: StoreView, now_ms: u64) -> ResponseView {
        if self.deadline.exceeded(now_ms) {
            ResponseView {
                pr: ProcessResultView::Failed { err: ErrorView::DeadlineExceeded },
                rows: 0,
                wake_up: None,
            }
        } else {
            match self.process(store) {
                Ok(w) => ResponseView { pr: w.pr, rows: w.rows, wake_up: w.wake_up },
                Err(err) => ResponseView {
                    pr: ProcessResultView::Failed { err },
                    rows: 0,
                    wake_up: None,
                },
            }
        }
    }
}

/// The mathematical value of an optional [`Response`].
pub open spec fn opt_response_view(res: Option<Response>) -> Option<ResponseView> {
    match res {
        Some(r) => Some(r@),
        None => None,
    }
}

impl WriteResultView {
    /// The response that the result stands for once it is applied.
    pub open spec fn response(self) -> ResponseView {
        ResponseView { pr: self.pr, rows: self.rows, wake_up: self.wake_up }
    }

    /// The store after the attempt to apply the result: with all mutations
    /// applied if the lock is still as the request read it, else unchanged.
    pub open spec fn store_after(self, store: StoreView) -> StoreView {
        if self.lock_read.is_current(store) {
            store.apply_all(self.to_be_write.modifies)
        } else {
            store
        }
    }
}

/// Applies what a request has decided, on the condition that the lock on
/// its key is still as the request read it. If another request has changed
/// or removed the lock since, nothing is applied and there is no response:
/// the request must be decided again on the store as it is now.
pub fn apply_if_current(result: WriteResult, store: &mut MvccStore) -> (res: Option<Response>)
    requires
        old(store).wf(),
    ensures
        final(store).wf(),
        final(store)@ == result@.store_after(old(store)@),
        opt_response_view(res) == if result@.lock_read.is_current(old(store)@) {
            Some(result@.response())
        } else {
            None
        },
{
    if !store.lock_is(&result.lock_read.key, &result.lock_read.lock) {
        return None;
    }
    store.write(result.to_be_write.modifies);
    Some(Response { pr: result.pr, rows: result.rows, wake_up: result.wake_up })
}

/// Runs a status check at `now_ms`. A request whose deadline has passed
/// changes nothing. Otherwise the request is decided against the store as it
/// stands, and its mutations are applied together before the answer is
/// given.
pub fn execute(
    cmd: CheckTxnStatus,
    store: &mut MvccStore,
    cm: &mut ConcurrencyManager,
    now_ms: u64,
) -> (res: Response)
    requires
        old(store).wf(),
    ensures
        final(store).wf(),
        final(store)@ == cmd@.store_after(old(store)@, now_ms),
        final(cm).spec_max_ts() == cmd@.max_ts_after(old(cm).spec_max_ts(), now_ms),
        final(cm).spec_max_ts().0 >= old(cm).spec_max_ts().0,
        res@ == cmd@.response(old(store)@, now_ms),
{
    match cmd.deadline.check(now_ms) {
        Err(err) => {
            return Response { pr: ProcessResult::Failed { err }, rows: 0, wake_up: None };
        },
        Ok(_) => {},
    }
    match cmd.process_write(&*store, cm) {
        Ok(result) => apply_if_current(result, store).unwrap(),
        Err(err) => Response { pr: ProcessResult::Failed { err }, rows: 0, wake_up: None },
    }
}

} // verus!
