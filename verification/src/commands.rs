//! The request that checks the status of a transaction, and what it hands to
//! the layers around it.

use vstd::prelude::*;
use crate::actions::{
    check_txn_status_lock_exists, check_txn_status_missing_lock, resolve_lock_exists,
    resolve_missing_lock, MissingLockAction, Resolution,
};
use crate::concurrency_manager::ConcurrencyManager;
use crate::bytes::clone_bytes;
use crate::error::{Error, ErrorView};
use crate::lock::{Lock, LockView};
use crate::modify::{modifies_view, Modify, ModifyView, StoreView};
use crate::reader::SnapshotReader;
use crate::store::{opt_lock_view, MvccStore};
use crate::timestamp::{later_of, TimeStamp};
use crate::txn::{opt_wake_up_view, wake_up_for, MvccTxn, ReleasedLocks, WakeUp, WakeUpView};
use crate::types::{TxnStatus, TxnStatusView};

verus! {

/// The moment, in milliseconds of the caller's clock, after which a request
/// is abandoned.
#[derive(Clone, Copy, Debug, PartialEq, Eq, Structural)]
pub struct Deadline {
    pub at_ms: u64,
}

impl Deadline {
    /// Whether the deadline has passed at `now_ms`.
    pub open spec fn exceeded(self, now_ms: u64) -> bool {
        now_ms >= self.at_ms
    }

    /// A deadline `limit_ms` after `now_ms`, or never if that is past the
    /// end of the clock.
    pub fn from_now(now_ms: u64, limit_ms: u64) -> (deadline: Deadline)
        ensures
            deadline.at_ms == if now_ms + limit_ms > u64::MAX {
                u64::MAX
            } else {
                (now_ms + limit_ms) as u64
            },
    {
        Deadline { at_ms: now_ms.saturating_add(limit_ms) }
    }

    /// Fails if the deadline has passed at `now_ms`.
    pub fn check(&self, now_ms: u64) -> (res: Result<(), Error>)
        ensures
            res is Err <==> self.exceeded(now_ms),
            res matches Err(e) ==> e@ == ErrorView::DeadlineExceeded,
    {
        if now_ms >= self.at_ms {
            Err(Error::DeadlineExceeded)
        } else {
            Ok(())
        }
    }
}

/// When the caller may be answered.
#[derive(Clone, Copy, Debug, PartialEq, Eq, Structural)]
pub enum ResponsePolicy {
    /// Once the mutations are durably applied.
    OnApplied,
    /// Once the mutations are committed to the replication log.
    OnCommitted,
    /// Once the mutations are proposed for replication.
    OnProposed,
}

/// The mutations of a request, as handed to the storage write adapter, which
/// applies them all or none.
#[derive(Debug, PartialEq, Eq)]
pub struct WriteData {
    /// The mutations, in order.
    pub modifies: Vec<Modify>,
    /// Whether the adapter may apply them although the disk is almost full.
    pub allowed_on_disk_almost_full: bool,
}

/// The mathematical value of a [`WriteData`].
pub struct WriteDataView {
    pub modifies: Seq<ModifyView>,
    pub allowed_on_disk_almost_full: bool,
}

impl View for WriteData {
    type V = WriteDataView;

    open spec fn view(&self) -> WriteDataView {
        WriteDataView {
            modifies: modifies_view(self.modifies@),
            allowed_on_disk_almost_full: self.allowed_on_disk_almost_full,
        }
    }
}

impl WriteData {
    /// Wraps a list of mutations.
    pub fn from_modifies(modifies: Vec<Modify>) -> (data: WriteData)
        ensures
            data@ == (WriteDataView {
                modifies: modifies_view(modifies@),
                allowed_on_disk_almost_full: false,
            }),
    {
        WriteData { modifies, allowed_on_disk_almost_full: false }
    }

    /// Lets the adapter apply the mutations although the disk is almost
    /// full.
    pub fn set_allowed_on_disk_almost_full(&mut self)
        ensures
            final(self)@ == (WriteDataView { allowed_on_disk_almost_full: true, ..old(self)@ }),
    {
        self.allowed_on_disk_almost_full = true;
    }
}

/// What a request has read of the lock on its key. The decision rests on
/// it, so the mutations may be applied only while the store still holds it.
#[derive(Debug, PartialEq, Eq)]
pub struct LockRead {
    /// The key whose lock was read.
    pub key: Vec<u8>,
    /// The lock that was found, if any.
    pub lock: Option<Lock>,
}

/// The mathematical value of a [`LockRead`].
pub struct LockReadView {
    pub key: Seq<u8>,
    pub lock: Option<LockView>,
}

impl View for LockRead {
    type V = LockReadView;

    open spec fn view(&self) -> LockReadView {
        LockReadView { key: self.key@, lock: opt_lock_view(self.lock) }
    }
}

impl LockReadView {
    /// Whether the store still holds what was read.
    pub open spec fn is_current(self, store: StoreView) -> bool {
        store.lock_of(self.key) == self.lock
    }
}

/// What a request reports to its caller.
#[derive(Debug, PartialEq, Eq)]
pub enum ProcessResult {
    /// The status of the transaction.
    TxnStatus { txn_status: TxnStatus },
    /// The request failed.
    Failed { err: Error },
}

/// The mathematical value of a [`ProcessResult`].
pub enum ProcessResultView {
    TxnStatus { txn_status: TxnStatusView },
    Failed { err: ErrorView },
}

impl View for ProcessResult {
    type V = ProcessResultView;

    open spec fn view(&self) -> ProcessResultView {
        match *self {
            ProcessResult::TxnStatus { txn_status } => ProcessResultView::TxnStatus {
                txn_status: txn_status@,
            },
            ProcessResult::Failed { err } => ProcessResultView::Failed { err: err@ },
        }
    }
}

/// What processing a request produces: the mutations to apply, the answer
/// for the caller, and the message for the lock manager.
#[derive(Debug)]
pub struct WriteResult {
    /// The mutations for the storage write adapter.
    pub to_be_write: WriteData,
    /// The number of rows that the request touched.
    pub rows: usize,
    /// The answer for the caller.
    pub pr: ProcessResult,
    /// The message for the lock manager, if a lock is released.
    pub wake_up: Option<WakeUp>,
    /// When the caller may be answered.
    pub response_policy: ResponsePolicy,
    /// The lock state that the mutations are conditioned on.
    pub lock_read: LockRead,
}

/// The mathematical value of a [`WriteResult`].
pub struct WriteResultView {
    pub lock_read: LockReadView,
    pub to_be_write: WriteDataView,
    pub rows: usize,
    pub pr: ProcessResultView,
    pub wake_up: Option<WakeUpView>,
    pub response_policy: ResponsePolicy,
}

impl View for WriteResult {
    type V = WriteResultView;

    open spec fn view(&self) -> WriteResultView {
        WriteResultView {
            lock_read: self.lock_read@,
            to_be_write: self.to_be_write@,
            rows: self.rows,
            pr: self.pr@,
            wake_up: opt_wake_up_view(self.wake_up),
            response_policy: self.response_policy,
        }
    }
}

/// The mathematical value of the result of processing a request.
pub open spec fn write_result_view(res: Result<WriteResult, Error>) -> Result<
    WriteResultView,
    ErrorView,
> {
    match res {
        Ok(w) => Ok(w@),
        Err(e) => Err(e@),
    }
}

/// Checks the status of a transaction on its primary key. A transaction that
/// meets another transaction's lock sends it: an expired primary lock is
/// rolled back, a live one may get its `min_commit_ts` pushed.
#[derive(Clone, Debug, PartialEq, Eq)]
pub struct CheckTxnStatus {
    /// The primary key of the transaction under scrutiny.
    pub primary_key: Vec<u8>,
    /// The start timestamp of the transaction under scrutiny.
    pub lock_ts: TimeStamp,
    /// The start timestamp of the transaction that asks, or unbounded.
    pub caller_start_ts: TimeStamp,
    /// The approximate time at which the request is made, or unbounded to
    /// expire the lock at once.
    pub current_ts: TimeStamp,
    /// Whether to roll the transaction back when nothing is found of it.
    pub rollback_if_not_exist: bool,
    /// Whether the transaction is known to have fallen back from
    /// asynchronous commit.
    pub force_sync_commit: bool,
    /// Whether the caller resolves a pessimistic lock of the transaction.
    pub resolving_pessimistic_lock: bool,
    /// When the request is abandoned.
    pub deadline: Deadline,
}

/// The mathematical value of a [`CheckTxnStatus`].
pub struct CheckTxnStatusView {
    pub primary_key: Seq<u8>,
    pub lock_ts: TimeStamp,
    pub caller_start_ts: TimeStamp,
    pub current_ts: TimeStamp,
    pub rollback_if_not_exist: bool,
    pub force_sync_commit: bool,
    pub resolving_pessimistic_lock: bool,
    pub deadline: Deadline,
}

impl View for CheckTxnStatus {
    type V = CheckTxnStatusView;

    open spec fn view(&self) -> CheckTxnStatusView {
        CheckTxnStatusView {
            primary_key: self.primary_key@,
            lock_ts: self.lock_ts,
            caller_start_ts: self.caller_start_ts,
            current_ts: self.current_ts,
            rollback_if_not_exist: self.rollback_if_not_exist,
            force_sync_commit: self.force_sync_commit,
            resolving_pessimistic_lock: self.resolving_pessimistic_lock,
            deadline: self.deadline,
        }
    }
}

impl CheckTxnStatusView {
    /// The timestamp that the request shows the coordinator: the latest of
    /// `lock_ts` and those of `current_ts` and `caller_start_ts` that are
    /// bounded.
    pub open spec fn new_max_ts(self) -> TimeStamp {
        let with_current = if !self.current_ts.spec_is_max() {
            later_of(self.lock_ts, self.current_ts)
        } else {
            self.lock_ts
        };
        if !self.caller_start_ts.spec_is_max() {
            later_of(with_current, self.caller_start_ts)
        } else {
            with_current
        }
    }

    /// What resolution decides on a store: by the lock of the primary key if
    /// it belongs to the transaction, else by the write history.
    pub open spec fn resolve(self, store: StoreView) -> Resolution {
        match store.lock_of(self.primary_key) {
            Some(lock) => if lock.start_ts == self.lock_ts {
                resolve_lock_exists(
                    store,
                    lock,
                    self.current_ts,
                    self.caller_start_ts,
                    self.force_sync_commit,
                    self.resolving_pessimistic_lock,
                )
            } else {
                self.resolve_missing(store)
            },
            None => self.resolve_missing(store),
        }
    }

    /// What resolution decides when the primary key holds no lock of the
    /// transaction.
    pub open spec fn resolve_missing(self, store: StoreView) -> Resolution {
        resolve_missing_lock(
            store,
            self.primary_key,
            self.lock_ts,
            MissingLockAction::spec_rollback(self.rollback_if_not_exist),
            self.resolving_pessimistic_lock,
        )
    }

    /// The message for the lock manager: the released key, where the lock
    /// was found expired and removed.
    pub open spec fn wake_up(self, r: Resolution) -> Option<WakeUpView> {
        if r.status == Ok::<TxnStatusView, ErrorView>(TxnStatusView::TtlExpire) || r.status == Ok::<
            TxnStatusView,
            ErrorView,
        >(TxnStatusView::PessimisticRollBack) {
            wake_up_for(
                self.lock_ts,
                TimeStamp(0),
                match r.released {
                    Some(key) => seq![key],
                    None => seq![],
                },
            )
        } else {
            None
        }
    }

    /// What processing the request on a store produces.
    pub open spec fn process(self, store: StoreView) -> Result<WriteResultView, ErrorView> {
        let r = self.resolve(store);
        match r.status {
            Ok(txn_status) => Ok(
                WriteResultView {
                    lock_read: LockReadView {
                        key: self.primary_key,
                        lock: store.lock_of(self.primary_key),
                    },
                    to_be_write: WriteDataView {
                        modifies: r.modifies,
                        allowed_on_disk_almost_full: true,
                    },
                    rows: 1,
                    pr: ProcessResultView::TxnStatus { txn_status },
                    wake_up: self.wake_up(r),
                    response_policy: ResponsePolicy::OnApplied,
                },
            ),
            Err(e) => Err(e),
        }
    }
}

impl CheckTxnStatus {
    /// The timestamp that the request shows the coordinator before it is
    /// resolved: the latest of `lock_ts` and those of `current_ts` and
    /// `caller_start_ts` that are bounded.
    pub fn new_max_ts(&self) -> (ts: TimeStamp)
        ensures
            ts == self@.new_max_ts(),
    {
        let mut new_max_ts = self.lock_ts;
        if !self.current_ts.is_max() && self.current_ts.0 > new_max_ts.0 {
            new_max_ts = self.current_ts;
        }
        if !self.caller_start_ts.is_max() && self.caller_start_ts.0 > new_max_ts.0 {
            new_max_ts = self.caller_start_ts;
        }
        new_max_ts
    }

    /// Processes the request against a snapshot.
    ///
    /// The coordinator is shown the latest bounded timestamp of the request.
    /// Then the status is resolved: by the lock on the primary key if it is
    /// the transaction's, else by the write history. Nothing is changed
    /// here: the mutations are handed back, to be applied as one unit while
    /// the primary key's lock is still as it was read, and the caller is to
    /// be answered once they are applied.
    pub fn process_write(self, snapshot: &MvccStore, cm: &mut ConcurrencyManager) -> (res: Result<
        WriteResult,
        Error,
    >)
        requires
            snapshot.wf(),
        ensures
            final(cm).spec_max_ts() == later_of(old(cm).spec_max_ts(), self@.new_max_ts()),
            final(cm).spec_max_ts().0 >= old(cm).spec_max_ts().0,
            write_result_view(res) == self@.process(snapshot@),
    {
        cm.update_max_ts(self.new_max_ts());

        let mut txn = MvccTxn::new(self.lock_ts);
        let reader = SnapshotReader::new(self.lock_ts, snapshot);
        let ghost r = self@.resolve(snapshot@);

        let loaded = reader.load_lock(&self.primary_key);
        let lock_read = LockRead {
            key: clone_bytes(&self.primary_key),
            lock: match &loaded {
                Some(lock) => Some(lock.clone()),
                None => None,
            },
        };
        let is_own = match &loaded {
            Some(lock) => lock.start_ts == self.lock_ts,
            None => false,
        };
        let (txn_status, released) = if is_own {
            check_txn_status_lock_exists(
                &mut txn,
                &reader,
                loaded.unwrap(),
                self.current_ts,
                self.caller_start_ts,
                self.force_sync_commit,
                self.resolving_pessimistic_lock,
            )
        } else {
            let status = check_txn_status_missing_lock(
                &mut txn,
                &reader,
                self.primary_key,
                MissingLockAction::rollback(self.rollback_if_not_exist),
                self.resolving_pessimistic_lock,
            );
            match status {
                Ok(s) => (s, None),
                Err(e) => {
                    return Err(e);
                },
            }
        };
        proof {
            assert(txn@ =~= r.modifies);
            assert(r.status == Ok::<TxnStatusView, ErrorView>(txn_status@));
        }

        let mut released_locks = ReleasedLocks::new(self.lock_ts, TimeStamp::zero());
        released_locks.push(released);
        let expired = match &txn_status {
            TxnStatus::TtlExpire => true,
            TxnStatus::PessimisticRollBack => true,
            _ => false,
        };
        let wake_up = if expired {
            released_locks.wake_up()
        } else {
            None
        };

        let pr = ProcessResult::TxnStatus { txn_status };
        let mut write_data = WriteData::from_modifies(txn.into_modifies());
        write_data.set_allowed_on_disk_almost_full();
        Ok(
            WriteResult {
                to_be_write: write_data,
                rows: 1,
                pr,
                wake_up,
                response_policy: ResponsePolicy::OnApplied,
                lock_read,
            },
        )
    }
}

} // verus!
