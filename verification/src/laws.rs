//! What holds of status resolution on every store and for every request.

use vstd::prelude::*;
use crate::actions::{awaits_async_commit, lock_expired, Resolution};
use crate::commands::CheckTxnStatusView;
use crate::error::ErrorView;
use crate::lock::LockView;
use crate::modify::{ModifyView, StoreView};
use crate::timestamp::TimeStamp;
use crate::types::TxnStatusView;
use crate::write::WriteKind;

verus! {

/// Applying a list of one mutation applies that mutation.
pub proof fn lemma_apply_one(store: StoreView, m: ModifyView)
    ensures
        store.apply_all(seq![m]) == store.apply(m),
{
    assert(seq![m].drop_last() =~= Seq::<ModifyView>::empty());
    assert(store.apply_all(seq![m].drop_last()) == store);
}

/// Applying a list of two mutations applies the first, then the second.
pub proof fn lemma_apply_two(store: StoreView, a: ModifyView, b: ModifyView)
    ensures
        store.apply_all(seq![a, b]) == store.apply(a).apply(b),
{
    assert(seq![a, b].drop_last() =~= seq![a]);
    lemma_apply_one(store, a);
}

/// The mutations that resolution decides on have one of five shapes.
pub proof fn lemma_resolve_shapes(cmd: CheckTxnStatusView, store: StoreView)
    requires
        store.consistent(),
    ensures
        ({
            let r = cmd.resolve(store);
            let key = cmd.primary_key;
            let rollback = ModifyView::PutWrite(
                store.protected_rollback_record(key, cmd.lock_ts),
            );
            match r.status {
                Ok(TxnStatusView::TtlExpire) => r.modifies == seq![
                    rollback,
                    ModifyView::DeleteLock(key),
                ],
                Ok(TxnStatusView::PessimisticRollBack) => r.modifies == seq![
                    ModifyView::DeleteLock(key),
                ],
                Ok(TxnStatusView::LockNotExist) => r.modifies == seq![rollback],
                Ok(TxnStatusView::Uncommitted { lock, .. }) => store.lock_of(key) is Some
                    && lock.key == key && (r.modifies == seq![ModifyView::PutLock(lock)]
                    || (r.modifies == Seq::<ModifyView>::empty() && store.lock_of(key) == Some(
                    lock,
                ))),
                _ => r.modifies == Seq::<ModifyView>::empty(),
            }
        }),
{
}

/// A lock that has outlived its time to live is removed: resolution reports
/// that it expired, or that the pessimistic lock was rolled back, and the
/// key holds no lock once the mutations are applied. A lock whose
/// transaction commits asynchronously is left alone unless the caller may
/// decide.
pub proof fn lemma_expired_lock_is_released(
    cmd: CheckTxnStatusView,
    store: StoreView,
    lock: LockView,
)
    requires
        store.consistent(),
        store.lock_of(cmd.primary_key) == Some(lock),
        lock.start_ts == cmd.lock_ts,
        lock_expired(lock, cmd.current_ts),
        !awaits_async_commit(lock, cmd.force_sync_commit, cmd.resolving_pessimistic_lock),
    ensures
        ({
            let r = cmd.resolve(store);
            &&& r.status == Ok::<TxnStatusView, ErrorView>(TxnStatusView::TtlExpire) || r.status
                == Ok::<TxnStatusView, ErrorView>(TxnStatusView::PessimisticRollBack)
            &&& r.released == Some(cmd.primary_key)
            &&& store.apply_all(r.modifies).lock_of(cmd.primary_key) is None
        }),
        forall|now_ms: u64|
            !cmd.deadline.exceeded(now_ms) ==> (#[trigger] cmd.store_after(store, now_ms)).lock_of(
                cmd.primary_key,
            ) is None,
{
    let r = cmd.resolve(store);
    lemma_resolve_shapes(cmd, store);
    let key = cmd.primary_key;
    let rollback = ModifyView::PutWrite(store.protected_rollback_record(key, cmd.lock_ts));
    lemma_apply_one(store, ModifyView::DeleteLock(key));
    lemma_apply_two(store, rollback, ModifyView::DeleteLock(key));
}

/// Whether a lock has expired depends on the physical parts of the
/// timestamps alone: no difference in logical counters expires a lock or
/// keeps it alive.
pub proof fn lemma_expiry_ignores_logical(
    lock: LockView,
    other: LockView,
    current_ts: TimeStamp,
    other_ts: TimeStamp,
)
    requires
        !current_ts.spec_is_max(),
        !other_ts.spec_is_max(),
        current_ts.spec_physical() == other_ts.spec_physical(),
        lock.start_ts.spec_physical() == other.start_ts.spec_physical(),
        lock.ttl == other.ttl,
    ensures
        lock_expired(lock, current_ts) == lock_expired(other, other_ts),
{
}

/// A transaction that holds no lock on its primary key and whose latest
/// record there is a commit is reported committed at that record's
/// timestamp, and one whose latest record is a rollback is reported rolled
/// back: whoever asks, at whatever time, with whatever wishes.
pub proof fn lemma_recorded_fate_is_reported(
    cmd: CheckTxnStatusView,
    store: StoreView,
    commit_ts: TimeStamp,
)
    requires
        !(store.lock_of(cmd.primary_key) matches Some(lock) && lock.start_ts == cmd.lock_ts),
        store.is_commit_ts_of(cmd.primary_key, cmd.lock_ts, commit_ts),
    ensures
        cmd.resolve(store).status == Ok::<TxnStatusView, ErrorView>(
            if store.writes[(cmd.primary_key, commit_ts)].kind == WriteKind::Rollback {
                TxnStatusView::RolledBack
            } else {
                TxnStatusView::Committed { commit_ts }
            },
        ),
        cmd.resolve(store).modifies == Seq::<ModifyView>::empty(),
        cmd.resolve(store).released is None,
{
    let key = cmd.primary_key;
    let chosen = choose|c: TimeStamp| store.is_commit_ts_of(key, cmd.lock_ts, c);
    assert(store.has_record_of(key, cmd.lock_ts, commit_ts));
    assert(store.has_record_of(key, cmd.lock_ts, chosen));
    assert(chosen.0 == commit_ts.0);
}

/// Resolution keeps a consistent store consistent.
pub proof fn lemma_resolution_keeps_consistency(cmd: CheckTxnStatusView, store: StoreView)
    requires
        store.consistent(),
    ensures
        store.apply_all(cmd.resolve(store).modifies).consistent(),
        forall|now_ms: u64| (#[trigger] cmd.store_after(store, now_ms)).consistent(),
{
    let r = cmd.resolve(store);
    lemma_resolve_shapes(cmd, store);
    let key = cmd.primary_key;
    let rollback = ModifyView::PutWrite(store.protected_rollback_record(key, cmd.lock_ts));
    lemma_apply_one(store, ModifyView::DeleteLock(key));
    lemma_apply_one(store, rollback);
    lemma_apply_two(store, rollback, ModifyView::DeleteLock(key));
    if let Ok(TxnStatusView::Uncommitted { lock, .. }) = r.status {
        lemma_apply_one(store, ModifyView::PutLock(lock));
    }
}

/// Resolution never creates a lock, and changes of a lock that stays only
/// its `min_commit_ts`, which never moves back.
pub proof fn lemma_min_commit_ts_never_decreases(
    cmd: CheckTxnStatusView,
    store: StoreView,
    key: Seq<u8>,
)
    requires
        store.consistent(),
    ensures
        ({
            let after = store.apply_all(cmd.resolve(store).modifies);
            after.lock_of(key) matches Some(kept) ==> {
                &&& store.lock_of(key) matches Some(lock)
                &&& kept == lock.with_min_commit_ts(kept.min_commit_ts)
                &&& kept.min_commit_ts.0 >= lock.min_commit_ts.0
            }
        }),
{
    let r = cmd.resolve(store);
    lemma_resolve_shapes(cmd, store);
    let pk = cmd.primary_key;
    let rollback = ModifyView::PutWrite(store.protected_rollback_record(pk, cmd.lock_ts));
    lemma_apply_one(store, ModifyView::DeleteLock(pk));
    lemma_apply_one(store, rollback);
    lemma_apply_two(store, rollback, ModifyView::DeleteLock(pk));
    if let Ok(TxnStatusView::Uncommitted { lock, .. }) = r.status {
        lemma_apply_one(store, ModifyView::PutLock(lock));
    }
}

/// One request and the time at which it runs.
pub struct Step {
    pub cmd: CheckTxnStatusView,
    pub now_ms: u64,
}

/// The store after a list of requests has run, one after the other.
pub open spec fn store_after_all(store: StoreView, steps: Seq<Step>) -> StoreView
    decreases steps.len(),
{
    if steps.len() == 0 {
        store
    } else {
        steps.last().cmd.store_after(store_after_all(store, steps.drop_last()), steps.last().now_ms)
    }
}

/// Across any list of status checks, no lock appears, and a lock that is
/// still there at the end is the lock of the beginning with a
/// `min_commit_ts` that is not earlier.
pub proof fn lemma_min_commit_ts_monotone_over_time(
    store: StoreView,
    steps: Seq<Step>,
    key: Seq<u8>,
)
    requires
        store.consistent(),
    ensures
        store_after_all(store, steps).consistent(),
        store_after_all(store, steps).lock_of(key) matches Some(kept) ==> {
            &&& store.lock_of(key) matches Some(lock)
            &&& kept == lock.with_min_commit_ts(kept.min_commit_ts)
            &&& kept.min_commit_ts.0 >= lock.min_commit_ts.0
        },
    decreases steps.len(),
{
    if steps.len() > 0 {
        let before = store_after_all(store, steps.drop_last());
        lemma_min_commit_ts_monotone_over_time(store, steps.drop_last(), key);
        let step = steps.last();
        lemma_resolution_keeps_consistency(step.cmd, before);
        lemma_min_commit_ts_never_decreases(step.cmd, before, key);
    }
}

/// Once a transaction is found committed or rolled back, asking again gives
/// the same answer: such an answer changes nothing in the store.
pub proof fn lemma_terminal_status_is_stable(cmd: CheckTxnStatusView, store: StoreView)
    requires
        cmd.resolve(store).status matches Ok(status) && status.is_terminal(),
    ensures
        cmd.resolve(store).modifies == Seq::<ModifyView>::empty(),
        store.apply_all(cmd.resolve(store).modifies) == store,
        cmd.resolve(store.apply_all(cmd.resolve(store).modifies)) == cmd.resolve(store),
        forall|now_ms: u64| #[trigger] cmd.store_after(store, now_ms) == store,
        forall|now_ms: u64|
            cmd.response(cmd.store_after(store, now_ms), now_ms) == #[trigger] cmd.response(
                store,
                now_ms,
            ),
{
}

/// Wherever resolution rolls a transaction back, the store holds a
/// protected rollback of it afterwards.
pub proof fn lemma_rollback_is_recorded(cmd: CheckTxnStatusView, store: StoreView)
    requires
        store.consistent(),
        cmd.resolve(store).status == Ok::<TxnStatusView, ErrorView>(TxnStatusView::TtlExpire)
            || cmd.resolve(store).status == Ok::<TxnStatusView, ErrorView>(
            TxnStatusView::LockNotExist,
        ),
    ensures
        store.apply_all(cmd.resolve(store).modifies).has_protected_rollback(
            cmd.primary_key,
            cmd.lock_ts,
        ),
{
    lemma_resolve_shapes(cmd, store);
    let key = cmd.primary_key;
    let rollback = ModifyView::PutWrite(store.protected_rollback_record(key, cmd.lock_ts));
    lemma_apply_one(store, rollback);
    lemma_apply_two(store, rollback, ModifyView::DeleteLock(key));
}

/// Where resolution writes no rollback, the write history stays as it is:
/// in particular when a pessimistic lock is rolled back, and when nothing
/// is found for a caller that resolves a pessimistic lock.
pub proof fn lemma_history_untouched(cmd: CheckTxnStatusView, store: StoreView)
    requires
        store.consistent(),
        !(cmd.resolve(store).status == Ok::<TxnStatusView, ErrorView>(TxnStatusView::TtlExpire)),
        !(cmd.resolve(store).status == Ok::<TxnStatusView, ErrorView>(
            TxnStatusView::LockNotExist,
        )),
    ensures
        store.apply_all(cmd.resolve(store).modifies).writes == store.writes,
{
    let r = cmd.resolve(store);
    lemma_resolve_shapes(cmd, store);
    lemma_apply_one(store, ModifyView::DeleteLock(cmd.primary_key));
    if let Ok(TxnStatusView::Uncommitted { lock, .. }) = r.status {
        lemma_apply_one(store, ModifyView::PutLock(lock));
    }
}

/// The write history only grows: resolution removes no record, and of a
/// record that is there it changes neither the transaction, nor the kind,
/// nor the value; the two marks of a rollback can only be set.
pub proof fn lemma_history_is_append_only(
    cmd: CheckTxnStatusView,
    store: StoreView,
    key: Seq<u8>,
    commit_ts: TimeStamp,
)
    requires
        store.consistent(),
        store.writes.contains_key((key, commit_ts)),
    ensures
        ({
            let after = store.apply_all(cmd.resolve(store).modifies);
            let old_record = store.writes[(key, commit_ts)];
            &&& after.writes.contains_key((key, commit_ts))
            &&& after.writes[(key, commit_ts)].key == old_record.key
            &&& after.writes[(key, commit_ts)].commit_ts == old_record.commit_ts
            &&& after.writes[(key, commit_ts)].start_ts == old_record.start_ts
            &&& after.writes[(key, commit_ts)].kind == old_record.kind
            &&& after.writes[(key, commit_ts)].short_value == old_record.short_value
            &&& old_record.protected ==> after.writes[(key, commit_ts)].protected
            &&& old_record.has_overlapped_rollback ==> after.writes[(
                key,
                commit_ts,
            )].has_overlapped_rollback
        }),
{
    let r = cmd.resolve(store);
    lemma_resolve_shapes(cmd, store);
    let pk = cmd.primary_key;
    let rollback = ModifyView::PutWrite(store.protected_rollback_record(pk, cmd.lock_ts));
    lemma_apply_one(store, ModifyView::DeleteLock(pk));
    lemma_apply_one(store, rollback);
    lemma_apply_two(store, rollback, ModifyView::DeleteLock(pk));
    if let Ok(TxnStatusView::Uncommitted { lock, .. }) = r.status {
        lemma_apply_one(store, ModifyView::PutLock(lock));
    }
}

/// A protected rollback, once in the history, stays there whatever status
/// checks follow.
pub proof fn lemma_protected_rollback_persists(
    cmd: CheckTxnStatusView,
    store: StoreView,
    key: Seq<u8>,
    ts: TimeStamp,
)
    requires
        store.consistent(),
        store.has_protected_rollback(key, ts),
    ensures
        store.apply_all(cmd.resolve(store).modifies).has_protected_rollback(key, ts),
{
    lemma_history_is_append_only(cmd, store, key, ts);
}

} // verus!
