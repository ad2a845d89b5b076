//! The accumulator of one request: the mutations it has produced so far, and
//! the locks it has released.

use vstd::prelude::*;
use crate::bytes::clone_bytes;
use crate::lock::Lock;
use crate::modify::{modifies_view, Modify, ModifyView};
use crate::timestamp::TimeStamp;
use crate::write::WriteRecord;

verus! {

/// A lock that a request removes from a key.
#[derive(Debug, PartialEq, Eq)]
pub struct ReleasedLock {
    /// The key that was locked.
    pub key: Vec<u8>,
}

/// The mathematical value of an optional released lock: the key, if any.
pub open spec fn opt_released_view(released: Option<ReleasedLock>) -> Option<Seq<u8>> {
    match released {
        Some(r) => Some(r.key@),
        None => None,
    }
}

/// The keys of a list of byte strings.
pub open spec fn keys_view(keys: Seq<Vec<u8>>) -> Seq<Seq<u8>> {
    keys.map_values(|k: Vec<u8>| k@)
}

/// The locks of one transaction that a request has released, with the
/// timestamps that tell waiters how the transaction ended.
#[derive(Debug, PartialEq, Eq)]
pub struct ReleasedLocks {
    /// The start timestamp of the transaction whose locks are released.
    pub start_ts: TimeStamp,
    /// The commit timestamp of that transaction, or zero if it did not
    /// commit.
    pub commit_ts: TimeStamp,
    /// The keys that are no longer locked, in the order of their release.
    pub keys: Vec<Vec<u8>>,
}

/// The message for the lock manager: requests that wait for one of `keys`,
/// locked by the transaction that started at `start_ts`, should look again.
#[derive(Debug, PartialEq, Eq)]
pub struct WakeUp {
    pub start_ts: TimeStamp,
    pub commit_ts: TimeStamp,
    pub keys: Vec<Vec<u8>>,
}

/// The mathematical value of a [`WakeUp`].
pub struct WakeUpView {
    pub start_ts: TimeStamp,
    pub commit_ts: TimeStamp,
    pub keys: Seq<Seq<u8>>,
}

impl View for WakeUp {
    type V = WakeUpView;

    open spec fn view(&self) -> WakeUpView {
        WakeUpView {
            start_ts: self.start_ts,
            commit_ts: self.commit_ts,
            keys: keys_view(self.keys@),
        }
    }
}

/// The mathematical value of an optional [`WakeUp`].
pub open spec fn opt_wake_up_view(w: Option<WakeUp>) -> Option<WakeUpView> {
    match w {
        Some(w) => Some(w@),
        None => None,
    }
}

/// The message that tells of the released keys, or none when no key was
/// released.
pub open spec fn wake_up_for(start_ts: TimeStamp, commit_ts: TimeStamp, keys: Seq<Seq<u8>>) -> Option<
    WakeUpView,
> {
    if keys.len() == 0 {
        None
    } else {
        Some(WakeUpView { start_ts, commit_ts, keys })
    }
}

impl ReleasedLocks {
    /// The released keys.
    pub open spec fn spec_keys(&self) -> Seq<Seq<u8>> {
        keys_view(self.keys@)
    }

    /// An empty collection for the transaction that started at `start_ts`.
    pub fn new(start_ts: TimeStamp, commit_ts: TimeStamp) -> (res: ReleasedLocks)
        ensures
            res.start_ts == start_ts,
            res.commit_ts == commit_ts,
            res.spec_keys() == Seq::<Seq<u8>>::empty(),
    {
        ReleasedLocks { start_ts, commit_ts, keys: Vec::new() }
    }

    /// Adds the released lock, if there is one.
    pub fn push(&mut self, lock: Option<ReleasedLock>)
        ensures
            final(self).start_ts == old(self).start_ts,
            final(self).commit_ts == old(self).commit_ts,
            final(self).spec_keys() == match lock {
                Some(l) => old(self).spec_keys().push(l.key@),
                None => old(self).spec_keys(),
            },
    {
        if let Some(l) = lock {
            self.keys.push(l.key);
        }
    }

    /// Whether no lock was released.
    pub fn is_empty(&self) -> (res: bool)
        ensures
            res == (self.spec_keys().len() == 0),
    {
        self.keys.len() == 0
    }

    /// Turns the collection into the message for the lock manager. When
    /// nothing was released there is nothing to tell.
    pub fn wake_up(self) -> (res: Option<WakeUp>)
        ensures
            opt_wake_up_view(res) == wake_up_for(self.start_ts, self.commit_ts, self.spec_keys()),
    {
        if self.keys.len() == 0 {
            None
        } else {
            Some(WakeUp { start_ts: self.start_ts, commit_ts: self.commit_ts, keys: self.keys })
        }
    }
}

/// Collects the mutations of one request. Nothing reaches the store before
/// the whole list is handed over.
#[derive(Debug)]
pub struct MvccTxn {
    /// The start timestamp of the transaction that the request is about.
    pub start_ts: TimeStamp,
    /// The mutations produced so far, in order.
    pub modifies: Vec<Modify>,
}

impl View for MvccTxn {
    type V = Seq<ModifyView>;

    open spec fn view(&self) -> Seq<ModifyView> {
        modifies_view(self.modifies@)
    }
}

impl MvccTxn {
    /// An accumulator without mutations.
    pub fn new(start_ts: TimeStamp) -> (txn: MvccTxn)
        ensures
            txn.start_ts == start_ts,
            txn@ == Seq::<ModifyView>::empty(),
    {
        MvccTxn { start_ts, modifies: Vec::new() }
    }

    /// Asks to store `lock` under its key.
    pub fn put_lock(&mut self, lock: Lock)
        ensures
            final(self).start_ts == old(self).start_ts,
            final(self)@ == old(self)@.push(ModifyView::PutLock(lock@)),
    {
        self.modifies.push(Modify::PutLock(lock));
    }

    /// Asks to remove the lock of `key`, and tells which lock is released.
    pub fn unlock_key(&mut self, key: Vec<u8>) -> (released: ReleasedLock)
        ensures
            final(self).start_ts == old(self).start_ts,
            final(self)@ == old(self)@.push(ModifyView::DeleteLock(key@)),
            released.key@ == key@,
    {
        let released = ReleasedLock { key: clone_bytes(&key) };
        self.modifies.push(Modify::DeleteLock(key));
        released
    }

    /// Asks to store `record` under its key and commit timestamp.
    pub fn put_write(&mut self, record: WriteRecord)
        ensures
            final(self).start_ts == old(self).start_ts,
            final(self)@ == old(self)@.push(ModifyView::PutWrite(record@)),
    {
        self.modifies.push(Modify::PutWrite(record));
    }

    /// Whether no mutation was produced.
    pub fn is_empty(&self) -> (res: bool)
        ensures
            res == (self@.len() == 0),
    {
        self.modifies.len() == 0
    }

    /// The mutations, in the order in which they were produced.
    pub fn into_modifies(self) -> (modifies: Vec<Modify>)
        ensures
            modifies_view(modifies@) == self@,
    {
        self.modifies
    }
}

} // verus!
