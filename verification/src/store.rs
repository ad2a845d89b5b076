//! An in-memory record store: the locks and write histories of every key.

use vstd::prelude::*;
use crate::bytes::bytes_eq;
use crate::lock::{Lock, LockView};
use crate::modify::{modifies_view, CommitRecordView, Modify, ModifyView, StoreView};
use crate::timestamp::TimeStamp;
use crate::write::{WriteRecord, WriteRecordView};

verus! {

/// What the write history of a key says of one transaction.
#[derive(Debug, PartialEq, Eq)]
pub enum TxnCommitRecord {
    /// The transaction left this record.
    SingleRecord { commit_ts: TimeStamp, write: WriteRecord },
    /// The transaction left no record of its own, but the record stored under
    /// its start timestamp is marked as its protected rollback.
    OverlappedRollback { commit_ts: TimeStamp },
    /// Nothing is known of the transaction. If another transaction's record
    /// is stored under its start timestamp, that record is given.
    Missing { overlapped_write: Option<WriteRecord> },
}

impl View for TxnCommitRecord {
    type V = CommitRecordView;

    open spec fn view(&self) -> CommitRecordView {
        match *self {
            TxnCommitRecord::SingleRecord { commit_ts, write } => CommitRecordView::Single {
                commit_ts,
                write: write@,
            },
            TxnCommitRecord::OverlappedRollback { commit_ts } => {
                CommitRecordView::OverlappedRollback { commit_ts }
            },
            TxnCommitRecord::Missing { overlapped_write } => CommitRecordView::Missing {
                overlapped_write: opt_write_view(overlapped_write),
            },
        }
    }
}

/// The mathematical value of an optional lock.
pub open spec fn opt_lock_view(lock: Option<Lock>) -> Option<LockView> {
    match lock {
        Some(l) => Some(l@),
        None => None,
    }
}

/// The mathematical value of an optional write record.
pub open spec fn opt_write_view(write: Option<WriteRecord>) -> Option<WriteRecordView> {
    match write {
        Some(w) => Some(w@),
        None => None,
    }
}

/// The records of every key, held in memory. Reads never change it; a list of
/// mutations is applied as a whole.
pub struct MvccStore {
    locks: Vec<Lock>,
    writes: Vec<WriteRecord>,
    state: Ghost<StoreView>,
}

impl View for MvccStore {
    type V = StoreView;

    closed spec fn view(&self) -> StoreView {
        self.state@
    }
}

impl MvccStore {
    /// The held records are exactly those of the view, each once.
    pub closed spec fn wf(&self) -> bool {
        &&& forall|i: int|
            0 <= i < self.locks@.len() ==> self.state@.locks.contains_key(
                (#[trigger] self.locks@[i])@.key,
            ) && self.state@.locks[self.locks@[i]@.key] == self.locks@[i]@
        &&& forall|k: Seq<u8>| #[trigger]
            self.state@.locks.contains_key(k) ==> exists|i: int|
                0 <= i < self.locks@.len() && (#[trigger] self.locks@[i])@.key == k
        &&& forall|i: int, j: int|
            0 <= i < j < self.locks@.len() ==> (#[trigger] self.locks@[i])@.key != (
            #[trigger] self.locks@[j])@.key
        &&& forall|i: int|
            0 <= i < self.writes@.len() ==> self.state@.writes.contains_key(
                ((#[trigger] self.writes@[i])@.key, self.writes@[i]@.commit_ts),
            ) && self.state@.writes[(self.writes@[i]@.key, self.writes@[i]@.commit_ts)]
                == self.writes@[i]@
        &&& forall|k: Seq<u8>, c: TimeStamp| #[trigger]
            self.state@.writes.contains_key((k, c)) ==> exists|i: int|
                0 <= i < self.writes@.len() && (#[trigger] self.writes@[i])@.key == k
                    && self.writes@[i]@.commit_ts == c
        &&& forall|i: int, j: int|
            0 <= i < j < self.writes@.len() ==> !((#[trigger] self.writes@[i])@.key == (
            #[trigger] self.writes@[j])@.key && self.writes@[i]@.commit_ts
                == self.writes@[j]@.commit_ts)
    }

    /// Every record of a well-formed store is stored under the key and
    /// timestamp that it names.
    pub proof fn lemma_wf_consistent(&self)
        requires
            self.wf(),
        ensures
            self@.consistent(),
    {
        assert forall|k: Seq<u8>| #[trigger] self@.locks.contains_key(k) implies self@.locks[k].key
            == k by {
            let i = choose|i: int| 0 <= i < self.locks@.len() && (#[trigger] self.locks@[i])@.key == k;
            assert(self.locks@[i]@.key == k);
        }
        assert forall|k: Seq<u8>, c: TimeStamp| #[trigger]
            self@.writes.contains_key((k, c)) implies self@.writes[(k, c)].key == k
            && self@.writes[(k, c)].commit_ts == c by {
            let i = choose|i: int|
                0 <= i < self.writes@.len() && (#[trigger] self.writes@[i])@.key == k
                    && self.writes@[i]@.commit_ts == c;
            assert(self.writes@[i]@.key == k);
        }
    }

    /// A store without any record.
    pub fn new() -> (store: MvccStore)
        ensures
            store.wf(),
            store@ == StoreView::empty(),
    {
        MvccStore { locks: Vec::new(), writes: Vec::new(), state: Ghost(StoreView::empty()) }
    }

    fn find_lock(&self, key: &Vec<u8>) -> (res: Option<usize>)
        ensures
            match res {
                Some(i) => i < self.locks@.len() && self.locks@[i as int]@.key == key@,
                None => forall|i: int|
                    0 <= i < self.locks@.len() ==> (#[trigger] self.locks@[i])@.key != key@,
            },
    {
        let mut i: usize = 0;
        while i < self.locks.len()
            invariant
                i <= self.locks@.len(),
                forall|j: int| 0 <= j < i ==> (#[trigger] self.locks@[j])@.key != key@,
            decreases self.locks@.len() - i,
        {
            if bytes_eq(&self.locks[i].key, key) {
                return Some(i);
            }
            i += 1;
        }
        None
    }

    fn find_write(&self, key: &Vec<u8>, commit_ts: TimeStamp) -> (res: Option<usize>)
        ensures
            match res {
                Some(i) => i < self.writes@.len() && self.writes@[i as int]@.key == key@
                    && self.writes@[i as int]@.commit_ts == commit_ts,
                None => forall|i: int|
                    0 <= i < self.writes@.len() ==> !((#[trigger] self.writes@[i])@.key == key@
                        && self.writes@[i]@.commit_ts == commit_ts),
            },
    {
        let mut i: usize = 0;
        while i < self.writes.len()
            invariant
                i <= self.writes@.len(),
                forall|j: int|
                    0 <= j < i ==> !((#[trigger] self.writes@[j])@.key == key@
                        && self.writes@[j]@.commit_ts == commit_ts),
            decreases self.writes@.len() - i,
        {
            if self.writes[i].commit_ts == commit_ts && bytes_eq(&self.writes[i].key, key) {
                return Some(i);
            }
            i += 1;
        }
        None
    }

    /// The lock on `key`, if there is one.
    pub fn load_lock(&self, key: &Vec<u8>) -> (res: Option<Lock>)
        requires
            self.wf(),
        ensures
            opt_lock_view(res) == self@.lock_of(key@),
    {
        match self.find_lock(key) {
            Some(i) => {
                assert(self.locks@[i as int]@.key == key@);
                Some(self.locks[i].clone())
            },
            None => None,
        }
    }

    /// Whether the lock on `key` is `expected`: the same lock, or none where
    /// none is expected.
    pub fn lock_is(&self, key: &Vec<u8>, expected: &Option<Lock>) -> (res: bool)
        requires
            self.wf(),
        ensures
            res == (self@.lock_of(key@) == opt_lock_view(*expected)),
    {
        match self.find_lock(key) {
            Some(i) => {
                assert(self.locks@[i as int]@.key == key@);
                match expected {
                    Some(lock) => self.locks[i].same_as(lock),
                    None => false,
                }
            },
            None => expected.is_none(),
        }
    }

    /// The record stored under `(key, commit_ts)`, if there is one.
    pub fn get_write(&self, key: &Vec<u8>, commit_ts: TimeStamp) -> (res: Option<WriteRecord>)
        requires
            self.wf(),
        ensures
            opt_write_view(res) == self@.write_at(key@, commit_ts),
    {
        match self.find_write(key, commit_ts) {
            Some(i) => {
                assert(self.writes@[i as int]@.key == key@);
                Some(self.writes[i].clone())
            },
            None => None,
        }
    }

    fn put_lock(&mut self, lock: Lock)
        requires
            old(self).wf(),
        ensures
            final(self).wf(),
            final(self)@ == old(self)@.apply(ModifyView::PutLock(lock@)),
    {
        let ghost lv = lock@;
        let ghost prev = self.locks@;
        let found = self.find_lock(&lock.key);
        match found {
            Some(i) => {
                self.locks.set(i, lock);
                assert forall|j: int| 0 <= j < prev.len() && j != i implies (
                #[trigger] self.locks@[j])@.key != lv.key by {
                    assert(prev[j]@.key != prev[i as int]@.key);
                }
            },
            None => {
                self.locks.push(lock);
            },
        }
        self.state = Ghost(self.state@.apply(ModifyView::PutLock(lv)));
        proof {
            assert forall|k: Seq<u8>| #[trigger] self.state@.locks.contains_key(k) implies exists|
                i: int,
            |
                0 <= i < self.locks@.len() && (#[trigger] self.locks@[i])@.key == k by {
                if k == lv.key {
                    let w = match found {
                        Some(i) => i as int,
                        None => prev.len() as int,
                    };
                    assert(self.locks@[w]@.key == k);
                } else {
                    let w = choose|i: int| 0 <= i < prev.len() && (#[trigger] prev[i])@.key == k;
                    assert(self.locks@[w]@.key == k);
                }
            }
        }
    }

    fn delete_lock(&mut self, key: &Vec<u8>)
        requires
            old(self).wf(),
        ensures
            final(self).wf(),
            final(self)@ == old(self)@.apply(ModifyView::DeleteLock(key@)),
    {
        let ghost prev = self.locks@;
        let found = self.find_lock(key);
        match found {
            Some(i) => {
                let _ = self.locks.remove(i);
                assert forall|j: int| 0 <= j < self.locks@.len() implies (#[trigger] self.locks@[j])
                    == prev[if j < i { j } else { j + 1 }] by {}
                assert forall|j: int| 0 <= j < self.locks@.len() implies (
                #[trigger] self.locks@[j])@.key != key@ by {
                    let o = if j < i { j } else { j + 1 };
                    assert(prev[o]@.key != prev[i as int]@.key);
                }
            },
            None => {},
        }
        self.state = Ghost(self.state@.apply(ModifyView::DeleteLock(key@)));
        proof {
            assert forall|k: Seq<u8>| #[trigger] self.state@.locks.contains_key(k) implies exists|
                i: int,
            |
                0 <= i < self.locks@.len() && (#[trigger] self.locks@[i])@.key == k by {
                let o = choose|i: int| 0 <= i < prev.len() && (#[trigger] prev[i])@.key == k;
                match found {
                    Some(i) => {
                        let w = if o < i { o } else { o - 1 };
                        assert(self.locks@[w]@.key == k);
                    },
                    None => {
                        assert(self.locks@[o]@.key == k);
                    },
                }
            }
            assert forall|a: int, b: int| 0 <= a < b < self.locks@.len() implies (
            #[trigger] self.locks@[a])@.key != (#[trigger] self.locks@[b])@.key by {
                match found {
                    Some(i) => {
                        let oa = if a < i { a } else { a + 1 };
                        let ob = if b < i { b } else { b + 1 };
                        assert(prev[oa]@.key != prev[ob]@.key);
                    },
                    None => {},
                }
            }
        }
    }

    fn put_write(&mut self, record: WriteRecord)
        requires
            old(self).wf(),
        ensures
            final(self).wf(),
            final(self)@ == old(self)@.apply(ModifyView::PutWrite(record@)),
    {
        let ghost rv = record@;
        let ghost prev = self.writes@;
        let found = self.find_write(&record.key, record.commit_ts);
        match found {
            Some(i) => {
                self.writes.set(i, record);
                assert forall|j: int| 0 <= j < prev.len() && j != i implies !((
                #[trigger] self.writes@[j])@.key == rv.key && self.writes@[j]@.commit_ts
                    == rv.commit_ts) by {
                    assert(!(prev[j]@.key == prev[i as int]@.key && prev[j]@.commit_ts
                        == prev[i as int]@.commit_ts));
                }
            },
            None => {
                self.writes.push(record);
            },
        }
        self.state = Ghost(self.state@.apply(ModifyView::PutWrite(rv)));
        proof {
            assert forall|k: Seq<u8>, c: TimeStamp| #[trigger]
                self.state@.writes.contains_key((k, c)) implies exists|i: int|
                0 <= i < self.writes@.len() && (#[trigger] self.writes@[i])@.key == k
                    && self.writes@[i]@.commit_ts == c by {
                if k == rv.key && c == rv.commit_ts {
                    let w = match found {
                        Some(i) => i as int,
                        None => prev.len() as int,
                    };
                    assert(self.writes@[w]@.key == k);
                } else {
                    let w = choose|i: int|
                        0 <= i < prev.len() && (#[trigger] prev[i])@.key == k && prev[i]@.commit_ts
                            == c;
                    assert(self.writes@[w]@.key == k);
                }
            }
        }
    }

    /// Applies a list of mutations, in order, as one unit.
    pub fn write(&mut self, modifies: Vec<Modify>)
        requires
            old(self).wf(),
        ensures
            final(self).wf(),
            final(self)@ == old(self)@.apply_all(modifies_view(modifies@)),
    {
        let ghost ms = modifies_view(modifies@);
        let mut i: usize = 0;
        assert(ms.take(0) =~= Seq::<ModifyView>::empty());
        while i < modifies.len()
            invariant
                i <= modifies@.len(),
                ms == modifies_view(modifies@),
                self.wf(),
                self@ == old(self)@.apply_all(ms.take(i as int)),
            decreases modifies@.len() - i,
        {
            proof {
                assert(ms.take(i as int + 1).drop_last() =~= ms.take(i as int));
                assert(ms.take(i as int + 1).last() == modifies@[i as int]@);
            }
            match &modifies[i] {
                Modify::PutLock(lock) => {
                    self.put_lock(lock.clone());
                },
                Modify::DeleteLock(key) => {
                    self.delete_lock(key);
                },
                Modify::PutWrite(record) => {
                    self.put_write(record.clone());
                },
            }
            i += 1;
        }
        assert(ms.take(modifies@.len() as int) =~= ms);
    }

    /// What the history of `key` says of the transaction that started at
    /// `start_ts`.
    pub fn get_txn_commit_record(&self, key: &Vec<u8>, start_ts: TimeStamp) -> (res:
        TxnCommitRecord)
        requires
            self.wf(),
        ensures
            res@ == self@.txn_commit_record(key@, start_ts),
    {
        let mut best: Option<usize> = None;
        let mut i: usize = 0;
        while i < self.writes.len()
            invariant
                i <= self.writes@.len(),
                match best {
                    Some(b) => b < i && self.writes@[b as int]@.key == key@
                        && self.writes@[b as int]@.start_ts == start_ts && forall|j: int|
                        0 <= j < i && (#[trigger] self.writes@[j])@.key == key@
                            && self.writes@[j]@.start_ts == start_ts
                            ==> self.writes@[j]@.commit_ts.0
                            <= self.writes@[b as int]@.commit_ts.0,
                    None => forall|j: int|
                        0 <= j < i ==> !((#[trigger] self.writes@[j])@.key == key@
                            && self.writes@[j]@.start_ts == start_ts),
                },
            decreases self.writes@.len() - i,
        {
            if self.writes[i].start_ts == start_ts && bytes_eq(&self.writes[i].key, key) {
                let better = match best {
                    Some(b) => self.writes[i].commit_ts.0 > self.writes[b].commit_ts.0,
                    None => true,
                };
                if better {
                    best = Some(i);
                }
            }
            i += 1;
        }
        match best {
            Some(b) => {
                let commit_ts = self.writes[b].commit_ts;
                proof {
                    assert(self.writes@[b as int]@.key == key@);
                    assert(self@.has_record_of(key@, start_ts, commit_ts));
                    assert forall|c: TimeStamp| #[trigger]
                        self@.has_record_of(key@, start_ts, c) implies c.0 <= commit_ts.0 by {
                        let j = choose|j: int|
                            0 <= j < self.writes@.len() && (#[trigger] self.writes@[j])@.key
                                == key@ && self.writes@[j]@.commit_ts == c;
                        assert(self.writes@[j]@.key == key@);
                    }
                    assert(self@.is_commit_ts_of(key@, start_ts, commit_ts));
                    let chosen = choose|c: TimeStamp| self@.is_commit_ts_of(key@, start_ts, c);
                    assert(self@.has_record_of(key@, start_ts, chosen));
                    assert(chosen.0 == commit_ts.0);
                }
                TxnCommitRecord::SingleRecord { commit_ts, write: self.writes[b].clone() }
            },
            None => {
                proof {
                    assert forall|c: TimeStamp| !self@.has_record_of(key@, start_ts, c) by {
                        if self@.writes.contains_key((key@, c)) {
                            let j = choose|j: int|
                                0 <= j < self.writes@.len() && (#[trigger] self.writes@[j])@.key
                                    == key@ && self.writes@[j]@.commit_ts == c;
                            assert(self.writes@[j]@.key == key@);
                        }
                    }
                }
                match self.get_write(key, start_ts) {
                    Some(write) => {
                        if write.has_overlapped_rollback {
                            TxnCommitRecord::OverlappedRollback { commit_ts: start_ts }
                        } else {
                            TxnCommitRecord::Missing { overlapped_write: Some(write) }
                        }
                    },
                    None => TxnCommitRecord::Missing { overlapped_write: None },
                }
            },
        }
    }

    /// The most recent record of `key` stored at or before `ts`.
    pub fn load_write_before(&self, key: &Vec<u8>, ts: TimeStamp) -> (res: Option<WriteRecord>)
        requires
            self.wf(),
        ensures
            opt_write_view(res) == self@.write_before(key@, ts),
    {
        let mut best: Option<usize> = None;
        let mut i: usize = 0;
        while i < self.writes.len()
            invariant
                i <= self.writes@.len(),
                match best {
                    Some(b) => b < i && self.writes@[b as int]@.key == key@
                        && self.writes@[b as int]@.commit_ts.0 <= ts.0 && forall|j: int|
                        0 <= j < i && (#[trigger] self.writes@[j])@.key == key@
                            && self.writes@[j]@.commit_ts.0 <= ts.0
                            ==> self.writes@[j]@.commit_ts.0
                            <= self.writes@[b as int]@.commit_ts.0,
                    None => forall|j: int|
                        0 <= j < i ==> !((#[trigger] self.writes@[j])@.key == key@
                            && self.writes@[j]@.commit_ts.0 <= ts.0),
                },
            decreases self.writes@.len() - i,
        {
            if self.writes[i].commit_ts.0 <= ts.0 && bytes_eq(&self.writes[i].key, key) {
                let better = match best {
                    Some(b) => self.writes[i].commit_ts.0 > self.writes[b].commit_ts.0,
                    None => true,
                };
                if better {
                    best = Some(i);
                }
            }
            i += 1;
        }
        match best {
            Some(b) => {
                let commit_ts = self.writes[b].commit_ts;
                proof {
                    assert(self.writes@[b as int]@.key == key@);
                    assert(self@.writes.contains_key((key@, commit_ts)));
                    assert forall|c: TimeStamp| #[trigger]
                        self@.writes.contains_key((key@, c)) && c.0 <= ts.0 implies c.0
                        <= commit_ts.0 by {
                        let j = choose|j: int|
                            0 <= j < self.writes@.len() && (#[trigger] self.writes@[j])@.key
                                == key@ && self.writes@[j]@.commit_ts == c;
                        assert(self.writes@[j]@.key == key@);
                    }
                    assert(self@.is_latest_commit_before(key@, ts, commit_ts));
                    let chosen = choose|c: TimeStamp| self@.is_latest_commit_before(key@, ts, c);
                    assert(self@.writes.contains_key((key@, chosen)));
                    assert(chosen.0 == commit_ts.0);
                }
                Some(self.writes[b].clone())
            },
            None => {
                proof {
                    assert forall|c: TimeStamp|
                        !(self@.writes.contains_key((key@, c)) && c.0 <= ts.0) by {
                        if self@.writes.contains_key((key@, c)) {
                            let j = choose|j: int|
                                0 <= j < self.writes@.len() && (#[trigger] self.writes@[j])@.key
                                    == key@ && self.writes@[j]@.commit_ts == c;
                            assert(self.writes@[j]@.key == key@);
                        }
                    }
                }
                None
            },
        }
    }

    /// Whether the history of `key` keeps the transaction that started at
    /// `ts` rolled back for good.
    pub fn has_protected_rollback(&self, key: &Vec<u8>, ts: TimeStamp) -> (res: bool)
        requires
            self.wf(),
        ensures
            res == self@.has_protected_rollback(key@, ts),
    {
        match self.get_write(key, ts) {
            Some(write) => {
                let own = write.kind == crate::write::WriteKind::Rollback && write.start_ts == ts
                    && write.commit_ts == ts;
                write.commit_ts == ts && ((own && write.protected)
                    || write.has_overlapped_rollback)
            },
            None => false,
        }
    }
}

} // verus!
