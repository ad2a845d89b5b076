//! The coordinator of concurrent requests: a high-water mark of every
//! timestamp that a request has shown it.

use vstd::prelude::*;
use crate::timestamp::{later_of, TimeStamp};

verus! {

/// The high-water mark after a list of timestamps was shown, in order, to a
/// coordinator that stood at `start`.
pub open spec fn max_ts_after(start: TimeStamp, seen: Seq<TimeStamp>) -> TimeStamp
    decreases seen.len(),
{
    if seen.len() == 0 {
        start
    } else {
        later_of(max_ts_after(start, seen.drop_last()), seen.last())
    }
}

/// Tracks the greatest timestamp seen so far. It is made once, handed to
/// every request, and never reset.
#[derive(Debug)]
pub struct ConcurrencyManager {
    max_ts: TimeStamp,
}

impl ConcurrencyManager {
    /// The greatest timestamp seen so far.
    pub closed spec fn spec_max_ts(&self) -> TimeStamp {
        self.max_ts
    }

    /// A coordinator that has seen `latest_ts` and nothing later.
    pub fn new(latest_ts: TimeStamp) -> (cm: ConcurrencyManager)
        ensures
            cm.spec_max_ts() == latest_ts,
    {
        ConcurrencyManager { max_ts: latest_ts }
    }

    /// The greatest timestamp seen so far.
    #[verifier::when_used_as_spec(spec_max_ts)]
    pub fn max_ts(&self) -> (ts: TimeStamp)
        ensures
            ts == self.spec_max_ts(),
    {
        self.max_ts
    }

    /// Shows the coordinator a timestamp: the mark becomes the later of the
    /// two, so it never moves back.
    pub fn update_max_ts(&mut self, new_ts: TimeStamp)
        ensures
            final(self).spec_max_ts() == later_of(old(self).spec_max_ts(), new_ts),
            final(self).spec_max_ts().0 >= old(self).spec_max_ts().0,
            final(self).spec_max_ts().0 >= new_ts.0,
    {
        if new_ts.0 > self.max_ts.0 {
            self.max_ts = new_ts;
        }
    }
}

/// The mark never moves back, and ends at or after every timestamp shown.
pub proof fn lemma_max_ts_monotone(start: TimeStamp, seen: Seq<TimeStamp>)
    ensures
        max_ts_after(start, seen).0 >= start.0,
        forall|i: int| 0 <= i < seen.len() ==> max_ts_after(start, seen).0 >= (#[trigger] seen[i]).0,
    decreases seen.len(),
{
    if seen.len() > 0 {
        lemma_max_ts_monotone(start, seen.drop_last());
        assert forall|i: int| 0 <= i < seen.len() implies max_ts_after(start, seen).0 >= (
        #[trigger] seen[i]).0 by {
            if i < seen.len() - 1 {
                assert(seen.drop_last()[i] == seen[i]);
            }
        }
    }
}

/// Showing one more timestamp never lowers the mark that a list leads to.
pub proof fn lemma_max_ts_prefix(start: TimeStamp, seen: Seq<TimeStamp>, n: int)
    requires
        0 <= n <= seen.len(),
    ensures
        max_ts_after(start, seen.take(n)).0 <= max_ts_after(start, seen).0,
    decreases seen.len() - n,
{
    if n < seen.len() {
        lemma_max_ts_prefix(start, seen, n + 1);
        assert(seen.take(n + 1).drop_last() =~= seen.take(n));
    } else {
        assert(seen.take(n) =~= seen);
    }
}

/// The mark is the start or one of the timestamps shown.
pub proof fn lemma_max_ts_was_seen(start: TimeStamp, seen: Seq<TimeStamp>)
    ensures
        max_ts_after(start, seen) == start || seen.contains(max_ts_after(start, seen)),
    decreases seen.len(),
{
    if seen.len() > 0 {
        lemma_max_ts_was_seen(start, seen.drop_last());
        let before = max_ts_after(start, seen.drop_last());
        if max_ts_after(start, seen) == seen.last() {
            assert(seen[seen.len() - 1] == seen.last());
        } else if seen.drop_last().contains(before) {
            let i = choose|i: int| 0 <= i < seen.drop_last().len() && seen.drop_last()[i] == before;
            assert(seen[i] == before);
        }
    }
}

/// The mark does not depend on the order in which the timestamps are
/// shown: two lists of the same timestamps, each as often as in the other,
/// lead to the same mark. So it does not matter how concurrent callers
/// interleave.
pub proof fn lemma_max_ts_any_order(start: TimeStamp, a: Seq<TimeStamp>, b: Seq<TimeStamp>)
    requires
        a.to_multiset() == b.to_multiset(),
    ensures
        max_ts_after(start, a) == max_ts_after(start, b),
{
    let ra = max_ts_after(start, a);
    let rb = max_ts_after(start, b);
    a.to_multiset_ensures();
    b.to_multiset_ensures();
    lemma_max_ts_monotone(start, a);
    lemma_max_ts_monotone(start, b);
    lemma_max_ts_was_seen(start, a);
    lemma_max_ts_was_seen(start, b);
    if ra != start {
        assert(a.to_multiset().count(ra) > 0);
        assert(b.to_multiset().count(ra) > 0);
        assert(b.contains(ra));
        let i = choose|i: int| 0 <= i < b.len() && b[i] == ra;
        assert(rb.0 >= b[i].0);
    }
    if rb != start {
        assert(b.to_multiset().count(rb) > 0);
        assert(a.to_multiset().count(rb) > 0);
        assert(a.contains(rb));
        let i = choose|i: int| 0 <= i < a.len() && a[i] == rb;
        assert(ra.0 >= a[i].0);
    }
    assert(ra.0 == rb.0);
}

/// The order in which two timestamps are shown does not matter.
pub proof fn lemma_max_ts_order_free(start: TimeStamp, a: TimeStamp, b: TimeStamp)
    ensures
        later_of(later_of(start, a), b) == later_of(later_of(start, b), a),
{
}

} // verus!
