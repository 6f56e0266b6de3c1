//! The ingestion dispatcher: fans every normalized record out to all
//! registered subscribers, each behind its own bounded queue.
//!
//! Delivery appends to every queue exactly once per publish, so the
//! per-venue arrival order is preserved within each subscriber. A full
//! queue drops its oldest record and counts the drop — live market data
//! gains nothing from unbounded buffering, and one slow consumer must not
//! stall the rest.
use crate::models::{NormalizedTopOfBook, TobView};
use vstd::prelude::*;

verus! {

/// One registered consumer: a handle, a bounded queue, and a drop counter.
pub struct Subscriber {
    pub id: u64,
    pub capacity: usize,
    pub queue: Vec<NormalizedTopOfBook>,
    pub dropped: u64,
}

/// The records a subscriber holds, as their mathematical content, oldest
/// first.
pub open spec fn qviews(s: Subscriber) -> Seq<TobView> {
    s.queue@.map_values(|r: NormalizedTopOfBook| r@)
}

/// How one publish changes one subscriber: the record lands at the tail,
/// the oldest record leaves a full queue, and only then does the drop
/// counter move (saturating).
pub open spec fn spec_published(old_s: Subscriber, new_s: Subscriber, rv: TobView) -> bool {
    &&& new_s.id == old_s.id
    &&& new_s.capacity == old_s.capacity
    &&& if old_s.queue@.len() < old_s.capacity {
        qviews(new_s) == qviews(old_s).push(rv) && new_s.dropped == old_s.dropped
    } else {
        qviews(new_s) == qviews(old_s).drop_first().push(rv) && new_s.dropped == (
        if old_s.dropped == u64::MAX {
            u64::MAX
        } else {
            (old_s.dropped + 1) as u64
        })
    }
}

/// The fan-out point: the only state shared between venue connections.
pub struct Dispatcher {
    pub subs: Vec<Subscriber>,
    pub next_id: u64,
}

impl Dispatcher {
    /// Queues never outgrow their capacity, capacities are positive, and
    /// handles are unique and below the next handle.
    pub open spec fn wf(self) -> bool {
        &&& forall|i: int| 0 <= i < self.subs@.len() ==> #[trigger] self.subs@[i].capacity >= 1
        &&& forall|i: int| 0 <= i < self.subs@.len() ==> #[trigger] self.subs@[i].queue@.len()
            <= self.subs@[i].capacity
        &&& forall|i: int| 0 <= i < self.subs@.len() ==> #[trigger] self.subs@[i].id
            < self.next_id
        &&& forall|i: int, k: int| 0 <= i < k < self.subs@.len() ==> #[trigger] self.subs@[i].id
            != #[trigger] self.subs@[k].id
    }

    /// An empty registry.
    pub fn new() -> (r: Self)
        ensures
            r.wf(),
            r.subs@.len() == 0,
    {
        Dispatcher { subs: Vec::new(), next_id: 0 }
    }

    /// Registers a subscriber with a bounded queue and returns its handle.
    pub fn register(&mut self, capacity: usize) -> (handle: u64)
        requires
            old(self).wf(),
            capacity >= 1,
            old(self).next_id < u64::MAX,
        ensures
            final(self).wf(),
            handle == old(self).next_id,
            final(self).subs@.len() == old(self).subs@.len() + 1,
            forall|i: int| 0 <= i < old(self).subs@.len() ==> final(self).subs@[i] == old(self).subs@[i],
            final(self).subs@.last().id == handle,
            final(self).subs@.last().capacity == capacity,
            qviews(final(self).subs@.last()) =~= Seq::<TobView>::empty(),
            final(self).subs@.last().dropped == 0,
    {
        let handle = self.next_id;
        self.next_id = self.next_id + 1;
        self.subs.push(Subscriber { id: handle, capacity, queue: Vec::new(), dropped: 0 });
        handle
    }

    /// Removes the subscriber behind a handle; `true` exactly when the
    /// handle was registered.
    #[verifier::loop_isolation(false)]
    pub fn unregister(&mut self, handle: u64) -> (found: bool)
        requires
            old(self).wf(),
        ensures
            final(self).wf(),
            final(self).next_id == old(self).next_id,
            found ==> exists|i: int|
                0 <= i < old(self).subs@.len() && old(self).subs@[i].id == handle && final(self).subs@ =~= old(self).subs@.remove(i),
            !found ==> final(self).subs@ =~= old(self).subs@ && forall|i: int|
                0 <= i < old(self).subs@.len() ==> old(self).subs@[i].id != handle,
    {
        let n = self.subs.len();
        let mut i: usize = 0;
        while i < n
            invariant
                i <= n,
                forall|k: int| 0 <= k < i ==> old(self).subs@[k].id != handle,
                self.subs@ =~= old(self).subs@,
                self.next_id == old(self).next_id,
            decreases n - i,
        {
            if self.subs[i].id == handle {
                let _ = self.subs.remove(i);
                return true;
            }
            i += 1;
        }
        false
    }

    /// Delivers one record to every subscriber, exactly once each, keeping
    /// arrival order and dropping the oldest entry of a full queue.
    #[verifier::loop_isolation(false)]
    pub fn publish(&mut self, rec: &NormalizedTopOfBook)
        requires
            old(self).wf(),
        ensures
            final(self).wf(),
            final(self).next_id == old(self).next_id,
            final(self).subs@.len() == old(self).subs@.len(),
            forall|i: int| 0 <= i < old(self).subs@.len() ==> spec_published(
                old(self).subs@[i],
                #[trigger] final(self).subs@[i],
                rec@,
            ),
    {
        let ghost orig = self.subs@;
        let n = self.subs.len();
        let mut out: Vec<Subscriber> = Vec::new();
        let mut i: usize = 0;
        while i < n
            invariant
                i <= n,
                self.subs@ =~= orig.skip(i as int),
                self.next_id == old(self).next_id,
                out@.len() == i,
                forall|k: int| 0 <= k < i ==> spec_published(orig[k], #[trigger] out@[k], rec@),
            decreases n - i,
        {
            proof {
                assert(orig.skip(i as int)[0] == orig[i as int]);
            }
            let mut sub = self.subs.remove(0);
            proof {
                assert(orig.skip(i as int).remove(0) =~= orig.skip(i + 1));
            }
            let ghost before = sub;
            if sub.queue.len() == sub.capacity {
                let _ = sub.queue.remove(0);
                if sub.dropped < u64::MAX {
                    sub.dropped = sub.dropped + 1;
                }
                proof {
                    assert(sub.queue@ =~= before.queue@.drop_first());
                }
            }
            sub.queue.push(rec.clone());
            proof {
                if before.queue@.len() < before.capacity {
                    assert(qviews(sub) =~= qviews(before).push(rec@));
                } else {
                    assert(sub.queue@ =~= before.queue@.drop_first().push(
                        sub.queue@.last(),
                    ));
                    assert(qviews(sub) =~= qviews(before).drop_first().push(rec@));
                }
            }
            out.push(sub);
            i += 1;
        }
        proof {
            assert(orig.skip(n as int) =~= Seq::<Subscriber>::empty());
            assert forall|k: int| 0 <= k < n implies #[trigger] out@[k].capacity >= 1
                && out@[k].queue@.len() <= out@[k].capacity && out@[k].id < old(self).next_id by {
                assert(spec_published(orig[k], out@[k], rec@));
                assert(qviews(out@[k]).len() == out@[k].queue@.len());
                assert(qviews(orig[k]).len() == orig[k].queue@.len());
            }
            assert forall|k: int, m: int| 0 <= k < m < n implies #[trigger] out@[k].id
                != #[trigger] out@[m].id by {
                assert(spec_published(orig[k], out@[k], rec@));
                assert(spec_published(orig[m], out@[m], rec@));
            }
        }
        self.subs = out;
    }

    /// Hands out and empties the queue behind a handle; `None` exactly
    /// when the handle is not registered.
    #[verifier::loop_isolation(false)]
    pub fn take(&mut self, handle: u64) -> (r: Option<Vec<NormalizedTopOfBook>>)
        requires
            old(self).wf(),
        ensures
            final(self).wf(),
            final(self).next_id == old(self).next_id,
            match r {
                Some(q) => exists|i: int|
                    0 <= i < old(self).subs@.len() && #[trigger] old(self).subs@[i].id == handle
                        && q@ == old(self).subs@[i].queue@ && final(self).subs@.len() == old(self).subs@.len() && final(self).subs@[i].id == handle && final(self).subs@[i].queue@.len() == 0 && final(self).subs@[i].capacity == old(self).subs@[i].capacity && final(self).subs@[i].dropped == old(self).subs@[i].dropped && forall|k: int|
                        0 <= k < old(self).subs@.len() && k != i ==> final(self).subs@[k] == old(self).subs@[k],
                None => final(self).subs@ =~= old(self).subs@ && forall|i: int|
                    0 <= i < old(self).subs@.len() ==> old(self).subs@[i].id != handle,
            },
    {
        let n = self.subs.len();
        let mut i: usize = 0;
        while i < n
            invariant
                i <= n,
                forall|k: int| 0 <= k < i ==> old(self).subs@[k].id != handle,
                self.subs@ =~= old(self).subs@,
                self.next_id == old(self).next_id,
            decreases n - i,
        {
            if self.subs[i].id == handle {
                let mut sub = self.subs.remove(i);
                let q = sub.queue;
                sub.queue = Vec::new();
                self.subs.insert(i, sub);
                proof {
                    assert(forall|k: int|
                        0 <= k < old(self).subs@.len() && k != i ==> self.subs@[k] == old(self).subs@[k]);
                }
                return Some(q);
            }
            i += 1;
        }
        None
    }
}

} // verus!
