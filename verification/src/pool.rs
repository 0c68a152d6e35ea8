//! The progress indicator pool: a fixed collection of `n` reusable
//! `ProgressHandle`s checked out by download workers and returned when idle,
//! plus the aggregate completion counter for the whole run.

use crate::progress_bars::ProgressHandle;
use vstd::prelude::*;

verus! {

/// Tracks how many of the dispatched tasks have completed (successfully or
/// not). The completed count never exceeds the total; once they are equal
/// the counter is finalized and no further completion may be recorded.
pub struct AggregateCounter {
    pub total: u64,
    pub completed: u64,
    pub finalized: bool,
}

impl AggregateCounter {
    /// Basic well-formedness: completion never runs past the total, and the
    /// counter is only ever finalized once everything has completed.
    pub open spec fn wf(self) -> bool {
        &&& self.completed <= self.total
        &&& self.finalized ==> self.completed == self.total
    }

    /// Seed the counter with the known total task count.
    pub fn new(total: u64) -> (c: AggregateCounter)
        ensures
            c.wf(),
            c.total == total,
            c.completed == 0,
            !c.finalized,
    {
        AggregateCounter { total, completed: 0, finalized: false }
    }

    /// Record exactly one task completion, success or failure alike.
    pub fn on_complete(&mut self)
        requires
            old(self).wf(),
            old(self).completed < old(self).total,
        ensures
            final(self).wf(),
            final(self).total == old(self).total,
            final(self).completed == old(self).completed + 1,
            !final(self).finalized,
    {
        self.completed = self.completed + 1;
    }

    /// Settle the aggregate display once every task has completed.
    pub fn finalize(&mut self)
        requires
            old(self).wf(),
            old(self).completed == old(self).total,
        ensures
            final(self).wf(),
            final(self).total == old(self).total,
            final(self).completed == old(self).completed,
            final(self).finalized,
    {
        self.finalized = true;
    }

    /// Whether every dispatched task has completed.
    pub fn is_done(&self) -> (r: bool)
        ensures
            r == (self.completed == self.total),
    {
        self.completed == self.total
    }
}

/// The fixed-size pool of reusable progress handles. Exactly `n` handles
/// exist for the whole run; a worker owns one exclusively between `acquire`
/// and `release`, so at most `n` transfers are ever in flight at once.
pub struct IndicatorPool {
    pub n: usize,
    pub free: Vec<ProgressHandle>,
}

impl IndicatorPool {
    /// How many handles are currently available for checkout.
    pub open spec fn available(self) -> int {
        self.free@.len() as int
    }

    /// How many handles are currently checked out by workers.
    pub open spec fn checked_out(self) -> int {
        self.n - self.free@.len()
    }

    /// Whether some free handle occupies the given lane.
    pub open spec fn has_free_lane(self, lane: int) -> bool {
        exists|i: int| 0 <= i < self.free@.len() && (#[trigger] self.free@[i]).lane == lane
    }

    /// Pool invariant: never more free handles than lanes, every free handle
    /// is reset and sits on a valid lane, and no lane appears twice — the
    /// pool never hands out an already-checked-out handle.
    pub open spec fn wf(self) -> bool {
        &&& self.free@.len() <= self.n
        &&& forall|i: int|
            0 <= i < self.free@.len() ==> (#[trigger] self.free@[i]).is_reset()
                && self.free@[i].lane < self.n
        &&& forall|i: int, j: int|
            #![trigger self.free@[i].lane, self.free@[j].lane]
            0 <= i < j < self.free@.len() ==> self.free@[i].lane != self.free@[j].lane
    }

    /// With only `n` handles in existence, no more than `n` can ever be
    /// checked out simultaneously.
    pub proof fn lemma_checked_out_bounded(self)
        requires
            self.wf(),
        ensures
            0 <= self.checked_out() <= self.n,
    {
    }

    /// Create the pool: `n` handles, one per lane, each labeled "pending"
    /// with zeroed counters, all immediately available.
    pub fn new(n: usize) -> (p: IndicatorPool)
        requires
            n >= 1,
        ensures
            p.wf(),
            p.n == n,
            p.available() == n,
            forall|i: int| 0 <= i < n ==> (#[trigger] p.free@[i]).lane == i,
    {
        let mut free: Vec<ProgressHandle> = Vec::new();
        let mut i: usize = 0;
        while i < n
            invariant
                i <= n,
                free@.len() == i,
                forall|k: int|
                    0 <= k < i ==> (#[trigger] free@[k]).is_reset() && free@[k].lane == k,
            decreases n - i,
        {
            free.push(ProgressHandle::new(i));
            i = i + 1;
        }
        IndicatorPool { n, free }
    }

    /// Check out one handle; the caller owns it exclusively until it is
    /// released. The real distribution channel blocks while the pool is
    /// empty, so availability is a precondition here.
    pub fn acquire(&mut self) -> (h: ProgressHandle)
        requires
            old(self).wf(),
            old(self).available() > 0,
        ensures
            final(self).wf(),
            final(self).n == old(self).n,
            final(self).available() == old(self).available() - 1,
            final(self).free@ == old(self).free@.drop_last(),
            h == old(self).free@.last(),
            h.is_reset(),
            h.lane < old(self).n,
            old(self).has_free_lane(h.lane as int),
            forall|lane: int|
                #[trigger] final(self).has_free_lane(lane) <==> old(self).has_free_lane(lane)
                    && lane != h.lane,
    {
        let h_opt = self.free.pop();
        let h = h_opt.unwrap();
        proof {
            assert forall|i: int|
                0 <= i < self.free@.len() implies (#[trigger] self.free@[i]).lane != h.lane by {
                assert(old(self).free@[i].lane != old(self).free@[old(self).free@.len() - 1].lane);
            }
            assert(old(self).free@[old(self).free@.len() - 1].lane == h.lane);
            assert forall|lane: int|
                old(self).has_free_lane(lane) && lane != h.lane implies #[trigger] self
                    .has_free_lane(lane) by {
                let i = choose|i: int|
                    0 <= i < old(self).free@.len() && (#[trigger] old(self).free@[i]).lane == lane;
                assert(i < old(self).free@.len() - 1);
                assert(self.free@[i].lane == lane);
            }
            assert forall|lane: int|
                #[trigger] self.has_free_lane(lane) implies old(self).has_free_lane(lane) && lane
                    != h.lane by {
                let i = choose|i: int|
                    0 <= i < self.free@.len() && (#[trigger] self.free@[i]).lane == lane;
                assert(old(self).free@[i].lane == lane);
            }
        }
        h
    }

    /// Return a checked-out handle: reset it to the neutral pending state
    /// and make it available to the next `acquire`. Called exactly once per
    /// checkout, on the failure path as much as on success.
    pub fn release(&mut self, h: ProgressHandle)
        requires
            old(self).wf(),
            old(self).available() < old(self).n,
            h.lane < old(self).n,
            !old(self).has_free_lane(h.lane as int),
        ensures
            final(self).wf(),
            final(self).n == old(self).n,
            final(self).available() == old(self).available() + 1,
            final(self).free@.drop_last() == old(self).free@,
            final(self).free@.last().lane == h.lane,
            final(self).free@.last().is_reset(),
            forall|lane: int|
                #[trigger] final(self).has_free_lane(lane) <==> old(self).has_free_lane(lane)
                    || lane == h.lane,
    {
        let mut returned = h;
        returned.reset();
        self.free.push(returned);
        proof {
            assert(self.free@[self.free@.len() - 1].lane == h.lane);
            assert forall|lane: int|
                #[trigger] self.has_free_lane(lane) implies old(self).has_free_lane(lane) || lane
                    == h.lane by {
                let i = choose|i: int|
                    0 <= i < self.free@.len() && (#[trigger] self.free@[i]).lane == lane;
                if i < self.free@.len() - 1 {
                    assert(old(self).free@[i].lane == lane);
                }
            }
            assert forall|lane: int|
                old(self).has_free_lane(lane) implies #[trigger] self.has_free_lane(lane) by {
                let i = choose|i: int|
                    0 <= i < old(self).free@.len() && (#[trigger] old(self).free@[i]).lane == lane;
                assert(self.free@[i].lane == lane);
            }
            assert forall|i: int, j: int|
                0 <= i < j < self.free@.len() implies #[trigger] self.free@[i].lane
                != #[trigger] self.free@[j].lane by {
                if j < self.free@.len() - 1 {
                    assert(old(self).free@[i].lane != old(self).free@[j].lane);
                } else {
                    assert(!old(self).has_free_lane(h.lane as int));
                    assert(old(self).free@[i].lane != h.lane);
                }
            }
            assert(self.free@.drop_last() =~= old(self).free@);
        }
    }

    /// Shutdown: with every handle back in the pool (the real drain performs
    /// `n` blocking acquires to confirm exactly that), render each lane
    /// complete and finalize the aggregate indicator. No further display
    /// updates can follow.
    pub fn drain_and_finalize(&mut self, aggregate: &mut AggregateCounter)
        requires
            old(self).wf(),
            old(self).available() == old(self).n,
            old(aggregate).wf(),
            old(aggregate).completed == old(aggregate).total,
        ensures
            final(self).n == old(self).n,
            final(self).available() == old(self).n,
            forall|i: int|
                0 <= i < final(self).free@.len() ==> (#[trigger] final(self).free@[i]).finished
                    && final(self).free@[i].lane < final(self).n,
            final(aggregate).wf(),
            final(aggregate).total == old(aggregate).total,
            final(aggregate).completed == old(aggregate).completed,
            final(aggregate).finalized,
    {
        let n: usize = self.free.len();
        let ghost free0: Seq<ProgressHandle> = self.free@;
        proof {
            assert(free0.subrange(0, n as int) =~= free0);
        }
        let mut done: Vec<ProgressHandle> = Vec::new();
        let mut i: usize = 0;
        while i < n
            invariant
                i <= n,
                n == old(self).n,
                self.n == old(self).n,
                free0.len() == n,
                forall|k: int| 0 <= k < n ==> (#[trigger] free0[k]).lane < n,
                self.free@ == free0.subrange(0, n - i),
                done@.len() == i,
                forall|k: int|
                    0 <= k < i ==> (#[trigger] done@[k]).finished && done@[k].lane < n,
            decreases n - i,
        {
            let h_opt = self.free.pop();
            let mut h = h_opt.unwrap();
            h.finish();
            done.push(h);
            i = i + 1;
            proof {
                assert(self.free@ =~= free0.subrange(0, n - i));
            }
        }
        self.free = done;
        aggregate.finalize();
    }
}

/// One step of the pool's checkout discipline, as seen from the outside.
pub enum PoolEvent {
    Acquire,
    Release,
}

/// How many of the events are acquires.
pub open spec fn count_acquires(events: Seq<PoolEvent>) -> int
    decreases events.len(),
{
    if events.len() == 0 {
        0
    } else {
        count_acquires(events.drop_last()) + match events.last() {
            PoolEvent::Acquire => 1int,
            PoolEvent::Release => 0int,
        }
    }
}

/// How many of the events are releases.
pub open spec fn count_releases(events: Seq<PoolEvent>) -> int
    decreases events.len(),
{
    if events.len() == 0 {
        0
    } else {
        count_releases(events.drop_last()) + match events.last() {
            PoolEvent::Acquire => 0int,
            PoolEvent::Release => 1int,
        }
    }
}

/// The pool's availability after a trace of events, starting from `start`
/// available handles: `acquire` takes one handle out, `release` puts one
/// back — exactly the step that the contracts of `IndicatorPool::acquire`
/// and `IndicatorPool::release` make on `available()`.
pub open spec fn avail_after(start: int, events: Seq<PoolEvent>) -> int
    decreases events.len(),
{
    if events.len() == 0 {
        start
    } else {
        avail_after(start, events.drop_last()) + match events.last() {
            PoolEvent::Acquire => -1int,
            PoolEvent::Release => 1int,
        }
    }
}

/// Availability after a trace is the starting availability plus the
/// releases minus the acquires.
pub proof fn lemma_avail_after_counts(start: int, events: Seq<PoolEvent>)
    ensures
        avail_after(start, events) == start + count_releases(events) - count_acquires(events),
    decreases events.len(),
{
    if events.len() > 0 {
        lemma_avail_after_counts(start, events.drop_last());
    }
}

/// Law of the checkout discipline: in any trace in which every `acquire`
/// is matched by exactly one `release` — including when the worker's fetch
/// failed — the pool's available-handle count returns to where it started.
pub proof fn lemma_balanced_trace_restores_pool(start: int, events: Seq<PoolEvent>)
    requires
        count_acquires(events) == count_releases(events),
    ensures
        avail_after(start, events) == start,
{
    lemma_avail_after_counts(start, events);
}

} // verus!
