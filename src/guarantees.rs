//! What the coordination protocol guarantees over sequences of operations
//! on the region, proved over the region's view.

use vstd::prelude::*;
use crate::coordination::MAX_RANKS;
use crate::region::{
    RankResultsShared, RegionView, STATUS_BARRIER_READY, STATUS_REGISTERED, bytes_of, files_of,
    throughput_of, valid_count, valid_sum,
};

verus! {

/// The region after each rank of `order` has registered, in that order.
pub open spec fn register_all(s: RegionView, order: Seq<u32>) -> RegionView
    decreases order.len(),
{
    if order.len() == 0 {
        s
    } else {
        register_all(s, order.drop_last()).register(order.last() as int)
    }
}

/// The region after each rank of `arrivals` has arrived at a barrier.
pub open spec fn enter_all(s: RegionView, arrivals: Seq<u32>) -> RegionView
    decreases arrivals.len(),
{
    if arrivals.len() == 0 {
        s
    } else {
        enter_all(s, arrivals.drop_last()).enter_barrier(arrivals.last() as int)
    }
}

/// The region after each rank of `leavers` has left a released barrier.
pub open spec fn leave_all(s: RegionView, leavers: Seq<u32>) -> RegionView
    decreases leavers.len(),
{
    if leavers.len() == 0 {
        s
    } else {
        leave_all(s, leavers.drop_last()).leave_barrier(leavers.last() as int)
    }
}

/// The region after `ranks[i]` has published `vals[i]`, for each `i` in turn.
pub open spec fn publish_all(s: RegionView, ranks: Seq<u32>, vals: Seq<RankResultsShared>) -> RegionView
    decreases ranks.len(),
{
    if ranks.len() == 0 || vals.len() == 0 {
        s
    } else {
        publish_all(s, ranks.drop_last(), vals.drop_last()).publish(ranks.last() as int, vals.last())
    }
}

/// Sum of a field over a sequence of results.
pub open spec fn sum_of(vals: Seq<RankResultsShared>, f: spec_fn(RankResultsShared) -> u64) -> int
    decreases vals.len(),
{
    if vals.len() == 0 {
        0
    } else {
        sum_of(vals.drop_last(), f) + f(vals.last()) as int
    }
}

/// Every rank of `rs` is one of the first `world_size`.
pub open spec fn ranks_below(rs: Seq<u32>, world_size: u32) -> bool {
    forall|i: int| 0 <= i < rs.len() ==> #[trigger] rs[i] < world_size
}

proof fn lemma_register_all(s: RegionView, order: Seq<u32>)
    requires
        s.wf(),
        ranks_below(order, s.world_size),
        s.registered_ranks + order.len() <= u32::MAX,
    ensures
        register_all(s, order).wf(),
        register_all(s, order).world_size == s.world_size,
        register_all(s, order).registered_ranks == s.registered_ranks + order.len(),
        forall|i: int| 0 <= i < order.len() ==> register_all(s, order).status[#[trigger] order[i] as int] == STATUS_REGISTERED,
    decreases order.len(),
{
    if order.len() > 0 {
        let p = order.drop_last();
        assert(ranks_below(p, s.world_size)) by {
            assert forall|i: int| 0 <= i < p.len() implies #[trigger] p[i] < s.world_size by {
                assert(p[i] == order[i]);
            }
        }
        lemma_register_all(s, p);
        assert forall|i: int| 0 <= i < order.len() implies register_all(s, order).status[#[trigger] order[i] as int] == STATUS_REGISTERED by {
            if i < order.len() - 1 {
                assert(p[i] == order[i]);
            }
        }
    }
}

/// Ranks that register once each, in any order, are all counted: no
/// registration is lost and none is counted twice. Registration is complete
/// after the last of them and not before, and every one of them stands
/// registered.
pub proof fn lemma_registration_counts_each_rank_once(world_size: u32, order: Seq<u32>)
    requires
        1 <= world_size <= MAX_RANKS,
        order.len() == world_size,
        order.no_duplicates(),
        ranks_below(order, world_size),
    ensures
        register_all(RegionView::fresh(world_size), order).registered_ranks == world_size,
        register_all(RegionView::fresh(world_size), order).registration_complete(),
        forall|k: int| 0 <= k < world_size ==> !(#[trigger] register_all(RegionView::fresh(world_size), order.take(k))).registration_complete(),
        forall|i: int| 0 <= i < world_size ==> register_all(RegionView::fresh(world_size), order).status[#[trigger] order[i] as int] == STATUS_REGISTERED,
{
    let f = RegionView::fresh(world_size);
    lemma_register_all(f, order);
    assert forall|k: int| 0 <= k < world_size implies !(#[trigger] register_all(f, order.take(k))).registration_complete() by {
        let q = order.take(k);
        assert(ranks_below(q, world_size)) by {
            assert forall|i: int| 0 <= i < q.len() implies #[trigger] q[i] < world_size by {
                assert(q[i] == order[i]);
            }
        }
        lemma_register_all(f, q);
    }
}

proof fn lemma_enter_all(s: RegionView, arrivals: Seq<u32>)
    requires
        s.wf(),
        ranks_below(arrivals, s.world_size),
    ensures
        enter_all(s, arrivals).wf(),
        enter_all(s, arrivals).world_size == s.world_size,
        forall|r: int| 0 <= r < 64 ==> (#[trigger] enter_all(s, arrivals).status[r]) == if arrivals.contains(r as u32) {
            STATUS_BARRIER_READY
        } else {
            s.status[r]
        },
    decreases arrivals.len(),
{
    if arrivals.len() > 0 {
        let p = arrivals.drop_last();
        assert(ranks_below(p, s.world_size)) by {
            assert forall|i: int| 0 <= i < p.len() implies #[trigger] p[i] < s.world_size by {
                assert(p[i] == arrivals[i]);
            }
        }
        lemma_enter_all(s, p);
        assert forall|r: int| 0 <= r < 64 implies (#[trigger] enter_all(s, arrivals).status[r]) == if arrivals.contains(r as u32) {
            STATUS_BARRIER_READY
        } else {
            s.status[r]
        } by {
            if arrivals.contains(r as u32) && r != arrivals.last() as int {
                let j = choose|j: int| 0 <= j < arrivals.len() && arrivals[j] == r as u32;
                assert(j < arrivals.len() - 1);
                assert(p[j] == arrivals[j]);
            }
            if p.contains(r as u32) {
                let j = choose|j: int| 0 <= j < p.len() && p[j] == r as u32;
                assert(arrivals[j] == p[j]);
            }
            if r == arrivals.last() as int {
                assert(arrivals[arrivals.len() - 1] == r as u32);
            }
        }
    }
}

/// A barrier waits for every rank: from a region where no rank is at a
/// barrier, after any sequence of arrivals the barrier releases exactly
/// when every rank of the group is among them.
pub proof fn lemma_barrier_waits_for_all(s: RegionView, arrivals: Seq<u32>)
    requires
        s.wf(),
        forall|r: int| 0 <= r < s.world_size ==> #[trigger] s.status[r] < STATUS_BARRIER_READY,
        ranks_below(arrivals, s.world_size),
    ensures
        enter_all(s, arrivals).barrier_released() <==> (forall|r: int| 0 <= r < s.world_size ==> #[trigger] arrivals.contains(r as u32)),
{
    lemma_enter_all(s, arrivals);
    let e = enter_all(s, arrivals);
    if e.barrier_released() {
        assert forall|r: int| 0 <= r < s.world_size implies #[trigger] arrivals.contains(r as u32) by {
            assert(e.status[r] >= STATUS_BARRIER_READY);
        }
    }
    if forall|r: int| 0 <= r < s.world_size ==> #[trigger] arrivals.contains(r as u32) {
        assert forall|r: int| 0 <= r < e.world_size implies e.status[r] >= STATUS_BARRIER_READY by {
            assert(arrivals.contains(r as u32));
        }
    }
}

proof fn lemma_leave_all(s: RegionView, leavers: Seq<u32>)
    requires
        s.wf(),
        ranks_below(leavers, s.world_size),
    ensures
        leave_all(s, leavers).wf(),
        leave_all(s, leavers).world_size == s.world_size,
        forall|r: int| 0 <= r < 64 ==> (#[trigger] leave_all(s, leavers).status[r]) == if leavers.contains(r as u32) {
            STATUS_REGISTERED
        } else {
            s.status[r]
        },
    decreases leavers.len(),
{
    if leavers.len() > 0 {
        let p = leavers.drop_last();
        assert(ranks_below(p, s.world_size)) by {
            assert forall|i: int| 0 <= i < p.len() implies #[trigger] p[i] < s.world_size by {
                assert(p[i] == leavers[i]);
            }
        }
        lemma_leave_all(s, p);
        assert forall|r: int| 0 <= r < 64 implies (#[trigger] leave_all(s, leavers).status[r]) == if leavers.contains(r as u32) {
            STATUS_REGISTERED
        } else {
            s.status[r]
        } by {
            if leavers.contains(r as u32) && r != leavers.last() as int {
                let j = choose|j: int| 0 <= j < leavers.len() && leavers[j] == r as u32;
                assert(j < leavers.len() - 1);
                assert(p[j] == leavers[j]);
            }
            if p.contains(r as u32) {
                let j = choose|j: int| 0 <= j < p.len() && p[j] == r as u32;
                assert(leavers[j] == p[j]);
            }
            if r == leavers.last() as int {
                assert(leavers[leavers.len() - 1] == r as u32);
            }
        }
    }
}

/// Barriers can be reused: once every rank has passed barrier "a" and reset
/// its own status, the next barrier "b" again releases exactly when every
/// rank has arrived at it, whatever the order of arrivals.
pub proof fn lemma_barrier_reentrant(s: RegionView, leavers: Seq<u32>, next_arrivals: Seq<u32>)
    requires
        s.wf(),
        s.barrier_released(),
        ranks_below(leavers, s.world_size),
        forall|r: int| 0 <= r < s.world_size ==> #[trigger] leavers.contains(r as u32),
        ranks_below(next_arrivals, s.world_size),
    ensures
        forall|r: int| 0 <= r < s.world_size ==> #[trigger] leave_all(s, leavers).status[r] == STATUS_REGISTERED,
        enter_all(leave_all(s, leavers), next_arrivals).barrier_released() <==> (forall|r: int|
            0 <= r < s.world_size ==> #[trigger] next_arrivals.contains(r as u32)),
{
    lemma_leave_all(s, leavers);
    let l = leave_all(s, leavers);
    assert forall|r: int| 0 <= r < l.world_size implies #[trigger] l.status[r] < STATUS_BARRIER_READY by {
        assert(leavers.contains(r as u32));
    }
    lemma_barrier_waits_for_all(l, next_arrivals);
}

proof fn lemma_valid_sum_update(
    slots: Seq<RankResultsShared>,
    n: int,
    r: int,
    res: RankResultsShared,
    f: spec_fn(RankResultsShared) -> u64,
)
    requires
        0 <= r < slots.len(),
        n <= slots.len(),
        !slots[r].results_valid,
        res.results_valid,
    ensures
        valid_sum(slots.update(r, res), n, f) == valid_sum(slots, n, f) + if r < n {
            f(res) as int
        } else {
            0
        },
        valid_count(slots.update(r, res), n) == valid_count(slots, n) + if r < n {
            1int
        } else {
            0
        },
    decreases n,
{
    if n > 0 {
        lemma_valid_sum_update(slots, n - 1, r, res, f);
    }
}

proof fn lemma_publish_all(
    s: RegionView,
    ranks: Seq<u32>,
    vals: Seq<RankResultsShared>,
    f: spec_fn(RankResultsShared) -> u64,
)
    requires
        s.wf(),
        ranks.len() == vals.len(),
        ranks.no_duplicates(),
        ranks_below(ranks, s.world_size),
        forall|i: int| 0 <= i < ranks.len() ==> !s.results[#[trigger] ranks[i] as int].results_valid,
        forall|v: RankResultsShared| #[trigger] f(RankResultsShared { results_valid: true, ..v }) == f(v),
    ensures
        publish_all(s, ranks, vals).wf(),
        publish_all(s, ranks, vals).world_size == s.world_size,
        forall|r: int| 0 <= r < 64 && !ranks.contains(r as u32) ==> (#[trigger] publish_all(s, ranks, vals).results[r]) == s.results[r],
        valid_sum(publish_all(s, ranks, vals).results, s.world_size as int, f) == valid_sum(s.results, s.world_size as int, f) + sum_of(vals, f),
        valid_count(publish_all(s, ranks, vals).results, s.world_size as int) == valid_count(s.results, s.world_size as int) + ranks.len(),
    decreases ranks.len(),
{
    if ranks.len() > 0 {
        let p = ranks.drop_last();
        let pv = vals.drop_last();
        assert(ranks_below(p, s.world_size)) by {
            assert forall|i: int| 0 <= i < p.len() implies #[trigger] p[i] < s.world_size by {
                assert(p[i] == ranks[i]);
            }
        }
        assert(p.no_duplicates());
        assert forall|i: int| 0 <= i < p.len() implies !s.results[#[trigger] p[i] as int].results_valid by {
            assert(p[i] == ranks[i]);
        }
        lemma_publish_all(s, p, pv, f);
        let mid = publish_all(s, p, pv);
        let last = ranks.last();
        assert(ranks[ranks.len() - 1] == last);
        assert(!p.contains(last)) by {
            if p.contains(last) {
                let j = choose|j: int| 0 <= j < p.len() && p[j] == last;
                assert(ranks[j] == ranks[ranks.len() - 1]);
            }
        }
        assert(mid.results[last as int] == s.results[last as int]);
        let res = RankResultsShared { results_valid: true, ..vals.last() };
        assert(f(res) == f(vals.last()));
        lemma_valid_sum_update(mid.results, s.world_size as int, last as int, res, f);
        assert forall|r: int| 0 <= r < 64 && !ranks.contains(r as u32) implies (#[trigger] publish_all(s, ranks, vals).results[r]) == s.results[r] by {
            if p.contains(r as u32) {
                let j = choose|j: int| 0 <= j < p.len() && p[j] == r as u32;
                assert(ranks[j] == p[j]);
            }
        }
    }
}

proof fn lemma_fresh_nothing_published(world_size: u32, n: int, f: spec_fn(RankResultsShared) -> u64)
    requires
        n <= 64,
    ensures
        valid_count(RegionView::fresh(world_size).results, n) == 0,
        valid_sum(RegionView::fresh(world_size).results, n, f) == 0,
    decreases n,
{
    if n > 0 {
        lemma_fresh_nothing_published(world_size, n - 1, f);
    }
}

/// Storing then aggregating round-trips: when each of some distinct ranks
/// of a fresh group publishes once, the aggregate's totals of files, bytes
/// and throughput are the sums of what they published, and exactly those
/// ranks count as published.
pub proof fn lemma_store_then_aggregate(world_size: u32, ranks: Seq<u32>, vals: Seq<RankResultsShared>)
    requires
        1 <= world_size <= MAX_RANKS,
        ranks.len() == vals.len(),
        ranks.no_duplicates(),
        ranks_below(ranks, world_size),
    ensures
        ({
            let s = publish_all(RegionView::fresh(world_size), ranks, vals);
            &&& valid_sum(s.results, world_size as int, |v| files_of(v)) == sum_of(vals, |v| files_of(v))
            &&& valid_sum(s.results, world_size as int, |v| bytes_of(v)) == sum_of(vals, |v| bytes_of(v))
            &&& valid_sum(s.results, world_size as int, |v| throughput_of(v)) == sum_of(vals, |v| throughput_of(v))
            &&& valid_count(s.results, world_size as int) == ranks.len()
        }),
{
    let f = RegionView::fresh(world_size);
    assert forall|i: int| 0 <= i < ranks.len() implies !f.results[#[trigger] ranks[i] as int].results_valid by {
        assert(ranks[i] < world_size);
    }
    let ff = |v| files_of(v);
    let bf = |v| bytes_of(v);
    let tf = |v| throughput_of(v);
    assert forall|v: RankResultsShared| #[trigger] ff(RankResultsShared { results_valid: true, ..v }) == ff(v) by {}
    assert forall|v: RankResultsShared| #[trigger] bf(RankResultsShared { results_valid: true, ..v }) == bf(v) by {}
    assert forall|v: RankResultsShared| #[trigger] tf(RankResultsShared { results_valid: true, ..v }) == tf(v) by {}
    lemma_fresh_nothing_published(world_size, world_size as int, ff);
    lemma_fresh_nothing_published(world_size, world_size as int, bf);
    lemma_fresh_nothing_published(world_size, world_size as int, tf);
    lemma_publish_all(f, ranks, vals, ff);
    lemma_publish_all(f, ranks, vals, bf);
    lemma_publish_all(f, ranks, vals, tf);
}

/// A group in which no rank has published has nothing to aggregate, so
/// aggregation fails with `NoValidResults`.
pub proof fn lemma_nothing_published_fails(world_size: u32)
    requires
        1 <= world_size <= MAX_RANKS,
    ensures
        valid_count(RegionView::fresh(world_size).results, world_size as int) == 0,
{
    lemma_fresh_nothing_published(world_size, world_size as int, |v| files_of(v));
}

/// The global start time is the one of the last call: marking it twice
/// keeps the second time.
pub proof fn lemma_global_start_last_call_wins(s: RegionView, first: u64, second: u64)
    ensures
        s.set_global_start(first).set_global_start(second).global_start_time == second,
        s.set_global_start(first).set_global_start(second) == s.set_global_start(second),
{
}

/// The end time is set once: after a first writer, later writers leave it.
pub proof fn lemma_end_time_first_writer_wins(s: RegionView, first: u64, second: u64)
    requires
        s.global_end_time == 0,
    ensures
        s.publish_end_time(first).publish_end_time(second).global_end_time == if first == 0 {
            second
        } else {
            first
        },
{
}

/// The abort flag is sticky: no protocol operation lowers it.
pub proof fn lemma_abort_is_sticky(s: RegionView, rank: int, t: u64, res: RankResultsShared)
    requires
        s.abort,
    ensures
        s.register(rank).abort,
        s.enter_barrier(rank).abort,
        s.leave_barrier(rank).abort,
        s.finish(rank).abort,
        s.publish_end_time(t).abort,
        s.set_global_start(t).abort,
        s.fail(rank).abort,
        s.raise_abort().abort,
        s.beat(rank, t).abort,
        s.publish(rank, res).abort,
        s.deactivate().abort,
{
}

} // verus!
