//! The shared coordination region as plain values: its fixed layout, the
//! transition that each protocol operation makes, and result aggregation.

use vstd::prelude::*;
use crate::coordination::{CoordError, CoordinationStats, MAX_RANKS, stored_timestamp, timestamp_of};

verus! {

/// Rank status: has not registered yet.
pub const STATUS_NOT_STARTED: u32 = 0;
/// Rank status: registered, or released from the last barrier.
pub const STATUS_REGISTERED: u32 = 1;
/// Rank status: waiting at a barrier.
pub const STATUS_BARRIER_READY: u32 = 2;
/// Rank status: finished its workload.
pub const STATUS_FINISHED: u32 = 3;
/// Rank status: failed.
pub const STATUS_FAILED: u32 = 4;

/// One rank's published results. Throughput is in bytes per second and the
/// accelerator utilisation fraction is scaled by 10^15.
#[derive(Debug, Clone, Copy, PartialEq, Eq, Structural)]
pub struct RankResultsShared {
    pub files_processed: u64,
    pub bytes_read: u64,
    pub throughput_bps: u64,
    pub wall_clock_time_ns: u64,
    pub au_fraction_scaled: u64,
    pub start_time_ns: u64,
    pub end_time_ns: u64,
    pub results_valid: bool,
}

/// An unpublished, zeroed result slot.
pub open spec fn empty_slot() -> RankResultsShared {
    RankResultsShared {
        files_processed: 0,
        bytes_read: 0,
        throughput_bps: 0,
        wall_clock_time_ns: 0,
        au_fraction_scaled: 0,
        start_time_ns: 0,
        end_time_ns: 0,
        results_valid: false,
    }
}

impl RankResultsShared {
    /// An unpublished, zeroed result slot.
    pub fn new() -> (r: Self)
        ensures
            r == empty_slot(),
    {
        RankResultsShared {
            files_processed: 0,
            bytes_read: 0,
            throughput_bps: 0,
            wall_clock_time_ns: 0,
            au_fraction_scaled: 0,
            start_time_ns: 0,
            end_time_ns: 0,
            results_valid: false,
        }
    }
}

/// The coordination region: fixed-size fields and one slot per possible rank.
#[derive(Debug, Clone)]
pub struct CoordinationState {
    pub world_size: u32,
    pub registered_ranks: u32,
    /// Reserved; no operation changes it.
    pub ready_ranks: u32,
    pub finished_ranks: u32,
    pub global_start_time: u64,
    pub global_end_time: u64,
    pub active: bool,
    pub abort: bool,
    pub rank_heartbeats: [u64; 64],
    pub rank_status: [u32; 64],
    pub rank_results: [RankResultsShared; 64],
}

/// Mathematical view of the region.
pub struct RegionView {
    pub world_size: u32,
    pub registered_ranks: u32,
    pub ready_ranks: u32,
    pub finished_ranks: u32,
    pub global_start_time: u64,
    pub global_end_time: u64,
    pub active: bool,
    pub abort: bool,
    pub heartbeats: Seq<u64>,
    pub status: Seq<u32>,
    pub results: Seq<RankResultsShared>,
}

impl View for CoordinationState {
    type V = RegionView;

    open spec fn view(&self) -> RegionView {
        RegionView {
            world_size: self.world_size,
            registered_ranks: self.registered_ranks,
            ready_ranks: self.ready_ranks,
            finished_ranks: self.finished_ranks,
            global_start_time: self.global_start_time,
            global_end_time: self.global_end_time,
            active: self.active,
            abort: self.abort,
            heartbeats: self.rank_heartbeats@,
            status: self.rank_status@,
            results: self.rank_results@,
        }
    }
}

/// A counter after one atomic increment, which wraps at the top of `u32`.
pub open spec fn bump(c: u32) -> u32 {
    if c == u32::MAX {
        0
    } else {
        (c + 1) as u32
    }
}

/// Sum of a field over the published slots among the first `n`.
pub open spec fn valid_sum(slots: Seq<RankResultsShared>, n: int, f: spec_fn(RankResultsShared) -> u64) -> int
    decreases n,
{
    if n <= 0 {
        0
    } else {
        valid_sum(slots, n - 1, f) + if slots[n - 1].results_valid {
            f(slots[n - 1]) as int
        } else {
            0
        }
    }
}

/// Number of published slots among the first `n`.
pub open spec fn valid_count(slots: Seq<RankResultsShared>, n: int) -> nat
    decreases n,
{
    if n <= 0 {
        0
    } else {
        valid_count(slots, n - 1) + if slots[n - 1].results_valid {
            1nat
        } else {
            0nat
        }
    }
}

/// Earliest start time over the published slots among the first `n`
/// (`u64::MAX` when there is none).
pub open spec fn min_start(slots: Seq<RankResultsShared>, n: int) -> u64
    decreases n,
{
    if n <= 0 {
        u64::MAX
    } else {
        let m = min_start(slots, n - 1);
        if slots[n - 1].results_valid && slots[n - 1].start_time_ns < m {
            slots[n - 1].start_time_ns
        } else {
            m
        }
    }
}

/// Latest end time over the published slots among the first `n` (0 when
/// there is none).
pub open spec fn max_end(slots: Seq<RankResultsShared>, n: int) -> u64
    decreases n,
{
    if n <= 0 {
        0
    } else {
        let m = max_end(slots, n - 1);
        if slots[n - 1].results_valid && slots[n - 1].end_time_ns > m {
            slots[n - 1].end_time_ns
        } else {
            m
        }
    }
}

/// Per-rank detail of a published slot.
#[derive(Debug, Clone, Copy, PartialEq, Eq, Structural)]
pub struct RankResultDetail {
    pub rank: u32,
    pub files_processed: u64,
    pub bytes_read: u64,
    pub throughput_bps: u64,
    pub wall_clock_time_ns: u64,
    pub au_fraction_scaled: u64,
}

/// The detail that a published slot of `rank` contributes.
pub open spec fn detail_of(rank: int, s: RankResultsShared) -> RankResultDetail {
    RankResultDetail {
        rank: rank as u32,
        files_processed: s.files_processed,
        bytes_read: s.bytes_read,
        throughput_bps: s.throughput_bps,
        wall_clock_time_ns: s.wall_clock_time_ns,
        au_fraction_scaled: s.au_fraction_scaled,
    }
}

/// Details of the published slots among the first `n`, by rank.
pub open spec fn details(slots: Seq<RankResultsShared>, n: int) -> Seq<RankResultDetail>
    decreases n,
{
    if n <= 0 {
        Seq::empty()
    } else if slots[n - 1].results_valid {
        details(slots, n - 1).push(detail_of(n - 1, slots[n - 1]))
    } else {
        details(slots, n - 1)
    }
}

pub open spec fn files_of(s: RankResultsShared) -> u64 {
    s.files_processed
}

pub open spec fn bytes_of(s: RankResultsShared) -> u64 {
    s.bytes_read
}

pub open spec fn throughput_of(s: RankResultsShared) -> u64 {
    s.throughput_bps
}

/// Combined results of the published ranks. Totals are wide enough for any
/// group; the runtime spans the earliest start to the latest end.
#[derive(Debug, Clone)]
pub struct AggregatedResults {
    pub total_ranks: u32,
    pub total_files_processed: u128,
    pub total_bytes_read: u128,
    pub total_throughput_bps: u128,
    pub global_runtime_ns: u64,
    pub rank_details: Vec<RankResultDetail>,
}

/// Span from the earliest start to the latest end, 0 when the end is earlier.
pub open spec fn runtime_of(slots: Seq<RankResultsShared>, n: int) -> u64 {
    if max_end(slots, n) >= min_start(slots, n) {
        (max_end(slots, n) - min_start(slots, n)) as u64
    } else {
        0
    }
}

/// `r` combines the published slots among the first `world_size`.
pub open spec fn aggregates(r: AggregatedResults, slots: Seq<RankResultsShared>, world_size: u32) -> bool {
    let n = world_size as int;
    &&& r.total_ranks == world_size
    &&& r.total_files_processed as int == valid_sum(slots, n, |s| files_of(s))
    &&& r.total_bytes_read as int == valid_sum(slots, n, |s| bytes_of(s))
    &&& r.total_throughput_bps as int == valid_sum(slots, n, |s| throughput_of(s))
    &&& r.global_runtime_ns == runtime_of(slots, n)
    &&& r.rank_details@ == details(slots, n)
}

/// Combines the results that the first `world_size` ranks have published;
/// unpublished slots are skipped. Fails when no rank has published.
pub fn aggregate_results(world_size: u32, slots: &[RankResultsShared; 64]) -> (r: Result<AggregatedResults, CoordError>)
    requires
        world_size <= MAX_RANKS,
    ensures
        r is Err <==> valid_count(slots@, world_size as int) == 0,
        r is Err ==> r->Err_0 == CoordError::NoValidResults,
        r is Ok ==> aggregates(r->Ok_0, slots@, world_size),
{
    let ghost sl = slots@;
    let ghost ff = |s| files_of(s);
    let ghost bf = |s| bytes_of(s);
    let ghost tf = |s| throughput_of(s);
    let mut total_files: u128 = 0;
    let mut total_bytes: u128 = 0;
    let mut total_throughput: u128 = 0;
    let mut min_start_time: u64 = u64::MAX;
    let mut max_end_time: u64 = 0;
    let mut count: u32 = 0;
    let mut rank_details: Vec<RankResultDetail> = Vec::new();
    let mut rank: u32 = 0;
    while rank < world_size
        invariant
            rank <= world_size <= MAX_RANKS,
            sl == slots@,
            sl.len() == 64,
            ff == (|s| files_of(s)),
            bf == (|s| bytes_of(s)),
            tf == (|s| throughput_of(s)),
            total_files as int == valid_sum(sl, rank as int, ff),
            total_bytes as int == valid_sum(sl, rank as int, bf),
            total_throughput as int == valid_sum(sl, rank as int, tf),
            0 <= valid_sum(sl, rank as int, ff) <= rank * 0xFFFF_FFFF_FFFF_FFFFint,
            0 <= valid_sum(sl, rank as int, bf) <= rank * 0xFFFF_FFFF_FFFF_FFFFint,
            0 <= valid_sum(sl, rank as int, tf) <= rank * 0xFFFF_FFFF_FFFF_FFFFint,
            min_start_time == min_start(sl, rank as int),
            max_end_time == max_end(sl, rank as int),
            count as nat == valid_count(sl, rank as int),
            count <= rank,
            rank_details@ == details(sl, rank as int),
        decreases world_size - rank,
    {
        let slot = slots[rank as usize];
        if slot.results_valid {
            total_files = total_files + slot.files_processed as u128;
            total_bytes = total_bytes + slot.bytes_read as u128;
            total_throughput = total_throughput + slot.throughput_bps as u128;
            if slot.start_time_ns < min_start_time {
                min_start_time = slot.start_time_ns;
            }
            if slot.end_time_ns > max_end_time {
                max_end_time = slot.end_time_ns;
            }
            count = count + 1;
            rank_details.push(
                RankResultDetail {
                    rank,
                    files_processed: slot.files_processed,
                    bytes_read: slot.bytes_read,
                    throughput_bps: slot.throughput_bps,
                    wall_clock_time_ns: slot.wall_clock_time_ns,
                    au_fraction_scaled: slot.au_fraction_scaled,
                },
            );
        }
        rank = rank + 1;
    }
    if count == 0 {
        return Err(CoordError::NoValidResults);
    }
    let global_runtime_ns = if max_end_time >= min_start_time {
        max_end_time - min_start_time
    } else {
        0
    };
    Ok(
        AggregatedResults {
            total_ranks: world_size,
            total_files_processed: total_files,
            total_bytes_read: total_bytes,
            total_throughput_bps: total_throughput,
            global_runtime_ns,
            rank_details,
        },
    )
}

/// Every one of the first `world_size` ranks is at a barrier or past it.
pub open spec fn all_ranks_ready(status: Seq<u32>, world_size: u32) -> bool {
    forall|r: int| 0 <= r < world_size ==> status[r] >= STATUS_BARRIER_READY
}

/// Tests whether every one of the first `world_size` ranks has reached the
/// barrier: the condition under which a barrier releases.
pub fn all_at_barrier(world_size: u32, status: &[u32; 64]) -> (r: bool)
    requires
        world_size <= MAX_RANKS,
    ensures
        r == all_ranks_ready(status@, world_size),
{
    let mut i: u32 = 0;
    while i < world_size
        invariant
            i <= world_size <= MAX_RANKS,
            status@.len() == 64,
            forall|r: int| 0 <= r < i ==> status@[r] >= STATUS_BARRIER_READY,
        decreases world_size - i,
    {
        if status[i as usize] < STATUS_BARRIER_READY {
            return false;
        }
        i = i + 1;
    }
    true
}

impl RegionView {
    /// The region has a supported world size and one entry per possible rank.
    pub open spec fn wf(self) -> bool {
        &&& 1 <= self.world_size <= MAX_RANKS
        &&& self.heartbeats.len() == 64
        &&& self.status.len() == 64
        &&& self.results.len() == 64
    }

    /// A region as its creator initialises it.
    pub open spec fn fresh(world_size: u32) -> RegionView {
        RegionView {
            world_size,
            registered_ranks: 0,
            ready_ranks: 0,
            finished_ranks: 0,
            global_start_time: 0,
            global_end_time: 0,
            active: true,
            abort: false,
            heartbeats: Seq::new(64, |i: int| 0u64),
            status: Seq::new(64, |i: int| STATUS_NOT_STARTED),
            results: Seq::new(64, |i: int| empty_slot()),
        }
    }

    /// `rank` registers: its status becomes registered and the counter grows by one.
    pub open spec fn register(self, rank: int) -> RegionView {
        RegionView {
            status: self.status.update(rank, STATUS_REGISTERED),
            registered_ranks: bump(self.registered_ranks),
            ..self
        }
    }

    /// Every rank has registered.
    pub open spec fn registration_complete(self) -> bool {
        self.registered_ranks >= self.world_size
    }

    /// `rank` arrives at a barrier.
    pub open spec fn enter_barrier(self, rank: int) -> RegionView {
        RegionView { status: self.status.update(rank, STATUS_BARRIER_READY), ..self }
    }

    /// The current barrier releases.
    pub open spec fn barrier_released(self) -> bool {
        all_ranks_ready(self.status, self.world_size)
    }

    /// `rank` leaves a released barrier, resetting only its own status.
    pub open spec fn leave_barrier(self, rank: int) -> RegionView {
        RegionView { status: self.status.update(rank, STATUS_REGISTERED), ..self }
    }

    /// `rank` finishes: its status becomes finished and the counter grows by one.
    pub open spec fn finish(self, rank: int) -> RegionView {
        RegionView {
            status: self.status.update(rank, STATUS_FINISHED),
            finished_ranks: bump(self.finished_ranks),
            ..self
        }
    }

    /// Every rank has finished.
    pub open spec fn all_finished(self) -> bool {
        self.finished_ranks >= self.world_size
    }

    /// The first writer of the end time wins; later writes leave it.
    pub open spec fn publish_end_time(self, t: u64) -> RegionView {
        if self.global_end_time == 0 {
            RegionView { global_end_time: t, ..self }
        } else {
            self
        }
    }

    /// The start time, overwritten by every call.
    pub open spec fn set_global_start(self, t: u64) -> RegionView {
        RegionView { global_start_time: t, ..self }
    }

    /// `rank` reports a failure.
    pub open spec fn fail(self, rank: int) -> RegionView {
        RegionView { status: self.status.update(rank, STATUS_FAILED), ..self }
    }

    /// The sticky abort flag is raised.
    pub open spec fn raise_abort(self) -> RegionView {
        RegionView { abort: true, ..self }
    }

    /// `rank` refreshes its heartbeat.
    pub open spec fn beat(self, rank: int, now_secs: u64) -> RegionView {
        RegionView { heartbeats: self.heartbeats.update(rank, now_secs), ..self }
    }

    /// `rank` publishes `res`; its slot becomes valid.
    pub open spec fn publish(self, rank: int, res: RankResultsShared) -> RegionView {
        RegionView { results: self.results.update(rank, RankResultsShared { results_valid: true, ..res }), ..self }
    }

    /// The group is marked inactive.
    pub open spec fn deactivate(self) -> RegionView {
        RegionView { active: false, ..self }
    }
}

impl CoordinationState {
    /// A fresh region for `world_size` ranks, as its creator initialises it.
    pub fn new(world_size: u32) -> (r: Self)
        requires
            1 <= world_size <= MAX_RANKS,
        ensures
            r@ == RegionView::fresh(world_size),
            r@.wf(),
    {
        let r = CoordinationState {
            world_size,
            registered_ranks: 0,
            ready_ranks: 0,
            finished_ranks: 0,
            global_start_time: 0,
            global_end_time: 0,
            active: true,
            abort: false,
            rank_heartbeats: [0u64; 64],
            rank_status: [STATUS_NOT_STARTED; 64],
            rank_results: [RankResultsShared::new(); 64],
        };
        assert(r.rank_heartbeats@ =~= RegionView::fresh(world_size).heartbeats);
        assert(r.rank_status@ =~= RegionView::fresh(world_size).status);
        assert(r.rank_results@ =~= RegionView::fresh(world_size).results);
        r
    }

    /// Registers `rank`.
    pub fn register(&mut self, rank: u32)
        requires
            old(self)@.wf(),
            rank < old(self).world_size,
        ensures
            final(self)@ == old(self)@.register(rank as int),
    {
        self.rank_status[rank as usize] = STATUS_REGISTERED;
        self.registered_ranks = if self.registered_ranks == u32::MAX {
            0
        } else {
            self.registered_ranks + 1
        };
        assert(self@.status =~= old(self)@.register(rank as int).status);
    }

    /// Tests whether every rank has registered.
    pub fn registration_complete(&self) -> (r: bool)
        ensures
            r == self@.registration_complete(),
    {
        self.registered_ranks >= self.world_size
    }

    /// Records that `rank` has arrived at a barrier.
    pub fn enter_barrier(&mut self, rank: u32)
        requires
            old(self)@.wf(),
            rank < old(self).world_size,
        ensures
            final(self)@ == old(self)@.enter_barrier(rank as int),
    {
        self.rank_status[rank as usize] = STATUS_BARRIER_READY;
        assert(self@.status =~= old(self)@.enter_barrier(rank as int).status);
    }

    /// Tests whether the current barrier releases.
    pub fn barrier_released(&self) -> (r: bool)
        requires
            self@.wf(),
        ensures
            r == self@.barrier_released(),
    {
        all_at_barrier(self.world_size, &self.rank_status)
    }

    /// Resets the status of `rank` after a barrier released.
    pub fn leave_barrier(&mut self, rank: u32)
        requires
            old(self)@.wf(),
            rank < old(self).world_size,
        ensures
            final(self)@ == old(self)@.leave_barrier(rank as int),
    {
        self.rank_status[rank as usize] = STATUS_REGISTERED;
        assert(self@.status =~= old(self)@.leave_barrier(rank as int).status);
    }

    /// Records that `rank` has finished.
    pub fn mark_finished(&mut self, rank: u32)
        requires
            old(self)@.wf(),
            rank < old(self).world_size,
        ensures
            final(self)@ == old(self)@.finish(rank as int),
    {
        self.rank_status[rank as usize] = STATUS_FINISHED;
        self.finished_ranks = if self.finished_ranks == u32::MAX {
            0
        } else {
            self.finished_ranks + 1
        };
        assert(self@.status =~= old(self)@.finish(rank as int).status);
    }

    /// Tests whether every rank has finished.
    pub fn all_finished(&self) -> (r: bool)
        ensures
            r == self@.all_finished(),
    {
        self.finished_ranks >= self.world_size
    }

    /// Sets the end time unless one is set already, and returns the end
    /// time that stands afterwards.
    pub fn publish_end_time(&mut self, t: u64) -> (r: u64)
        ensures
            final(self)@ == old(self)@.publish_end_time(t),
            r == final(self).global_end_time,
    {
        if self.global_end_time == 0 {
            self.global_end_time = t;
        }
        self.global_end_time
    }

    /// Marks the global start at `now_ns` on behalf of `rank`. Only rank 0
    /// may; each call overwrites the time of the last one.
    pub fn mark_global_start(&mut self, rank: u32, now_ns: u64) -> (r: Result<u64, CoordError>)
        ensures
            rank == 0 ==> r == Ok::<u64, CoordError>(now_ns) && final(self)@ == old(self)@.set_global_start(now_ns),
            rank != 0 ==> r == Err::<u64, CoordError>(CoordError::PermissionDenied) && final(self)@ == old(self)@,
    {
        if rank != 0 {
            return Err(CoordError::PermissionDenied);
        }
        self.global_start_time = now_ns;
        Ok(now_ns)
    }

    /// The global start time, `None` while unset.
    pub fn get_global_start_time(&self) -> (r: Option<u64>)
        ensures
            r == timestamp_of(self.global_start_time),
    {
        stored_timestamp(self.global_start_time)
    }

    /// The global end time, `None` while unset.
    pub fn get_global_end_time(&self) -> (r: Option<u64>)
        ensures
            r == timestamp_of(self.global_end_time),
    {
        stored_timestamp(self.global_end_time)
    }

    /// Records that `rank` failed. Other ranks are not released by this.
    pub fn mark_failed(&mut self, rank: u32)
        requires
            old(self)@.wf(),
            rank < old(self).world_size,
        ensures
            final(self)@ == old(self)@.fail(rank as int),
    {
        self.rank_status[rank as usize] = STATUS_FAILED;
        assert(self@.status =~= old(self)@.fail(rank as int).status);
    }

    /// Raises the sticky abort flag.
    pub fn abort(&mut self)
        ensures
            final(self)@ == old(self)@.raise_abort(),
    {
        self.abort = true;
    }

    /// Tests the abort flag.
    pub fn check_abort(&self) -> (r: bool)
        ensures
            r == self.abort,
    {
        self.abort
    }

    /// Refreshes the heartbeat of `rank` with the current second.
    pub fn update_heartbeat(&mut self, rank: u32, now_secs: u64)
        requires
            old(self)@.wf(),
            rank < old(self).world_size,
        ensures
            final(self)@ == old(self)@.beat(rank as int, now_secs),
    {
        self.rank_heartbeats[rank as usize] = now_secs;
        assert(self@.heartbeats =~= old(self)@.beat(rank as int, now_secs).heartbeats);
    }

    /// Publishes the results of `rank`: the fields first, the valid flag last.
    pub fn store_results(
        &mut self,
        rank: u32,
        files_processed: u64,
        bytes_read: u64,
        throughput_bps: u64,
        wall_clock_time_ns: u64,
        au_fraction_scaled: u64,
        start_time_ns: u64,
        end_time_ns: u64,
    )
        requires
            old(self)@.wf(),
            rank < old(self).world_size,
        ensures
            final(self)@ == old(self)@.publish(
                rank as int,
                RankResultsShared {
                    files_processed,
                    bytes_read,
                    throughput_bps,
                    wall_clock_time_ns,
                    au_fraction_scaled,
                    start_time_ns,
                    end_time_ns,
                    results_valid: true,
                },
            ),
    {
        let mut slot = self.rank_results[rank as usize];
        slot.files_processed = files_processed;
        slot.bytes_read = bytes_read;
        slot.throughput_bps = throughput_bps;
        slot.wall_clock_time_ns = wall_clock_time_ns;
        slot.au_fraction_scaled = au_fraction_scaled;
        slot.start_time_ns = start_time_ns;
        slot.end_time_ns = end_time_ns;
        slot.results_valid = true;
        self.rank_results[rank as usize] = slot;
        assert(self@.results =~= old(self)@.publish(
            rank as int,
            RankResultsShared {
                files_processed,
                bytes_read,
                throughput_bps,
                wall_clock_time_ns,
                au_fraction_scaled,
                start_time_ns,
                end_time_ns,
                results_valid: true,
            },
        ).results);
    }

    /// Combines the published results of the group.
    pub fn get_aggregated_results(&self) -> (r: Result<AggregatedResults, CoordError>)
        requires
            self@.wf(),
        ensures
            r is Err <==> valid_count(self@.results, self.world_size as int) == 0,
            r is Err ==> r->Err_0 == CoordError::NoValidResults,
            r is Ok ==> aggregates(r->Ok_0, self@.results, self.world_size),
    {
        aggregate_results(self.world_size, &self.rank_results)
    }

    /// Marks the group inactive. Only rank 0 does so; for any other rank
    /// this leaves the region as it is.
    pub fn cleanup(&mut self, rank: u32) -> (r: Result<(), CoordError>)
        ensures
            r is Ok,
            rank == 0 ==> final(self)@ == old(self)@.deactivate(),
            rank != 0 ==> final(self)@ == old(self)@,
    {
        if rank == 0 {
            self.active = false;
        }
        Ok(())
    }

    /// Monitoring snapshot of the group under `coordination_id`.
    pub fn get_stats(&self, coordination_id: String) -> (r: CoordinationStats)
        ensures
            r.coordination_id@ == coordination_id@,
            r.world_size == self.world_size,
            r.registered_ranks == self.registered_ranks,
            r.ready_ranks == self.ready_ranks,
            r.finished_ranks == self.finished_ranks,
            r.global_start_time == timestamp_of(self.global_start_time),
            r.global_end_time == timestamp_of(self.global_end_time),
            r.active == self.active,
            r.aborted == self.abort,
    {
        CoordinationStats {
            coordination_id,
            world_size: self.world_size,
            registered_ranks: self.registered_ranks,
            ready_ranks: self.ready_ranks,
            finished_ranks: self.finished_ranks,
            global_start_time: stored_timestamp(self.global_start_time),
            global_end_time: stored_timestamp(self.global_end_time),
            active: self.active,
            aborted: self.abort,
        }
    }
}

} // verus!
