//! Rules of the multi-rank coordination protocol: membership checks, the
//! region's name, the decisions of the poll loops, and their errors.

use vstd::prelude::*;
use vstd::string::*;

verus! {

/// Largest number of ranks a coordination group can hold.
pub const MAX_RANKS: u32 = 64;

/// Interval between two polls of the shared region, in milliseconds.
pub const POLL_INTERVAL_MS: u64 = 100;

/// Blocking phase of the protocol.
#[derive(Debug, Clone, Copy, PartialEq, Eq, Structural)]
pub enum WaitPhase {
    Registration,
    Barrier,
    Finish,
}

/// Failures of the coordination protocol.
#[derive(Debug, Clone, Copy, PartialEq, Eq, Structural)]
pub enum CoordError {
    /// The rank is not below the world size.
    InvalidRank { rank: u32, world_size: u32 },
    /// The world size is above `MAX_RANKS`.
    CapacityExceeded { world_size: u32 },
    /// The joined region was created for another world size.
    WorldSizeMismatch { expected: u32, found: u32 },
    /// The phase did not complete within its time bound.
    Timeout(WaitPhase),
    /// The sticky abort flag was observed during the phase.
    Aborted(WaitPhase),
    /// A rank other than 0 attempted a rank-0-only operation.
    PermissionDenied,
    /// No rank has published its results.
    NoValidResults,
    /// The shared region could neither be opened nor created.
    RegionUnavailable,
}

/// Time bound of a phase, in milliseconds.
pub open spec fn phase_timeout_ms(phase: WaitPhase) -> u64 {
    match phase {
        WaitPhase::Registration => 20_000,
        WaitPhase::Barrier => 30_000,
        WaitPhase::Finish => 300_000,
    }
}

/// Returns how long a phase may wait before it fails, in milliseconds.
pub fn wait_timeout_ms(phase: WaitPhase) -> (r: u64)
    ensures
        r == phase_timeout_ms(phase),
{
    match phase {
        WaitPhase::Registration => 20_000,
        WaitPhase::Barrier => 30_000,
        WaitPhase::Finish => 300_000,
    }
}

/// The error that joining as `rank` of `world_size` ranks gives, if any.
pub open spec fn join_error(rank: u32, world_size: u32) -> Option<CoordError> {
    if rank >= world_size {
        Some(CoordError::InvalidRank { rank, world_size })
    } else if world_size > MAX_RANKS {
        Some(CoordError::CapacityExceeded { world_size })
    } else {
        None
    }
}

/// Checks that `rank` may join a group of `world_size` ranks.
pub fn validate_join(rank: u32, world_size: u32) -> (r: Result<(), CoordError>)
    ensures
        r is Ok <==> join_error(rank, world_size) is None,
        r is Err ==> Some(r->Err_0) == join_error(rank, world_size),
{
    if rank >= world_size {
        Err(CoordError::InvalidRank { rank, world_size })
    } else if world_size > MAX_RANKS {
        Err(CoordError::CapacityExceeded { world_size })
    } else {
        Ok(())
    }
}

/// Checks that a joined region was created for the requested world size.
pub fn check_world_size(requested: u32, found: u32) -> (r: Result<(), CoordError>)
    ensures
        r is Ok <==> requested == found,
        r is Err ==> r->Err_0 == (CoordError::WorldSizeMismatch { expected: requested, found }),
{
    if requested == found {
        Ok(())
    } else {
        Err(CoordError::WorldSizeMismatch { expected: requested, found })
    }
}

/// Name under which the region of a coordination id is mapped.
pub open spec fn region_name_of(coordination_id: Seq<char>) -> Seq<char> {
    "dl_driver_coord_"@ + coordination_id
}

/// Builds the name of the shared region of a coordination id.
pub fn region_name(coordination_id: &str) -> (r: String)
    ensures
        r@ == region_name_of(coordination_id@),
{
    let mut name = String::from_str("dl_driver_coord_");
    name.append(coordination_id);
    name
}

/// What a poll loop does next.
#[derive(Debug, Clone, Copy, PartialEq, Eq, Structural)]
pub enum PollAction {
    /// The awaited condition holds: leave the loop.
    Proceed,
    /// Refresh the heartbeat, sleep this many milliseconds, then poll again.
    Sleep(u64),
    /// Leave the loop with this error.
    Fail(CoordError),
}

/// The decision of a poll loop of `phase` that has waited `elapsed_ms`, given
/// whether its condition holds and whether the abort flag is set.
pub open spec fn poll_action_of(phase: WaitPhase, ready: bool, aborted: bool, elapsed_ms: u64) -> PollAction {
    if ready {
        PollAction::Proceed
    } else if aborted {
        PollAction::Fail(CoordError::Aborted(phase))
    } else if elapsed_ms > phase_timeout_ms(phase) {
        PollAction::Fail(CoordError::Timeout(phase))
    } else {
        PollAction::Sleep(POLL_INTERVAL_MS)
    }
}

/// Decides one iteration of a poll loop. An abort is reported whatever
/// time budget is left; a wait never sleeps past its time bound by more
/// than one poll interval.
pub fn next_poll_action(phase: WaitPhase, ready: bool, aborted: bool, elapsed_ms: u64) -> (r: PollAction)
    ensures
        r == poll_action_of(phase, ready, aborted, elapsed_ms),
        !ready && aborted ==> r == PollAction::Fail(CoordError::Aborted(phase)),
        r is Sleep ==> r->Sleep_0 == POLL_INTERVAL_MS && elapsed_ms <= phase_timeout_ms(phase),
{
    if ready {
        PollAction::Proceed
    } else if aborted {
        PollAction::Fail(CoordError::Aborted(phase))
    } else if elapsed_ms > wait_timeout_ms(phase) {
        PollAction::Fail(CoordError::Timeout(phase))
    } else {
        PollAction::Sleep(POLL_INTERVAL_MS)
    }
}

/// Checks that `rank` may mark the global start; only rank 0 may.
pub fn authorize_global_start(rank: u32) -> (r: Result<(), CoordError>)
    ensures
        r is Ok <==> rank == 0,
        r is Err ==> r->Err_0 == CoordError::PermissionDenied,
{
    if rank == 0 {
        Ok(())
    } else {
        Err(CoordError::PermissionDenied)
    }
}

/// A stored timestamp: 0 stands for "not set".
pub open spec fn timestamp_of(raw: u64) -> Option<u64> {
    if raw > 0 {
        Some(raw)
    } else {
        None
    }
}

/// Reads a stored timestamp, `None` while it is unset.
pub fn stored_timestamp(raw: u64) -> (r: Option<u64>)
    ensures
        r == timestamp_of(raw),
{
    if raw > 0 {
        Some(raw)
    } else {
        None
    }
}

/// Snapshot of a coordination group for monitoring.
#[derive(Debug, Clone)]
pub struct CoordinationStats {
    pub coordination_id: String,
    pub world_size: u32,
    pub registered_ranks: u32,
    pub ready_ranks: u32,
    pub finished_ranks: u32,
    pub global_start_time: Option<u64>,
    pub global_end_time: Option<u64>,
    pub active: bool,
    pub aborted: bool,
}

/// Releases the group of a coordination id. The region is reclaimed by the
/// operating system once every process has detached, so nothing is left to do.
pub fn cleanup_coordination(_coordination_id: &str) -> (r: Result<(), CoordError>)
    ensures
        r is Ok,
{
    Ok(())
}

/// One rank's identity in its group: its rank, the group's size and the
/// coordination id. A handle exists only for a rank below a supported
/// world size.
#[derive(Debug)]
pub struct RankHandle {
    rank: u32,
    world_size: u32,
    coordination_id: String,
}

impl RankHandle {
    #[verifier::type_invariant]
    spec fn inv(&self) -> bool {
        self.rank < self.world_size <= MAX_RANKS
    }

    pub closed spec fn spec_rank(&self) -> u32 {
        self.rank
    }

    pub closed spec fn spec_world_size(&self) -> u32 {
        self.world_size
    }

    pub closed spec fn spec_coordination_id(&self) -> Seq<char> {
        self.coordination_id@
    }

    /// The handle of `rank` in a group of `world_size` ranks, if it may join.
    pub fn new(rank: u32, world_size: u32, coordination_id: &str) -> (r: Result<Self, CoordError>)
        ensures
            r is Ok <==> join_error(rank, world_size) is None,
            r is Err ==> Some(r->Err_0) == join_error(rank, world_size),
            r is Ok ==> r->Ok_0.spec_rank() == rank && r->Ok_0.spec_world_size() == world_size
                && r->Ok_0.spec_coordination_id() == coordination_id@,
    {
        match validate_join(rank, world_size) {
            Ok(()) => Ok(RankHandle { rank, world_size, coordination_id: String::from_str(coordination_id) }),
            Err(e) => Err(e),
        }
    }

    pub fn rank(&self) -> (r: u32)
        ensures
            r == self.spec_rank(),
            r < self.spec_world_size(),
    {
        proof {
            use_type_invariant(self);
        }
        self.rank
    }

    pub fn world_size(&self) -> (r: u32)
        ensures
            r == self.spec_world_size(),
            1 <= r <= MAX_RANKS,
    {
        proof {
            use_type_invariant(self);
        }
        self.world_size
    }

    pub fn coordination_id(&self) -> (r: &str)
        ensures
            r@ == self.spec_coordination_id(),
    {
        self.coordination_id.as_str()
    }

    /// Name of the group's shared region.
    pub fn region_name(&self) -> (r: String)
        ensures
            r@ == region_name_of(self.spec_coordination_id()),
    {
        region_name(self.coordination_id.as_str())
    }
}

} // verus!
