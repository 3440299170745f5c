//! Placement of ranks on (simulated) accelerators.

use vstd::prelude::*;

verus! {

/// The accelerator that a rank is bound to, among how many.
#[derive(Debug, Clone, Copy, PartialEq, Eq, Structural)]
pub struct GpuAssignment {
    pub gpu_id: u32,
    pub gpu_count: u32,
}

/// Binds `rank` to an accelerator: ranks go round-robin over
/// `simulated_gpus` devices, one device per rank unless that is given.
pub fn assign_gpu(rank: u32, world_size: u32, simulated_gpus: Option<u32>) -> (r: GpuAssignment)
    requires
        match simulated_gpus {
            Some(n) => n > 0,
            None => world_size > 0,
        },
    ensures
        r.gpu_count == match simulated_gpus {
            Some(n) => n,
            None => world_size,
        },
        r.gpu_id == rank % r.gpu_count,
        r.gpu_id < r.gpu_count,
{
    let gpu_count = match simulated_gpus {
        Some(n) => n,
        None => world_size,
    };
    GpuAssignment { gpu_id: rank % gpu_count, gpu_count }
}

/// The NUMA node of a rank among `numa_nodes` nodes.
pub fn numa_node(rank: u32, numa_nodes: u32) -> (r: u32)
    requires
        numa_nodes > 0,
    ensures
        r == rank % numa_nodes,
{
    rank % numa_nodes
}

} // verus!
