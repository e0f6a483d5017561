//! Stores atomic trajectories in memory.
use vstd::prelude::*;

use crate::output::file::is_output_step;

verus! {

/// Stores per-atom data `T` at defined intervals.
///
/// This is only intended as a lightweight form of output for simple examples:
/// large numbers of atoms become unfeasible to store in memory, and the stored
/// frames offer no way to sort or identify atoms.
pub struct MemoryOutputResource<T> {
    /// Data is stored every time this number of steps are completed.
    pub interval: u64,
    /// The stored frames, oldest first: one vector of per-atom data per frame.
    pub payload: Vec<Vec<T>>,
}

impl<T> MemoryOutputResource<T> {
    /// Creates an empty store that records a frame every `interval` steps.
    pub fn new(interval: u64) -> (r: Self)
        ensures
            r.interval == interval,
            r.payload@ == Seq::<Vec<T>>::empty(),
    {
        MemoryOutputResource { interval, payload: Vec::new() }
    }
}

/// Stores the data of all atoms, `data`, as a new frame when `step` is an output step.
/// The interval must be positive, as the step count is divided by it.
pub fn save_to_memory<T>(step: u64, memory_resource: &mut MemoryOutputResource<T>, data: Vec<T>)
    requires
        old(memory_resource).interval > 0,
    ensures
        final(memory_resource).interval == old(memory_resource).interval,
        final(memory_resource).payload@ == if step % old(memory_resource).interval == 0 {
            old(memory_resource).payload@.push(data)
        } else {
            old(memory_resource).payload@
        },
{
    if is_output_step(step, memory_resource.interval) {
        memory_resource.payload.push(data);
    }
}

} // verus!
