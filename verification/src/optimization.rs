//! Timestep optimization: a larger timestep during the early part of the simulation.
use vstd::prelude::*;

verus! {

/// The stages of the larger-early-timestep optimization.
#[derive(Clone, Copy, Debug, PartialEq, Eq, Structural)]
pub enum OptimizationState {
    StartOfSimulation,
    EarlySimulation,
    LateSimulation,
}

/// The change the optimization makes to the timestep in one step.
#[derive(Clone, Copy, Debug, PartialEq, Eq, Structural)]
pub enum TimestepChange {
    /// The timestep is left as it is.
    Keep,
    /// The timestep is enlarged: multiplied by the optimization's factor.
    Enlarge,
    /// The timestep is restored to its value before the enlargement: divided by the factor.
    Restore,
}

/// One step of the optimization: the next state and the change to the timestep, given
/// whether the simulated time has passed the end of the early stage.
pub open spec fn spec_optimization_step(state: OptimizationState, past_early_time: bool) -> (
    OptimizationState,
    TimestepChange,
) {
    match state {
        OptimizationState::StartOfSimulation => (OptimizationState::EarlySimulation, TimestepChange::Enlarge),
        OptimizationState::EarlySimulation => if past_early_time {
            (OptimizationState::LateSimulation, TimestepChange::Restore)
        } else {
            (OptimizationState::EarlySimulation, TimestepChange::Keep)
        },
        OptimizationState::LateSimulation => (OptimizationState::LateSimulation, TimestepChange::Keep),
    }
}

/// A system that modifies the timestep duration as the simulation proceeds.
///
/// At the start of the simulation, the timestep is increased by the optimization's factor.
/// The timestep stays at this duration until the early time is reached.
/// At this point, the timestep duration is returned to the original value.
///
/// This optimization allows the simulation to evolve faster during the initial stages, where atoms
/// travel fast along straight paths.
pub struct LargerEarlyTimestepOptimizationSystem;

impl LargerEarlyTimestepOptimizationSystem {
    /// `state` is the state of the optimization resource, if the simulation has one;
    /// `past_early_time` tells whether the simulated time (step number times the current
    /// timestep) exceeds the end of the early stage. Returns the change to make to the timestep.
    pub fn run(&mut self, state: &mut Option<OptimizationState>, past_early_time: bool) -> (change: TimestepChange)
        ensures
            match *old(state) {
                None => *final(state) is None && change == TimestepChange::Keep,
                Some(s) => *final(state) == Some(spec_optimization_step(s, past_early_time).0) && change
                    == spec_optimization_step(s, past_early_time).1,
            },
    {
        match *state {
            None => TimestepChange::Keep,
            Some(s) => {
                let (next, change) = optimization_step(s, past_early_time);
                *state = Some(next);
                change
            },
        }
    }
}

/// One step of the optimization.
pub fn optimization_step(state: OptimizationState, past_early_time: bool) -> (r: (OptimizationState, TimestepChange))
    ensures
        r == spec_optimization_step(state, past_early_time),
{
    match state {
        OptimizationState::StartOfSimulation => (OptimizationState::EarlySimulation, TimestepChange::Enlarge),
        OptimizationState::EarlySimulation => {
            if past_early_time {
                (OptimizationState::LateSimulation, TimestepChange::Restore)
            } else {
                (OptimizationState::EarlySimulation, TimestepChange::Keep)
            }
        },
        OptimizationState::LateSimulation => (OptimizationState::LateSimulation, TimestepChange::Keep),
    }
}

/// How many times a timestep change multiplies the timestep by the factor (a restoring
/// division counts as -1).
pub open spec fn spec_enlargements(change: TimestepChange) -> int {
    match change {
        TimestepChange::Keep => 0,
        TimestepChange::Enlarge => 1,
        TimestepChange::Restore => -1,
    }
}

/// Runs the optimization over a sequence of steps, `past_early_time[k]` telling whether
/// step `k` is past the end of the early stage. Returns the final state and the net
/// number of enlargements of the timestep.
pub open spec fn spec_run_optimization(state: OptimizationState, past_early_time: Seq<bool>) -> (
    OptimizationState,
    int,
)
    decreases past_early_time.len(),
{
    if past_early_time.len() == 0 {
        (state, 0)
    } else {
        let (next, change) = spec_optimization_step(state, past_early_time[0]);
        let (last, n) = spec_run_optimization(next, past_early_time.drop_first());
        (last, n + spec_enlargements(change))
    }
}

/// The net enlargements of the timestep that a state stands for, counted from the start.
pub open spec fn spec_stage_enlargements(state: OptimizationState) -> int {
    match state {
        OptimizationState::EarlySimulation => 1,
        _ => 0,
    }
}

proof fn lemma_run_optimization_from(state: OptimizationState, past_early_time: Seq<bool>)
    ensures
        spec_stage_enlargements(state) + spec_run_optimization(state, past_early_time).1
            == spec_stage_enlargements(spec_run_optimization(state, past_early_time).0),
    decreases past_early_time.len(),
{
    if past_early_time.len() > 0 {
        let (next, change) = spec_optimization_step(state, past_early_time[0]);
        lemma_run_optimization_from(next, past_early_time.drop_first());
    }
}

/// Over any run of the simulation, the timestep is enlarged once while in the early stage
/// and is back at its original value before the first step and after the early stage.
pub proof fn lemma_timestep_restored(past_early_time: Seq<bool>)
    ensures
        spec_run_optimization(OptimizationState::StartOfSimulation, past_early_time).1 == if spec_run_optimization(
            OptimizationState::StartOfSimulation,
            past_early_time,
        ).0 == OptimizationState::EarlySimulation {
            1int
        } else {
            0int
        },
{
    lemma_run_optimization_from(OptimizationState::StartOfSimulation, past_early_time);
}

/// A timestep after one change, for an optimization with the given factor.
pub open spec fn spec_apply_change(timestep: int, factor: int, change: TimestepChange) -> int {
    match change {
        TimestepChange::Keep => timestep,
        TimestepChange::Enlarge => timestep * factor,
        TimestepChange::Restore => timestep / factor,
    }
}

/// The timestep after the optimization ran over a sequence of steps from `state`.
pub open spec fn spec_run_timestep(
    state: OptimizationState,
    timestep: int,
    factor: int,
    past_early_time: Seq<bool>,
) -> int
    decreases past_early_time.len(),
{
    if past_early_time.len() == 0 {
        timestep
    } else {
        let (next, change) = spec_optimization_step(state, past_early_time[0]);
        spec_run_timestep(next, spec_apply_change(timestep, factor, change), factor, past_early_time.drop_first())
    }
}

/// The factor a state's timestep carries relative to the original timestep.
pub open spec fn spec_stage_factor(state: OptimizationState, factor: int) -> int {
    match state {
        OptimizationState::EarlySimulation => factor,
        _ => 1,
    }
}

proof fn lemma_run_timestep_from(state: OptimizationState, base: nat, factor: int, past_early_time: Seq<bool>)
    requires
        factor > 0,
    ensures
        spec_run_timestep(state, base * spec_stage_factor(state, factor), factor, past_early_time) == base
            * spec_stage_factor(spec_run_optimization(state, past_early_time).0, factor),
    decreases past_early_time.len(),
{
    if past_early_time.len() > 0 {
        let (next, change) = spec_optimization_step(state, past_early_time[0]);
        assert(spec_apply_change(base * spec_stage_factor(state, factor), factor, change) == base
            * spec_stage_factor(next, factor)) by {
            match state {
                OptimizationState::StartOfSimulation => {
                    assert(base * 1 == base);
                },
                OptimizationState::EarlySimulation => {
                    if past_early_time[0] {
                        vstd::arithmetic::div_mod::lemma_div_by_multiple(base as int, factor);
                        assert(base * 1 == base);
                    }
                },
                OptimizationState::LateSimulation => {},
            }
        }
        lemma_run_timestep_from(next, base, factor, past_early_time.drop_first());
    }
}

/// Whatever the factor, over any run of the simulation the timestep is the original
/// timestep multiplied by the factor while in the early stage, and exactly the original
/// timestep before the first step and after the early stage. (Timesteps are counted here
/// in whole units of some small time.)
pub proof fn lemma_timestep_restored_by_factor(timestep: nat, factor: int, past_early_time: Seq<bool>)
    requires
        factor > 0,
    ensures
        spec_run_timestep(OptimizationState::StartOfSimulation, timestep as int, factor, past_early_time) == if spec_run_optimization(
            OptimizationState::StartOfSimulation,
            past_early_time,
        ).0 == OptimizationState::EarlySimulation {
            timestep * factor
        } else {
            timestep as int
        },
{
    lemma_run_timestep_from(OptimizationState::StartOfSimulation, timestep, factor, past_early_time);
}

proof fn lemma_early_until_early_time(past_early_time: Seq<bool>)
    ensures
        spec_run_optimization(OptimizationState::EarlySimulation, past_early_time).0 == if exists|i: int|
            0 <= i < past_early_time.len() && #[trigger] past_early_time[i] {
            OptimizationState::LateSimulation
        } else {
            OptimizationState::EarlySimulation
        },
        spec_run_optimization(OptimizationState::LateSimulation, past_early_time).0
            == OptimizationState::LateSimulation,
    decreases past_early_time.len(),
{
    if past_early_time.len() > 0 {
        let rest = past_early_time.drop_first();
        lemma_early_until_early_time(rest);
        if exists|i: int| 0 <= i < rest.len() && #[trigger] rest[i] {
            let i = choose|i: int| 0 <= i < rest.len() && #[trigger] rest[i];
            assert(past_early_time[i + 1]);
        }
        if exists|i: int| 0 <= i < past_early_time.len() && #[trigger] past_early_time[i] {
            let i = choose|i: int| 0 <= i < past_early_time.len() && #[trigger] past_early_time[i];
            if i > 0 {
                assert(rest[i - 1]);
            }
        }
    }
}

/// The stages follow the simulated time: before the first step the simulation is at its
/// start; the first step enters the early stage, which lasts exactly until a step finds
/// the early time passed (that step's own flag is read only from the second step on), and
/// from then on the simulation stays in the late stage.
pub proof fn lemma_stages_follow_time(past_early_time: Seq<bool>)
    ensures
        past_early_time.len() == 0 ==> spec_run_optimization(OptimizationState::StartOfSimulation, past_early_time).0
            == OptimizationState::StartOfSimulation,
        past_early_time.len() > 0 ==> spec_run_optimization(OptimizationState::StartOfSimulation, past_early_time).0
            == if exists|i: int| 1 <= i < past_early_time.len() && #[trigger] past_early_time[i] {
            OptimizationState::LateSimulation
        } else {
            OptimizationState::EarlySimulation
        },
        past_early_time.len() > 0 ==> spec_optimization_step(
            OptimizationState::StartOfSimulation,
            past_early_time[0],
        ).1 == TimestepChange::Enlarge,
{
    if past_early_time.len() > 0 {
        let rest = past_early_time.drop_first();
        lemma_early_until_early_time(rest);
        if exists|i: int| 0 <= i < rest.len() && #[trigger] rest[i] {
            let i = choose|i: int| 0 <= i < rest.len() && #[trigger] rest[i];
            assert(past_early_time[i + 1]);
        }
        if exists|i: int| 1 <= i < past_early_time.len() && #[trigger] past_early_time[i] {
            let i = choose|i: int| 1 <= i < past_early_time.len() && #[trigger] past_early_time[i];
            assert(rest[i - 1]);
        }
    }
}

} // verus!
