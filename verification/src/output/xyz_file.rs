//! Scheduling of xyz trajectory files.
use vstd::prelude::*;

verus! {

/// What the xyz writer does in one step.
#[derive(Clone, Copy, Debug, PartialEq, Eq, Structural)]
pub struct XyzWritePlan {
    /// A frame of atom positions is appended to the file.
    pub write: bool,
    /// An old file of the same name is deleted before anything is written.
    pub remove_old_file: bool,
    /// A first frame is written, with every atom at the discard place, before the positions.
    pub placeholder_frame: bool,
}

/// True when the xyz writer appends a frame at step `step`.
pub open spec fn spec_xyz_write_step(step: u64, write_every: u64) -> bool {
    (step % write_every == 0 && step != 0) || step == 2
}

/// Frames are written every `write_every` steps, whatever the interval: at every positive
/// multiple of it, and at no other step but step 2.
pub proof fn lemma_xyz_writes_every_interval(write_every: u64, k: nat, step: u64)
    requires
        write_every > 0,
    ensures
        k >= 1 && k * write_every <= u64::MAX ==> spec_xyz_write_step((k * write_every) as u64, write_every),
        spec_xyz_write_step(step, write_every) && step != 2 ==> step / write_every >= 1 && step == (step
            / write_every) * write_every,
{
    if k >= 1 && k * write_every <= u64::MAX {
        vstd::arithmetic::div_mod::lemma_mod_multiples_basic(k as int, write_every as int);
        assert(k * write_every >= write_every) by (nonlinear_arith)
            requires
                k >= 1,
                write_every > 0,
        ;
    }
    if spec_xyz_write_step(step, write_every) && step != 2 {
        vstd::arithmetic::div_mod::lemma_fundamental_div_mod(step as int, write_every as int);
        assert(step / write_every >= 1) by {
            if step / write_every == 0 {
                assert(step == write_every * 0 + step % write_every);
            }
        }
    }
}

/// Writes atom positions to an xyz file every `write_every` steps (and at step 2).
pub struct WriteToXYZFileSystem;

impl WriteToXYZFileSystem {
    /// Decides what one writer does at step `step`. `overwrite` and `initialized` are the
    /// writer's settings; `initialized` is set once the placeholder frame has been written.
    /// The writer's interval must be positive, as the step count is divided by it.
    pub fn run(&mut self, step: u64, write_every: u64, overwrite: bool, initialized: &mut bool) -> (plan: XyzWritePlan)
        requires
            write_every > 0,
        ensures
            plan.write == spec_xyz_write_step(step, write_every),
            step % write_every == 0 && step != 0 ==> plan.write,
            plan.write ==> step % write_every == 0 || step == 2,
            plan.placeholder_frame == (plan.write && !*old(initialized)),
            plan.remove_old_file == (plan.placeholder_frame && overwrite),
            *final(initialized) == (*old(initialized) || plan.write),
    {
        let write = (step % write_every == 0 && step != 0) || step == 2;
        let mut placeholder_frame = false;
        let mut remove_old_file = false;
        if write {
            if !*initialized {
                if overwrite {
                    remove_old_file = true;
                }
                placeholder_frame = true;
                *initialized = true;
            }
        }
        XyzWritePlan { write, remove_old_file, placeholder_frame }
    }
}

/// The number of placeholder frames a writer emits over a run of steps, starting from
/// the given `initialized` flag.
pub open spec fn spec_placeholder_frames(steps: Seq<u64>, write_every: u64, initialized: bool) -> nat
    decreases steps.len(),
{
    if steps.len() == 0 {
        0
    } else {
        let write = spec_xyz_write_step(steps[0], write_every);
        (if write && !initialized {
            1nat
        } else {
            0nat
        }) + spec_placeholder_frames(steps.drop_first(), write_every, initialized || write)
    }
}

/// Over any run of steps, a writer emits the placeholder frame at most once, and
/// never once it is initialized.
pub proof fn lemma_placeholder_at_most_once(steps: Seq<u64>, write_every: u64, initialized: bool)
    ensures
        spec_placeholder_frames(steps, write_every, initialized) <= if initialized {
            0nat
        } else {
            1nat
        },
    decreases steps.len(),
{
    if steps.len() > 0 {
        let write = spec_xyz_write_step(steps[0], write_every);
        lemma_placeholder_at_most_once(steps.drop_first(), write_every, initialized || write);
    }
}

} // verus!
