//! Handling of dark states and repumping.
use vstd::prelude::*;

verus! {

/// Marks an atom as being in a dark state
#[derive(Clone, Copy, Debug, PartialEq, Eq, Structural)]
pub struct Dark;

/// Checks which atoms transition into a dark state during the current simulation step.
pub struct RepumpSystem;

impl RepumpSystem {
    /// `repump_loss` tells whether a repump-loss resource is part of the simulation;
    /// `depumped[a]` is the outcome of the random depumping trial of atom `a` in this step.
    /// Returns, for each atom, whether it is marked [Dark]: only when the resource is present.
    pub fn run(&mut self, repump_loss: bool, depumped: &Vec<bool>) -> (dark: Vec<bool>)
        ensures
            dark.len() == depumped.len(),
            forall|a: int| 0 <= a < depumped.len() ==> #[trigger] dark@[a] == (repump_loss && depumped@[a]),
    {
        let mut dark: Vec<bool> = Vec::new();
        let mut a: usize = 0;
        while a < depumped.len()
            invariant
                a <= depumped.len(),
                dark.len() == a,
                forall|b: int| 0 <= b < a ==> #[trigger] dark@[b] == (repump_loss && depumped@[b]),
            decreases depumped.len() - a,
        {
            dark.push(repump_loss && depumped[a]);
            a = a + 1;
        }
        dark
    }
}

} // verus!
