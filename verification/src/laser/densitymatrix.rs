//! Density matrix treatment of atoms: which atoms receive a density matrix.
use vstd::prelude::*;

verus! {

/// A resource that switches on the density matrix treatment.
#[derive(Clone, Copy, Debug, PartialEq, Eq, Structural)]
pub struct DensityMatrixOption;

/// Initialises the density matrix of newly created atoms, in their ground state.
pub struct DensityMatrixInitSystem;

impl DensityMatrixInitSystem {
    /// `candidates[a]` tells whether entity `a` is a newly created atom with atom
    /// information and a density matrix component. Returns, for each entity, whether its
    /// density matrix is reset: only when the density matrix option is present.
    pub fn run(&mut self, option: Option<DensityMatrixOption>, candidates: &Vec<bool>) -> (reset: Vec<bool>)
        ensures
            reset.len() == candidates.len(),
            forall|a: int| 0 <= a < candidates.len() ==> #[trigger] reset@[a] == (option is Some && candidates@[a]),
    {
        let enabled = match option {
            None => false,
            Some(_) => true,
        };
        let mut reset: Vec<bool> = Vec::new();
        let mut a: usize = 0;
        while a < candidates.len()
            invariant
                a <= candidates.len(),
                reset.len() == a,
                enabled == option is Some,
                forall|b: int| 0 <= b < a ==> #[trigger] reset@[b] == (option is Some && candidates@[b]),
            decreases candidates.len() - a,
        {
            reset.push(enabled && candidates[a]);
            a = a + 1;
        }
        reset
    }
}

} // verus!
