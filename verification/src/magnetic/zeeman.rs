//! Zeeman shift samplers.
use vstd::prelude::*;

verus! {

/// Attaches the Zeeman shift sampler component to newly created atoms.
pub struct AttachZeemanShiftSamplersToNewlyCreatedAtomsSystem;

impl AttachZeemanShiftSamplersToNewlyCreatedAtomsSystem {
    /// `newly_created[e]` tells whether entity `e` was created this step, and
    /// `has_transition[e]` whether it has an atomic transition. Returns, for each entity,
    /// whether it receives a fresh Zeeman shift sampler: exactly when both hold.
    pub fn run(&mut self, newly_created: &Vec<bool>, has_transition: &Vec<bool>) -> (attach: Vec<bool>)
        requires
            newly_created.len() == has_transition.len(),
        ensures
            attach.len() == newly_created.len(),
            forall|e: int| 0 <= e < newly_created.len() ==> #[trigger] attach@[e] == (newly_created@[e] && has_transition@[e]),
    {
        let mut attach: Vec<bool> = Vec::new();
        let mut e: usize = 0;
        while e < newly_created.len()
            invariant
                e <= newly_created.len(),
                newly_created.len() == has_transition.len(),
                attach.len() == e,
                forall|j: int| 0 <= j < e ==> #[trigger] attach@[j] == (newly_created@[j] && has_transition@[j]),
            decreases newly_created.len() - e,
        {
            attach.push(newly_created[e] && has_transition[e]);
            e = e + 1;
        }
        attach
    }
}

} // verus!
