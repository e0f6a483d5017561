//! Losses of atoms: which atoms of a partition cell are lost in a step.
//!
//! How many atoms a cell loses follows from its density and the loss coefficients;
//! which of its atoms they are is drawn at random, each atom at most once.
use vstd::prelude::*;

verus! {

/// Draws `amount` distinct indices below `length`, in random order, with
/// `rand::seq::index::sample`.
///
/// The crate documents that exactly `amount` distinct indices from `0..length` are
/// returned, and that it panics when `amount > length`; which indices come out is left
/// to chance and is not stated.
#[verifier::external_body]
fn sample_indices(length: usize, amount: usize) -> (indices: Vec<usize>)
    requires
        amount <= length,
    ensures
        indices.len() == amount,
        forall|i: int| 0 <= i < indices.len() ==> #[trigger] indices@[i] < length,
        forall|i: int, j: int|
            0 <= i < indices.len() && 0 <= j < indices.len() && i != j ==> #[trigger] indices@[i]
                != #[trigger] indices@[j],
{
    let mut rng = rand::thread_rng();
    rand::seq::index::sample(&mut rng, length, amount).into_vec()
}

/// `lost` is made of `amount` entries of `entities` taken at distinct positions.
pub open spec fn drawn_without_repetition<E>(entities: Seq<E>, lost: Seq<E>, amount: nat) -> bool {
    exists|idx: Seq<usize>|
        {
            &&& idx.len() == amount
            &&& lost.len() == amount
            &&& forall|i: int| 0 <= i < amount ==> #[trigger] idx[i] < entities.len()
            &&& forall|i: int| 0 <= i < amount ==> #[trigger] lost[i] == entities[idx[i] as int]
            &&& forall|i: int, j: int|
                0 <= i < amount && 0 <= j < amount && i != j ==> #[trigger] idx[i] != #[trigger] idx[j]
        }
}

/// The entities of a partition cell that are lost in this step, `amount` of them drawn at
/// random without repetition. A cell cannot lose more atoms than it holds.
pub fn select_lost_entities<E: Copy>(entities: &Vec<E>, amount: usize) -> (lost: Vec<E>)
    requires
        amount <= entities.len(),
    ensures
        lost.len() == amount,
        drawn_without_repetition(entities@, lost@, amount as nat),
{
    let indices = sample_indices(entities.len(), amount);
    let mut lost: Vec<E> = Vec::new();
    let mut i: usize = 0;
    while i < indices.len()
        invariant
            i <= indices.len(),
            indices.len() == amount,
            lost.len() == i,
            forall|k: int| 0 <= k < indices.len() ==> #[trigger] indices@[k] < entities.len(),
            forall|k: int| 0 <= k < i ==> #[trigger] lost@[k] == entities@[indices@[k] as int],
        decreases indices.len() - i,
    {
        lost.push(entities[indices[i]]);
        i = i + 1;
    }
    assert(drawn_without_repetition(entities@, lost@, amount as nat)) by {
        let idx = indices@;
        assert(forall|k: int| 0 <= k < amount ==> #[trigger] lost@[k] == entities@[idx[k] as int]);
    }
    lost
}

} // verus!
