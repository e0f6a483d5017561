//! An 'RF knife' removes atoms from the trap by driving transitions between atomic
//! states: an atom is removed when its magnetic splitting exceeds the knife frequency.
//!
//! Removed atoms are either destroyed, or resampled: given the position and velocity of
//! a randomly chosen atom, so that the number of simulated particles stays constant.
use rand::seq::SliceRandom;
use vstd::prelude::*;

use crate::output::detect::count_true;

verus! {

/// How atoms removed by an RF knife leave the simulation.
#[derive(Clone, Copy, Debug, PartialEq, Eq, Structural)]
pub enum AtomRemovalMethod {
    /// Removed atoms are destroyed.
    Destroy,
    /// Removed atoms are given the state of a randomly chosen atom.
    Resample,
}

/// The removal method an RF knife uses: atoms are resampled.
pub fn knife_method() -> (method: AtomRemovalMethod)
    ensures
        method == AtomRemovalMethod::Resample,
{
    AtomRemovalMethod::Resample
}

/// One element of `pool`, chosen at random with `rand::seq::SliceRandom::choose`.
///
/// The crate documents that `choose` returns one element of a non-empty slice and
/// `None` for an empty one; which element comes out is left to chance and is not stated.
#[verifier::external_body]
fn choose_from<T: Copy>(pool: &Vec<T>) -> (chosen: Option<T>)
    ensures
        chosen is None <==> pool.len() == 0,
        chosen matches Some(c) ==> pool@.contains(c),
{
    pool.as_slice().choose(&mut rand::thread_rng()).copied()
}

/// Resamples the atoms an RF knife removes.
///
/// `pool` holds the state (position and velocity) of every atom before resampling,
/// `removed[a]` tells whether atom `a` is removed. Each removed atom takes the state of an
/// atom chosen at random from the pool; the others keep theirs. Returns how many atoms were
/// resampled. The pool is not empty whenever an atom is removed, since it holds every atom.
pub fn resample_removed_atoms<T: Copy>(pool: &Vec<T>, states: &mut Vec<T>, removed: &Vec<bool>) -> (count: usize)
    requires
        removed.len() == old(states).len(),
        pool.len() > 0 || forall|a: int| 0 <= a < removed.len() ==> !#[trigger] removed@[a],
    ensures
        final(states).len() == old(states).len(),
        forall|a: int| 0 <= a < removed.len() && !removed@[a] ==> #[trigger] final(states)@[a] == old(states)@[a],
        forall|a: int| 0 <= a < removed.len() && removed@[a] ==> pool@.contains(#[trigger] final(states)@[a]),
        count == count_true(removed@),
{
    let mut count: usize = 0;
    let mut a: usize = 0;
    while a < states.len()
        invariant
            a <= states.len(),
            states.len() == old(states).len(),
            removed.len() == states.len(),
            pool.len() > 0 || forall|b: int| 0 <= b < removed.len() ==> !#[trigger] removed@[b],
            count == count_true(removed@.take(a as int)),
            count <= a,
            forall|b: int| 0 <= b < a && !removed@[b] ==> #[trigger] states@[b] == old(states)@[b],
            forall|b: int| 0 <= b < a && removed@[b] ==> pool@.contains(#[trigger] states@[b]),
            forall|b: int| a <= b < states.len() ==> #[trigger] states@[b] == old(states)@[b],
        decreases states.len() - a,
    {
        assert(removed@.take(a + 1).drop_last() =~= removed@.take(a as int));
        if removed[a] {
            let chosen = choose_from(pool);
            match chosen {
                Some(c) => {
                    states.set(a, c);
                },
                None => {},
            }
            count = count + 1;
        }
        a = a + 1;
    }
    assert(removed@.take(removed.len() as int) =~= removed@);
    count
}

/// Atoms are split for resampling during evaporative cooling only while there are at most
/// this many.
pub const RESAMPLE_ATOM_LIMIT: usize = 4000;

/// Whether the atomic distribution is resampled this step: every atom is then split in
/// two, each clone reflected through the trap's symmetry axis, and the macroparticle
/// weight halved.
pub fn resample_atoms_due(atom_number: usize) -> (due: bool)
    ensures
        due == (atom_number <= RESAMPLE_ATOM_LIMIT),
{
    atom_number <= RESAMPLE_ATOM_LIMIT
}

} // verus!
