//! Indexing of dipole light beams.
use vstd::prelude::*;

verus! {

/// An index that uniquely identifies this dipole light in the interaction list for each atom.
/// The index value corresponds to the position of each dipole light in the per-atom interaction list array.
///
/// Default `DipoleLightIndex`s are created with `initiated: false`.
/// Once the index is set, initiated is set to true.
#[derive(Clone, Copy, Debug, PartialEq, Eq, Structural)]
pub struct DipoleLightIndex {
    pub index: usize,
    pub initiated: bool,
}

impl Default for DipoleLightIndex {
    fn default() -> (r: Self)
        ensures
            r == (DipoleLightIndex { index: 0, initiated: false }),
    {
        DipoleLightIndex { index: 0, initiated: false }
    }
}

/// True when every dipole light index in `s` has been assigned.
pub open spec fn all_dipole_initiated(s: Seq<DipoleLightIndex>) -> bool {
    forall|i: int| 0 <= i < s.len() ==> #[trigger] s[i].initiated
}

/// The dipole light indices after one indexing pass: untouched when all are assigned,
/// otherwise numbered `0, 1, 2, ...` in iteration order.
pub open spec fn spec_index_dipole_lights(s: Seq<DipoleLightIndex>) -> Seq<DipoleLightIndex> {
    if all_dipole_initiated(s) {
        s
    } else {
        Seq::new(s.len(), |i: int| DipoleLightIndex { index: i as usize, initiated: true })
    }
}

/// Assigns unique indices to dipole light entities.
///
/// The indices are used to uniquely identify each dipole light when populating the interaction list.
pub struct IndexDipoleLightsSystem;

impl IndexDipoleLightsSystem {
    /// Runs one indexing pass over the indices of all entities that carry a dipole light,
    /// in iteration order.
    pub fn run(&mut self, indices: &mut Vec<DipoleLightIndex>)
        ensures
            final(indices)@ == spec_index_dipole_lights(old(indices)@),
            final(indices).len() == old(indices).len(),
            (exists|i: int| 0 <= i < old(indices).len() && !(#[trigger] old(indices)@[i]).initiated) ==> forall|j: int|
                0 <= j < old(indices).len() ==> #[trigger] final(indices)@[j] == (DipoleLightIndex {
                    index: j as usize,
                    initiated: true,
                }),
            (forall|i: int| 0 <= i < old(indices).len() ==> (#[trigger] old(indices)@[i]).initiated) ==> final(indices)@ == old(indices)@,
    {
        let mut need_to_assign_indices = false;
        let mut k: usize = 0;
        while k < indices.len()
            invariant
                k <= indices.len(),
                need_to_assign_indices <==> exists|j: int|
                    0 <= j < k && !(#[trigger] indices@[j]).initiated,
            decreases indices.len() - k,
        {
            if !indices[k].initiated {
                need_to_assign_indices = true;
            }
            k = k + 1;
        }
        if need_to_assign_indices {
            let ghost old_len = indices.len();
            let mut iter: usize = 0;
            while iter < indices.len()
                invariant
                    indices.len() == old_len,
                    iter <= indices.len(),
                    forall|j: int|
                        0 <= j < iter ==> #[trigger] indices@[j] == (DipoleLightIndex {
                            index: j as usize,
                            initiated: true,
                        }),
                decreases indices.len() - iter,
            {
                indices.set(iter, DipoleLightIndex { index: iter, initiated: true });
                iter = iter + 1;
            }
            assert(indices@ =~= spec_index_dipole_lights(old(indices)@));
        }
        proof {
            lemma_index_dipole_lights_renumbers(old(indices)@);
        }
    }
}

/// An indexing pass renumbers the dipole lights exactly when one of them, wherever it
/// stands, is not yet indexed: then light `j` gets index `j`, all marked as assigned;
/// when all are already indexed, nothing changes.
pub proof fn lemma_index_dipole_lights_renumbers(s: Seq<DipoleLightIndex>)
    ensures
        spec_index_dipole_lights(s).len() == s.len(),
        (exists|i: int| 0 <= i < s.len() && !(#[trigger] s[i]).initiated) ==> forall|j: int|
            0 <= j < s.len() ==> #[trigger] spec_index_dipole_lights(s)[j] == (DipoleLightIndex {
                index: j as usize,
                initiated: true,
            }),
        (forall|i: int| 0 <= i < s.len() ==> (#[trigger] s[i]).initiated) ==> spec_index_dipole_lights(s) == s,
{
}

/// After an indexing pass every dipole light carries an assigned index.
pub proof fn lemma_index_dipole_lights_all_initiated(s: Seq<DipoleLightIndex>)
    ensures
        all_dipole_initiated(spec_index_dipole_lights(s)),
        spec_index_dipole_lights(s).len() == s.len(),
{
}

/// When at least one dipole light was still unindexed, the pass gives every light its
/// own index: pairwise distinct, each below the number of lights, so each light owns one
/// slot of the per-atom interaction list. (A vector never holds more than `usize::MAX`
/// entries.)
pub proof fn lemma_index_dipole_lights_unique(s: Seq<DipoleLightIndex>)
    requires
        !all_dipole_initiated(s),
        s.len() <= usize::MAX,
    ensures
        forall|i: int, j: int|
            0 <= i < s.len() && 0 <= j < s.len() && i != j ==> #[trigger] spec_index_dipole_lights(s)[i].index
                != #[trigger] spec_index_dipole_lights(s)[j].index,
        forall|i: int| 0 <= i < s.len() ==> #[trigger] spec_index_dipole_lights(s)[i].index < s.len(),
{
}

/// Indexing is idempotent: a second pass over already indexed dipole lights changes
/// nothing.
pub proof fn lemma_index_dipole_lights_idempotent(s: Seq<DipoleLightIndex>)
    ensures
        spec_index_dipole_lights(spec_index_dipole_lights(s)) == spec_index_dipole_lights(s),
{
    lemma_index_dipole_lights_all_initiated(s);
}

/// A system that attaches `DipoleLightIndex` components to entities which have `DipoleLight` but no index.
pub struct AttachIndexToDipoleLightSystem;

impl AttachIndexToDipoleLightSystem {
    /// `has_light[e]` tells whether entity `e` carries a dipole light, and `indices[e]`
    /// holds its index component, if any. Every light without an index gets a default one.
    pub fn run(&mut self, has_light: &Vec<bool>, indices: &mut Vec<Option<DipoleLightIndex>>)
        requires
            has_light.len() == old(indices).len(),
        ensures
            final(indices).len() == old(indices).len(),
            forall|e: int|
                0 <= e < old(indices).len() ==> #[trigger] final(indices)@[e] == if has_light@[e]
                    && old(indices)@[e] is None {
                    Some(DipoleLightIndex { index: 0, initiated: false })
                } else {
                    old(indices)@[e]
                },
    {
        let mut e: usize = 0;
        while e < indices.len()
            invariant
                e <= indices.len(),
                has_light.len() == indices.len(),
                indices.len() == old(indices).len(),
                forall|j: int|
                    0 <= j < e ==> #[trigger] indices@[j] == if has_light@[j] && old(indices)@[j] is None {
                        Some(DipoleLightIndex { index: 0, initiated: false })
                    } else {
                        old(indices)@[j]
                    },
                forall|j: int| e <= j < indices.len() ==> #[trigger] indices@[j] == old(indices)@[j],
            decreases indices.len() - e,
        {
            if has_light[e] && indices[e].is_none() {
                indices.set(e, Some(DipoleLightIndex::default()));
            }
            e = e + 1;
        }
    }
}

} // verus!
