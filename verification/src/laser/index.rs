//! Handles indexes for laser beams.
use vstd::prelude::*;

verus! {

/// An index that uniquely identifies a laser entity.
/// The index value corresponds to the position of each laser in per-atom sampler arrays.
///
/// Default [LaserIndex]s are created with `initiated: false`.
/// Once the index is set, initiated is set to true.
#[derive(Clone, Copy, Debug, PartialEq, Eq, Structural)]
pub struct LaserIndex {
    pub index: usize,
    pub initiated: bool,
}

impl Default for LaserIndex {
    fn default() -> (r: Self)
        ensures
            r.index == 0,
            !r.initiated,
    {
        LaserIndex { index: 0, initiated: false }
    }
}

/// True when every index in `s` has been assigned.
pub open spec fn all_initiated(s: Seq<LaserIndex>) -> bool {
    forall|i: int| 0 <= i < s.len() ==> #[trigger] s[i].initiated
}

/// The indices after one indexing pass: untouched when all are already assigned,
/// otherwise the lasers are numbered `0, 1, 2, ...` in iteration order.
pub open spec fn spec_index_lasers(s: Seq<LaserIndex>) -> Seq<LaserIndex> {
    if all_initiated(s) {
        s
    } else {
        Seq::new(s.len(), |i: int| LaserIndex { index: i as usize, initiated: true })
    }
}

/// Assigns a unique [LaserIndex] to each laser.
///
/// `indices` holds the index component of every laser, in iteration order.
pub fn index_lasers(indices: &mut Vec<LaserIndex>)
    ensures
        final(indices)@ == spec_index_lasers(old(indices)@),
        final(indices).len() == old(indices).len(),
        (exists|i: int| 0 <= i < old(indices).len() && !(#[trigger] old(indices)@[i]).initiated) ==> forall|j: int|
            0 <= j < old(indices).len() ==> #[trigger] final(indices)@[j] == (LaserIndex {
                index: j as usize,
                initiated: true,
            }),
        (forall|i: int| 0 <= i < old(indices).len() ==> (#[trigger] old(indices)@[i]).initiated) ==> final(indices)@ == old(indices)@,
{
    let mut need_to_assign_indices = false;
    let mut k: usize = 0;
    while k < indices.len()
        invariant
            k <= indices.len(),
            need_to_assign_indices <==> exists|j: int| 0 <= j < k && !(#[trigger] indices@[j]).initiated,
        decreases indices.len() - k,
    {
        if !indices[k].initiated {
            need_to_assign_indices = true;
        }
        k = k + 1;
    }
    if need_to_assign_indices {
        let ghost old_len = indices.len();
        let mut iter: usize = 0;
        while iter < indices.len()
            invariant
                indices.len() == old_len,
                iter <= indices.len(),
                forall|j: int| 0 <= j < iter ==> #[trigger] indices@[j] == (LaserIndex { index: j as usize, initiated: true }),
            decreases indices.len() - iter,
        {
            indices.set(iter, LaserIndex { index: iter, initiated: true });
            iter = iter + 1;
        }
        assert(indices@ =~= spec_index_lasers(old(indices)@));
    }
    proof {
        lemma_index_lasers_renumbers(old(indices)@);
    }
}

/// An indexing pass renumbers the lasers exactly when one of them, wherever it stands,
/// is not yet indexed: then laser `j` gets index `j`, all marked as assigned; when all
/// lasers are already indexed, nothing changes.
pub proof fn lemma_index_lasers_renumbers(s: Seq<LaserIndex>)
    ensures
        spec_index_lasers(s).len() == s.len(),
        (exists|i: int| 0 <= i < s.len() && !(#[trigger] s[i]).initiated) ==> forall|j: int|
            0 <= j < s.len() ==> #[trigger] spec_index_lasers(s)[j] == (LaserIndex {
                index: j as usize,
                initiated: true,
            }),
        (forall|i: int| 0 <= i < s.len() ==> (#[trigger] s[i]).initiated) ==> spec_index_lasers(s) == s,
{
}

/// After an indexing pass every laser carries an assigned index.
pub proof fn lemma_index_lasers_all_initiated(s: Seq<LaserIndex>)
    ensures
        all_initiated(spec_index_lasers(s)),
        spec_index_lasers(s).len() == s.len(),
{
}

/// When at least one laser was still unindexed, the pass gives every laser its own
/// index: the indices are pairwise distinct and each is below the number of lasers,
/// so each laser owns one slot of a sampler array with room for all lasers.
/// (A vector of lasers never holds more than `usize::MAX` entries.)
pub proof fn lemma_index_lasers_unique(s: Seq<LaserIndex>)
    requires
        !all_initiated(s),
        s.len() <= usize::MAX,
    ensures
        forall|i: int, j: int|
            0 <= i < s.len() && 0 <= j < s.len() && i != j ==> #[trigger] spec_index_lasers(s)[i].index
                != #[trigger] spec_index_lasers(s)[j].index,
        forall|i: int| 0 <= i < s.len() ==> #[trigger] spec_index_lasers(s)[i].index < s.len(),
{
}

/// Indexing is idempotent: a second pass over already indexed lasers changes nothing.
pub proof fn lemma_index_lasers_idempotent(s: Seq<LaserIndex>)
    ensures
        spec_index_lasers(spec_index_lasers(s)) == spec_index_lasers(s),
{
    lemma_index_lasers_all_initiated(s);
}

} // verus!
