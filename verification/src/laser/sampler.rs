//! Additional utilities for laser samplers: which sampler slots hold cooling light.
use vstd::prelude::*;

use crate::laser::index::{all_initiated, lemma_index_lasers_unique, spec_index_lasers, LaserIndex};
use crate::laser_cooling::sampler_masks::slot_in_use;

verus! {

/// Tracks which slots in the laser sampler arrays are currently used for cooling light.
#[derive(Clone, Copy, Debug, PartialEq, Eq, Structural)]
pub struct LaserSamplerMask {
    /// Marks whether a cooling light exists for this slot in the laser sampler array.
    pub filled: bool,
}

impl Default for LaserSamplerMask {
    fn default() -> (r: Self)
        ensures
            !r.filled,
    {
        LaserSamplerMask { filled: false }
    }
}

/// Component that holds an array of `LaserSamplerMask`, one per laser slot.
#[derive(Clone, Copy)]
pub struct CoolingLaserSamplerMasks<const N: usize> {
    /// List of `LaserSamplerMask`s
    pub contents: [LaserSamplerMask; N],
}

/// True when no slot of any atom's mask array is marked as filled.
pub open spec fn masks_cleared<const N: usize>(m: Seq<CoolingLaserSamplerMasks<N>>) -> bool {
    forall|a: int, i: int| 0 <= a < m.len() && 0 <= i < N ==> !(#[trigger] m[a].contents@[i]).filled
}

/// `after` is `before` with the slots occupied by `lights` marked as filled in every atom,
/// and every other slot left as it was.
pub open spec fn masks_filled_from<const N: usize>(
    before: Seq<CoolingLaserSamplerMasks<N>>,
    after: Seq<CoolingLaserSamplerMasks<N>>,
    lights: Seq<LaserIndex>,
) -> bool {
    &&& after.len() == before.len()
    &&& forall|a: int, i: int|
        0 <= a < after.len() && 0 <= i < N ==> (#[trigger] after[a].contents@[i]).filled == (
        before[a].contents@[i].filled || slot_in_use(lights, i))
}

/// Marks all laser sampler mask slots as empty.
pub struct InitialiseLaserSamplerMasksSystem<const N: usize>;

impl<const N: usize> InitialiseLaserSamplerMasksSystem<N> {
    /// Clears the mask array of every atom.
    pub fn run(&mut self, masks: &mut Vec<CoolingLaserSamplerMasks<N>>)
        ensures
            final(masks).len() == old(masks).len(),
            masks_cleared(final(masks)@),
    {
        let cleared = [LaserSamplerMask { filled: false }; N];
        let mut a: usize = 0;
        while a < masks.len()
            invariant
                a <= masks.len(),
                masks.len() == old(masks).len(),
                forall|i: int| 0 <= i < N ==> !(#[trigger] cleared@[i]).filled,
                forall|b: int| 0 <= b < a ==> (#[trigger] masks@[b]).contents == cleared,
            decreases masks.len() - a,
        {
            masks.set(a, CoolingLaserSamplerMasks { contents: cleared });
            a = a + 1;
        }
    }
}

/// Determines which laser sampler slots are currently being used.
pub struct FillLaserSamplerMasksSystem<const N: usize>;

impl<const N: usize> FillLaserSamplerMasksSystem<N> {
    /// `lights` holds the [LaserIndex] of every cooling light; each one marks its slot as
    /// filled in the mask array of every atom. An index that does not fit in the
    /// array would be out of bounds, so all indices must be below `N`.
    pub fn run(&mut self, lights: &Vec<LaserIndex>, masks: &mut Vec<CoolingLaserSamplerMasks<N>>)
        requires
            forall|j: int| 0 <= j < lights.len() ==> #[trigger] lights@[j].index < N,
        ensures
            masks_filled_from(old(masks)@, final(masks)@, lights@),
    {
        let mut j: usize = 0;
        while j < lights.len()
            invariant
                j <= lights.len(),
                forall|k: int| 0 <= k < lights.len() ==> #[trigger] lights@[k].index < N,
                masks_filled_from(old(masks)@, masks@, lights@.take(j as int)),
            decreases lights.len() - j,
        {
            let slot = lights[j].index;
            let ghost before = masks@;
            let mut a: usize = 0;
            while a < masks.len()
                invariant
                    a <= masks.len(),
                    slot < N,
                    masks.len() == before.len(),
                    forall|b: int, i: int|
                        0 <= b < masks.len() && 0 <= i < N ==> (#[trigger] masks@[b].contents@[i]).filled
                            == if b < a && i == slot {
                            true
                        } else {
                            before[b].contents@[i].filled
                        },
                decreases masks.len() - a,
            {
                let mut m = masks[a];
                m.contents[slot] = LaserSamplerMask { filled: true };
                masks.set(a, m);
                a = a + 1;
            }
            assert forall|b: int, i: int|
                0 <= b < masks.len() && 0 <= i < N implies (#[trigger] masks@[b].contents@[i]).filled
                == (old(masks)@[b].contents@[i].filled || slot_in_use(lights@.take(j + 1), i)) by {
                if slot_in_use(lights@.take(j + 1), i) && i != slot {
                    let k = choose|k: int|
                        0 <= k < j + 1 && #[trigger] lights@.take(j + 1)[k].index == i;
                    assert(lights@.take(j as int)[k].index == i);
                }
                if slot_in_use(lights@.take(j as int), i) {
                    let k = choose|k: int| 0 <= k < j && #[trigger] lights@.take(j as int)[k].index == i;
                    assert(lights@.take(j + 1)[k].index == i);
                }
                if i == slot {
                    assert(lights@.take(j + 1)[j as int].index == slot);
                }
            }
            j = j + 1;
        }
        assert(lights@.take(lights.len() as int) =~= lights@);
    }
}

/// The value held by sampler slot `slot` after each laser, in order, wrote its value into
/// the slot of its index: the value of the last laser with that index, or `before` when no
/// laser has it.
pub open spec fn spec_written_slot<V>(before: V, indices: Seq<LaserIndex>, values: Seq<V>, slot: int) -> V
    decreases indices.len(),
{
    if indices.len() == 0 {
        before
    } else if indices.last().index == slot {
        values[indices.len() - 1]
    } else {
        spec_written_slot(before, indices.drop_last(), values, slot)
    }
}

/// Stores per-laser samples of one atom: the value computed for each laser goes into the
/// sampler slot given by the laser's index, lasers taken in order.
///
/// `indices[j]` and `values[j]` belong to laser `j`. An index that does not fit in the
/// sampler array would be out of bounds, so all indices must be below `N`.
pub fn write_laser_samples<V: Copy, const N: usize>(
    samplers: &mut [V; N],
    indices: &Vec<LaserIndex>,
    values: &Vec<V>,
)
    requires
        indices.len() == values.len(),
        forall|j: int| 0 <= j < indices.len() ==> #[trigger] indices@[j].index < N,
    ensures
        forall|i: int|
            0 <= i < N ==> #[trigger] final(samplers)@[i] == spec_written_slot(
                old(samplers)@[i],
                indices@,
                values@,
                i,
            ),
{
    let mut j: usize = 0;
    while j < indices.len()
        invariant
            j <= indices.len(),
            indices.len() == values.len(),
            forall|k: int| 0 <= k < indices.len() ==> #[trigger] indices@[k].index < N,
            forall|i: int|
                0 <= i < N ==> #[trigger] samplers@[i] == spec_written_slot(
                    old(samplers)@[i],
                    indices@.take(j as int),
                    values@,
                    i,
                ),
        decreases indices.len() - j,
    {
        let slot = indices[j].index;
        samplers[slot] = values[j];
        assert(indices@.take(j + 1).drop_last() =~= indices@.take(j as int));
        assert(indices@.take(j + 1).last() == indices@[j as int]);
        j = j + 1;
    }
    assert(indices@.take(indices.len() as int) =~= indices@);
}

/// A slot that no laser names keeps its earlier value, and the slot of the last laser in
/// the list holds that laser's value: later lasers overwrite earlier ones.
pub proof fn lemma_written_slot_last_wins<V>(before: V, indices: Seq<LaserIndex>, values: Seq<V>, slot: int)
    ensures
        (forall|j: int| 0 <= j < indices.len() ==> (#[trigger] indices[j]).index != slot) ==> spec_written_slot(
            before,
            indices,
            values,
            slot,
        ) == before,
        indices.len() > 0 ==> spec_written_slot(before, indices, values, indices[indices.len() - 1].index as int)
            == values[indices.len() - 1],
    decreases indices.len(),
{
    if indices.len() > 0 {
        let rest = indices.drop_last();
        if forall|j: int| 0 <= j < indices.len() ==> (#[trigger] indices[j]).index != slot {
            assert forall|j: int| 0 <= j < rest.len() implies (#[trigger] rest[j]).index != slot by {
                assert(indices[j].index != slot);
            }
            lemma_written_slot_last_wins(before, rest, values, slot);
        }
    }
}

/// When the lasers carry distinct indices, as indexing makes them, every laser's value
/// ends up in the slot of its own index: no laser overwrites another.
pub proof fn lemma_written_slot_distinct<V>(before: V, indices: Seq<LaserIndex>, values: Seq<V>, j: int)
    requires
        0 <= j < indices.len(),
        forall|a: int, b: int|
            0 <= a < indices.len() && 0 <= b < indices.len() && a != b ==> #[trigger] indices[a].index
                != #[trigger] indices[b].index,
    ensures
        spec_written_slot(before, indices, values, indices[j].index as int) == values[j],
    decreases indices.len(),
{
    if j < indices.len() - 1 {
        let rest = indices.drop_last();
        assert(indices.last().index != indices[j].index);
        assert(rest[j] == indices[j]);
        lemma_written_slot_distinct(before, rest, values, j);
    }
}

/// Indexing and sampling together: once an indexing pass has numbered the lasers, each
/// laser's sample lands in the slot numbered like the laser itself.
pub proof fn lemma_indexed_lasers_fill_own_slots<V>(before: V, lasers: Seq<LaserIndex>, values: Seq<V>, j: int)
    requires
        !all_initiated(lasers),
        lasers.len() <= usize::MAX,
        0 <= j < lasers.len(),
    ensures
        spec_written_slot(before, spec_index_lasers(lasers), values, j) == values[j],
{
    lemma_index_lasers_unique(lasers);
    assert(spec_index_lasers(lasers)[j].index == j);
    lemma_written_slot_distinct(before, spec_index_lasers(lasers), values, j);
}

/// Once an indexing pass has numbered the lasers, exactly the first `lasers.len()`
/// sampler slots are marked as used by cooling light.
pub proof fn lemma_indexed_lasers_use_first_slots(lasers: Seq<LaserIndex>, i: int)
    requires
        !all_initiated(lasers),
        lasers.len() <= usize::MAX,
    ensures
        slot_in_use(spec_index_lasers(lasers), i) <==> 0 <= i < lasers.len(),
{
    let indexed = spec_index_lasers(lasers);
    if 0 <= i < lasers.len() {
        assert(indexed[i].index == i);
    }
}

/// Clearing the masks and then filling them leaves each slot filled exactly when a
/// cooling light occupies it.
pub proof fn lemma_initialise_then_fill<const N: usize>(
    cleared: Seq<CoolingLaserSamplerMasks<N>>,
    filled: Seq<CoolingLaserSamplerMasks<N>>,
    lights: Seq<LaserIndex>,
)
    requires
        masks_cleared(cleared),
        masks_filled_from(cleared, filled, lights),
    ensures
        forall|a: int, i: int|
            0 <= a < filled.len() && 0 <= i < N ==> (#[trigger] filled[a].contents@[i]).filled
                == slot_in_use(lights, i),
{
    assert forall|a: int, i: int| 0 <= a < filled.len() && 0 <= i < N implies (#[trigger] filled[a].contents@[i]).filled
        == slot_in_use(lights, i) by {
        assert(!cleared[a].contents@[i].filled);
    }
}

} // verus!
