//! Masks to describe which lasers are used for cooling light calculations.
use vstd::prelude::*;

use crate::laser::index::LaserIndex;

verus! {

/// Tracks which slots in the laser sampler arrays are currently used for cooling light.
#[derive(Clone, Copy, Debug, PartialEq, Eq, Structural)]
pub struct CoolingLaserSamplerMask {
    /// Marks whether a cooling light exists for this slot in the laser sampler array.
    pub filled: bool,
}

impl Default for CoolingLaserSamplerMask {
    fn default() -> (r: Self)
        ensures
            !r.filled,
    {
        CoolingLaserSamplerMask { filled: false }
    }
}

/// Component that holds an array of [CoolingLaserSamplerMask], one per laser slot.
#[derive(Clone, Copy)]
pub struct CoolingLaserSamplerMasks<const N: usize> {
    /// List of `CoolingLaserSamplerMask`s
    pub contents: [CoolingLaserSamplerMask; N],
}

/// True when some laser in `lights` occupies sampler slot `slot`.
pub open spec fn slot_in_use(lights: Seq<LaserIndex>, slot: int) -> bool {
    exists|j: int| 0 <= j < lights.len() && #[trigger] lights[j].index == slot
}

/// Builds the mask array in which exactly the slots occupied by `lights` are filled.
fn cooling_light_masks<const N: usize>(lights: &Vec<LaserIndex>) -> (masks: [CoolingLaserSamplerMask; N])
    requires
        forall|j: int| 0 <= j < lights.len() ==> #[trigger] lights@[j].index < N,
    ensures
        forall|i: int| 0 <= i < N ==> #[trigger] masks@[i].filled == slot_in_use(lights@, i),
{
    let mut masks = [CoolingLaserSamplerMask { filled: false }; N];
    let mut j: usize = 0;
    while j < lights.len()
        invariant
            j <= lights.len(),
            forall|k: int| 0 <= k < lights.len() ==> #[trigger] lights@[k].index < N,
            forall|i: int| 0 <= i < N ==> #[trigger] masks@[i].filled == slot_in_use(lights@.take(j as int), i),
        decreases lights.len() - j,
    {
        let slot = lights[j].index;
        masks[slot] = CoolingLaserSamplerMask { filled: true };
        assert forall|i: int| 0 <= i < N implies #[trigger] masks@[i].filled == slot_in_use(
            lights@.take(j + 1),
            i,
        ) by {
            if i == slot {
                assert(lights@.take(j + 1)[j as int].index == slot);
            } else if slot_in_use(lights@.take(j + 1), i) {
                let k = choose|k: int| 0 <= k < j + 1 && #[trigger] lights@.take(j + 1)[k].index == i;
                assert(lights@.take(j as int)[k].index == i);
            }
        }
        j = j + 1;
    }
    assert(lights@.take(lights.len() as int) =~= lights@);
    masks
}

/// Populates the cooling light masks of every atom as empty or filled.
///
/// `lights` holds the [LaserIndex] of every cooling light. A light whose index
/// does not fit in the mask array would be out of bounds, so all indices must be below `N`.
pub fn populate_cooling_light_masks<const N: usize>(
    atom_masks: &mut Vec<CoolingLaserSamplerMasks<N>>,
    lights: &Vec<LaserIndex>,
)
    requires
        forall|j: int| 0 <= j < lights.len() ==> #[trigger] lights@[j].index < N,
    ensures
        final(atom_masks).len() == old(atom_masks).len(),
        forall|a: int, i: int|
            0 <= a < final(atom_masks).len() && 0 <= i < N ==> #[trigger] final(atom_masks)@[a].contents@[i].filled
                == slot_in_use(lights@, i),
{
    let masks: [CoolingLaserSamplerMask; N] = cooling_light_masks(lights);
    let mut a: usize = 0;
    while a < atom_masks.len()
        invariant
            a <= atom_masks.len(),
            atom_masks.len() == old(atom_masks).len(),
            forall|i: int| 0 <= i < N ==> #[trigger] masks@[i].filled == slot_in_use(lights@, i),
            forall|b: int| 0 <= b < a ==> (#[trigger] atom_masks@[b]).contents == masks,
        decreases atom_masks.len() - a,
    {
        atom_masks.set(a, CoolingLaserSamplerMasks { contents: masks });
        a = a + 1;
    }
}

} // verus!
