//! Laser cooling: bookkeeping of which laser slots hold cooling light, and of the
//! components attached to cooling lasers.

pub mod sampler_masks;

use vstd::prelude::*;

use crate::laser::index::LaserIndex;
use crate::laser::RequiresIntensityCalculation;

verus! {

/// Attaches components required for laser calculations to laser beams with a cooling light.
///
/// `is_cooling[e]` tells whether entity `e` carries a cooling light. Each cooling light
/// that lacks the intensity-calculation marker gets it, and each one that lacks a
/// [LaserIndex] gets a default (unassigned) one.
pub fn attach_components_to_cooling_lasers(
    is_cooling: &Vec<bool>,
    markers: &mut Vec<Option<RequiresIntensityCalculation>>,
    indices: &mut Vec<Option<LaserIndex>>,
)
    requires
        is_cooling.len() == old(markers).len(),
        is_cooling.len() == old(indices).len(),
    ensures
        final(markers).len() == old(markers).len(),
        final(indices).len() == old(indices).len(),
        forall|e: int|
            0 <= e < is_cooling.len() ==> #[trigger] final(markers)@[e] == if is_cooling@[e] {
                Some(RequiresIntensityCalculation)
            } else {
                old(markers)@[e]
            },
        forall|e: int|
            0 <= e < is_cooling.len() ==> #[trigger] final(indices)@[e] == if is_cooling@[e]
                && old(indices)@[e] is None {
                Some(LaserIndex { index: 0, initiated: false })
            } else {
                old(indices)@[e]
            },
{
    let mut e: usize = 0;
    while e < is_cooling.len()
        invariant
            e <= is_cooling.len(),
            is_cooling.len() == markers.len(),
            is_cooling.len() == indices.len(),
            markers.len() == old(markers).len(),
            indices.len() == old(indices).len(),
            forall|j: int|
                0 <= j < e ==> #[trigger] markers@[j] == if is_cooling@[j] {
                    Some(RequiresIntensityCalculation)
                } else {
                    old(markers)@[j]
                },
            forall|j: int| e <= j < markers.len() ==> #[trigger] markers@[j] == old(markers)@[j],
            forall|j: int|
                0 <= j < e ==> #[trigger] indices@[j] == if is_cooling@[j] && old(indices)@[j] is None {
                    Some(LaserIndex { index: 0, initiated: false })
                } else {
                    old(indices)@[j]
                },
            forall|j: int| e <= j < indices.len() ==> #[trigger] indices@[j] == old(indices)@[j],
        decreases is_cooling.len() - e,
    {
        if is_cooling[e] {
            if markers[e].is_none() {
                markers.set(e, Some(RequiresIntensityCalculation));
            }
            if indices[e].is_none() {
                indices.set(e, Some(LaserIndex::default()));
            }
        }
        e = e + 1;
    }
}

} // verus!
