//! Forces exerted on atoms by cooling light: the choice of how the random recoil of
//! spontaneous emission is generated.
use vstd::prelude::*;

verus! {

/// A particular configuration that tells the `ApplyEmissionForceSystem` when to
/// switch over to averaged mode
#[derive(Clone, Copy, Debug, PartialEq, Eq, Structural)]
pub struct EmissionForceConfiguration {
    /// If the number of photons scattered by a specific beam during one iteration step
    /// exceeds this number, the force vector will be generated
    /// using an averaged random walk formula instead of the explicit addition of
    /// random vectors
    pub explicit_threshold: u64,
}

/// A resource that indicates that the simulation should apply random forces
/// to simulate the random walk fluctuations due to spontaneous
/// emission.
#[derive(Clone, Copy, Debug, PartialEq, Eq, Structural)]
pub enum EmissionForceOption {
    Off,
    On(EmissionForceConfiguration),
}

impl Default for EmissionForceOption {
    fn default() -> (r: Self)
        ensures
            r == EmissionForceOption::On(EmissionForceConfiguration { explicit_threshold: 5 }),
    {
        EmissionForceOption::On(EmissionForceConfiguration { explicit_threshold: 5 })
    }
}

/// How the recoil from the photons an atom scattered in one step is generated.
#[derive(Clone, Copy, Debug, PartialEq, Eq, Structural)]
pub enum EmissionKicks {
    /// No emission force is applied.
    NoKicks,
    /// The given number of single-photon kicks, each in a random direction, are added one by one.
    Explicit(u64),
    /// One kick drawn from the random-walk distribution of the given number of photons is added.
    RandomWalk(u64),
}

/// The recoil generated for an atom that scattered `total` photons in this step.
pub open spec fn spec_emission_kicks(option: Option<EmissionForceOption>, total: u64) -> EmissionKicks {
    match option {
        None => EmissionKicks::NoKicks,
        Some(EmissionForceOption::Off) => EmissionKicks::NoKicks,
        Some(EmissionForceOption::On(configuration)) => if total > configuration.explicit_threshold {
            EmissionKicks::RandomWalk(total)
        } else {
            EmissionKicks::Explicit(total)
        },
    }
}

/// The recoil of an atom always accounts for every photon it scattered, and is a random
/// walk exactly when that number exceeds the configured threshold, whatever the
/// threshold; without the option switched on there is no recoil.
pub proof fn lemma_emission_kicks_threshold(option: Option<EmissionForceOption>, total: u64)
    ensures
        match option {
            Some(EmissionForceOption::On(c)) => {
                &&& (spec_emission_kicks(option, total) is RandomWalk <==> total > c.explicit_threshold)
                &&& (spec_emission_kicks(option, total) == EmissionKicks::RandomWalk(total)
                    || spec_emission_kicks(option, total) == EmissionKicks::Explicit(total))
            },
            _ => spec_emission_kicks(option, total) == EmissionKicks::NoKicks,
        },
{
}

/// Calculates the force vector due to the spontaneous emissions in this
/// simulation step.
///
/// Only runs if an `EmissionForceOption` is present and switched on.
///
/// Uses a threshold (5 by default) to decide if the random vector is iteratively
/// produced or derived by random-walk formula and a single random vector.
pub struct ApplyEmissionForceSystem;

impl ApplyEmissionForceSystem {
    /// `totals[a]` is the number of photons atom `a` scattered in this step, summed over
    /// all beams. Returns, for each atom, how its emission recoil is generated.
    pub fn run(&mut self, option: Option<EmissionForceOption>, totals: &Vec<u64>) -> (kicks: Vec<EmissionKicks>)
        ensures
            kicks.len() == totals.len(),
            forall|a: int| 0 <= a < totals.len() ==> #[trigger] kicks@[a] == spec_emission_kicks(option, totals@[a]),
            forall|a: int|
                0 <= a < totals.len() ==> match option {
                    Some(EmissionForceOption::On(c)) => {
                        &&& ((#[trigger] kicks@[a]) is RandomWalk <==> totals@[a] > c.explicit_threshold)
                        &&& (kicks@[a] == EmissionKicks::RandomWalk(totals@[a]) || kicks@[a]
                            == EmissionKicks::Explicit(totals@[a]))
                    },
                    _ => kicks@[a] == EmissionKicks::NoKicks,
                },
    {
        let mut kicks: Vec<EmissionKicks> = Vec::new();
        let mut a: usize = 0;
        while a < totals.len()
            invariant
                a <= totals.len(),
                kicks.len() == a,
                forall|b: int| 0 <= b < a ==> #[trigger] kicks@[b] == spec_emission_kicks(option, totals@[b]),
            decreases totals.len() - a,
        {
            let total = totals[a];
            let k = match option {
                None => EmissionKicks::NoKicks,
                Some(EmissionForceOption::Off) => EmissionKicks::NoKicks,
                Some(EmissionForceOption::On(configuration)) => {
                    if total > configuration.explicit_threshold {
                        EmissionKicks::RandomWalk(total)
                    } else {
                        EmissionKicks::Explicit(total)
                    }
                },
            };
            kicks.push(k);
            a = a + 1;
        }
        proof {
            assert forall|b: int| 0 <= b < totals.len() implies match option {
                Some(EmissionForceOption::On(c)) => {
                    &&& ((#[trigger] kicks@[b]) is RandomWalk <==> totals@[b] > c.explicit_threshold)
                    &&& (kicks@[b] == EmissionKicks::RandomWalk(totals@[b]) || kicks@[b] == EmissionKicks::Explicit(
                        totals@[b],
                    ))
                },
                _ => kicks@[b] == EmissionKicks::NoKicks,
            } by {
                lemma_emission_kicks_threshold(option, totals@[b]);
            }
        }
        kicks
    }
}

/// Lasers are handled in batches of this many, cached for the parallel atom loop.
pub const LASER_CACHE_SIZE: usize = 16;

/// The lasers taken from the first `k` batches, in order: from each batch, the entries
/// in use.
pub open spec fn batches_prefix<L>(batches: Seq<(Vec<L>, usize)>, k: int) -> Seq<L>
    decreases k,
{
    if k <= 0 {
        Seq::empty()
    } else {
        batches_prefix(batches, k - 1) + batches[k - 1].0@.take(batches[k - 1].1 as int)
    }
}

/// The batches hand out every laser exactly once, in order: each batch is a full cache
/// array of which the first `number` entries are in use.
pub open spec fn batches_cover<L>(batches: Seq<(Vec<L>, usize)>, lasers: Seq<L>) -> bool {
    &&& forall|k: int|
        0 <= k < batches.len() ==> (#[trigger] batches[k]).0.len() == LASER_CACHE_SIZE && batches[k].1
            <= LASER_CACHE_SIZE
    &&& batches_prefix(batches, batches.len() as int) == lasers
}

/// Splits the cached lasers into batches of [LASER_CACHE_SIZE] for the atom loop.
///
/// Each batch is a full cache array whose unused entries repeat the first laser, paired
/// with the number of entries in use: every batch but the last is full, and together
/// they hand out every laser once, in order.
pub fn laser_batches<L: Copy>(lasers: &Vec<L>) -> (batches: Vec<(Vec<L>, usize)>)
    ensures
        batches_cover(batches@, lasers@),
        forall|k: int, i: int|
            0 <= k < batches.len() && batches@[k].1 <= i < LASER_CACHE_SIZE ==> #[trigger] batches@[k].0@[i]
                == lasers@[0],
        forall|k: int| 0 <= k < batches.len() ==> (#[trigger] batches@[k]).1 > 0,
        forall|k: int| 0 <= k < batches.len() - 1 ==> (#[trigger] batches@[k]).1 == LASER_CACHE_SIZE,
        batches.len() == (lasers.len() + LASER_CACHE_SIZE - 1) / LASER_CACHE_SIZE as int,
{
    let mut batches: Vec<(Vec<L>, usize)> = Vec::new();
    let mut base_index: usize = 0;
    while base_index < lasers.len()
        invariant
            base_index <= lasers.len(),
            base_index < lasers.len() ==> base_index == LASER_CACHE_SIZE * batches.len(),
            batches.len() > 0 ==> LASER_CACHE_SIZE * (batches.len() - 1) < base_index <= LASER_CACHE_SIZE
                * batches.len(),
            batches.len() == 0 ==> base_index == 0,
            forall|k: int|
                0 <= k < batches.len() ==> (#[trigger] batches@[k]).0.len() == LASER_CACHE_SIZE
                    && 0 < batches@[k].1 <= LASER_CACHE_SIZE,
            forall|k: int| 0 <= k < batches.len() - 1 ==> (#[trigger] batches@[k]).1 == LASER_CACHE_SIZE,
            base_index < lasers.len() ==> forall|k: int|
                0 <= k < batches.len() ==> (#[trigger] batches@[k]).1 == LASER_CACHE_SIZE,
            forall|k: int, i: int|
                0 <= k < batches.len() && batches@[k].1 <= i < LASER_CACHE_SIZE ==> #[trigger] batches@[k].0@[i]
                    == lasers@[0],
            batches_prefix(batches@, batches.len() as int) == lasers@.take(base_index as int),
        decreases lasers.len() - base_index,
    {
        let remaining = lasers.len() - base_index;
        let number_in_iteration = if remaining < LASER_CACHE_SIZE {
            remaining
        } else {
            LASER_CACHE_SIZE
        };
        let mut laser_array: Vec<L> = Vec::new();
        let mut i: usize = 0;
        while i < LASER_CACHE_SIZE
            invariant
                0 < number_in_iteration <= LASER_CACHE_SIZE,
                base_index + number_in_iteration <= lasers.len(),
                i <= LASER_CACHE_SIZE,
                laser_array.len() == i,
                forall|k: int|
                    0 <= k < i ==> #[trigger] laser_array@[k] == if k < number_in_iteration {
                        lasers@[base_index + k]
                    } else {
                        lasers@[0]
                    },
            decreases LASER_CACHE_SIZE - i,
        {
            if i < number_in_iteration {
                laser_array.push(lasers[base_index + i]);
            } else {
                laser_array.push(lasers[0]);
            }
            i = i + 1;
        }
        let ghost old_batches = batches@;
        assert(laser_array@.take(number_in_iteration as int) =~= lasers@.subrange(
            base_index as int,
            base_index + number_in_iteration,
        ));
        batches.push((laser_array, number_in_iteration));
        assert(batches@.take(old_batches.len() as int) =~= old_batches);
        proof {
            lemma_batches_prefix_push(old_batches, batches@);
        }
        assert(lasers@.take(base_index as int) + lasers@.subrange(base_index as int, base_index + number_in_iteration)
            =~= lasers@.take(base_index + number_in_iteration));
        base_index = base_index + number_in_iteration;
    }
    assert(lasers@.take(lasers.len() as int) =~= lasers@);
    batches
}

/// Pushing a batch adds its entries in use after those of the earlier batches.
proof fn lemma_batches_prefix_push<L>(before: Seq<(Vec<L>, usize)>, after: Seq<(Vec<L>, usize)>)
    requires
        after.len() == before.len() + 1,
        forall|k: int| 0 <= k < before.len() ==> #[trigger] after[k] == before[k],
    ensures
        batches_prefix(after, after.len() as int) == batches_prefix(before, before.len() as int)
            + after.last().0@.take(after.last().1 as int),
{
    lemma_batches_prefix_same(before, after, before.len() as int);
}

proof fn lemma_batches_prefix_same<L>(a: Seq<(Vec<L>, usize)>, b: Seq<(Vec<L>, usize)>, k: int)
    requires
        0 <= k <= a.len(),
        k <= b.len(),
        forall|j: int| 0 <= j < k ==> #[trigger] a[j] == b[j],
    ensures
        batches_prefix(a, k) == batches_prefix(b, k),
    decreases k,
{
    if k > 0 {
        lemma_batches_prefix_same(a, b, k - 1);
    }
}

/// Calculates the forces from absorbing photons from the cooling light entities.
///
/// The per-atom numbers of photons scattered from each beam are assumed to be known,
/// and every cooling laser to carry an assigned index into them.
pub struct CalculateAbsorptionForcesSystem;

impl CalculateAbsorptionForcesSystem {
    /// `lasers` holds the cached components of every cooling laser, and `dark[a]` tells
    /// whether atom `a` is in a dark state. Returns, for each atom, the lasers whose
    /// absorption force is added to it, in the order they are added: none for a dark atom,
    /// every laser once otherwise.
    pub fn run<L: Copy>(&mut self, lasers: &Vec<L>, dark: &Vec<bool>) -> (applied: Vec<Vec<L>>)
        ensures
            applied.len() == dark.len(),
            forall|a: int|
                0 <= a < dark.len() ==> (#[trigger] applied@[a])@ == if dark@[a] {
                    Seq::<L>::empty()
                } else {
                    lasers@
                },
    {
        let batches = laser_batches(lasers);
        let mut applied: Vec<Vec<L>> = Vec::new();
        let mut a: usize = 0;
        while a < dark.len()
            invariant
                a <= dark.len(),
                applied.len() == a,
                batches_cover(batches@, lasers@),
                forall|b: int|
                    0 <= b < a ==> (#[trigger] applied@[b])@ == if dark@[b] {
                        Seq::<L>::empty()
                    } else {
                        lasers@
                    },
            decreases dark.len() - a,
        {
            let mut forces: Vec<L> = Vec::new();
            if !dark[a] {
                let mut k: usize = 0;
                while k < batches.len()
                    invariant
                        k <= batches.len(),
                        batches_cover(batches@, lasers@),
                        forces@ == batches_prefix(batches@, k as int),
                    decreases batches.len() - k,
                {
                    let laser_array = &batches[k].0;
                    let number_in_iteration = batches[k].1;
                    let ghost start = forces@;
                    let mut i: usize = 0;
                    while i < number_in_iteration
                        invariant
                            k < batches.len(),
                            batches_cover(batches@, lasers@),
                            *laser_array == batches@[k as int].0,
                            number_in_iteration == batches@[k as int].1,
                            i <= number_in_iteration,
                            forces@ == start + laser_array@.take(i as int),
                        decreases number_in_iteration - i,
                    {
                        forces.push(laser_array[i]);
                        assert(laser_array@.take(i + 1) =~= laser_array@.take(i as int).push(
                            laser_array@[i as int],
                        ));
                        i = i + 1;
                    }
                    assert(batches_prefix(batches@, k + 1) == batches_prefix(batches@, k as int)
                        + batches@[k as int].0@.take(batches@[k as int].1 as int));
                    k = k + 1;
                }
            }
            applied.push(forces);
            a = a + 1;
        }
        applied
    }
}

} // verus!
