//! Periodic printing of atom data, and counting of atoms captured by detectors.
use vstd::prelude::*;

verus! {

/// Prints atom data to the console every 100 steps.
pub struct Print_output;

impl Print_output {
    /// Tells whether the atom data is printed at step `step`.
    pub fn run(&mut self, step: u64) -> (print: bool)
        ensures
            print == (step % 100 == 0),
    {
        step % 100 == 0
    }
}

/// The number of `true` entries of `s`.
pub open spec fn count_true(s: Seq<bool>) -> nat
    decreases s.len(),
{
    if s.len() == 0 {
        0
    } else {
        count_true(s.drop_last()) + if s.last() {
            1nat
        } else {
            0nat
        }
    }
}

/// The number of detections over all detectors: `rows[d][a]` tells whether detector
/// `d` holds atom `a`.
pub open spec fn count_detections(rows: Seq<Vec<bool>>) -> nat
    decreases rows.len(),
{
    if rows.len() == 0 {
        0
    } else {
        count_detections(rows.drop_last()) + count_true(rows.last()@)
    }
}

/// Counts the atoms that are within a detector, and removes them from the simulation.
pub struct Detecting_atom;

impl Detecting_atom {
    /// `detected[d][a]` tells whether detector `d` contains atom `a`. Every detection adds
    /// one to `number_of_atom`; an atom within two detectors counts twice. Returns, for
    /// each atom, whether it is removed: when some detector contains it.
    pub fn run(&mut self, detected: &Vec<Vec<bool>>, atom_number: usize, number_of_atom: &mut u64) -> (removed: Vec<bool>)
        requires
            forall|d: int| 0 <= d < detected.len() ==> (#[trigger] detected@[d]).len() == atom_number,
            *old(number_of_atom) + count_detections(detected@) <= u64::MAX,
        ensures
            *final(number_of_atom) == *old(number_of_atom) + count_detections(detected@),
            removed.len() == atom_number,
            forall|a: int|
                0 <= a < atom_number ==> #[trigger] removed@[a] == exists|d: int|
                    0 <= d < detected.len() && #[trigger] detected@[d]@[a],
    {
        let mut removed: Vec<bool> = Vec::new();
        let mut a: usize = 0;
        while a < atom_number
            invariant
                a <= atom_number,
                removed.len() == a,
                forall|b: int| 0 <= b < a ==> #[trigger] removed@[b] == false,
            decreases atom_number - a,
        {
            removed.push(false);
            a = a + 1;
        }
        let mut d: usize = 0;
        while d < detected.len()
            invariant
                d <= detected.len(),
                removed.len() == atom_number,
                forall|k: int| 0 <= k < detected.len() ==> (#[trigger] detected@[k]).len() == atom_number,
                *old(number_of_atom) + count_detections(detected@) <= u64::MAX,
                *number_of_atom == *old(number_of_atom) + count_detections(detected@.take(d as int)),
                forall|b: int|
                    0 <= b < atom_number ==> #[trigger] removed@[b] == exists|k: int|
                        0 <= k < d && #[trigger] detected@[k]@[b],
            decreases detected.len() - d,
        {
            let row = &detected[d];
            let ghost before = *number_of_atom;
            let ghost removed_before = removed@;
            proof {
                lemma_count_detections_prefix(detected@, d as int);
            }
            let mut b: usize = 0;
            while b < atom_number
                invariant
                    b <= atom_number,
                    row.len() == atom_number,
                    removed.len() == atom_number,
                    before + count_true(row@) <= u64::MAX,
                    *number_of_atom == before + count_true(row@.take(b as int)),
                    forall|c: int|
                        0 <= c < atom_number ==> #[trigger] removed@[c] == if c < b {
                            removed_before[c] || row@[c]
                        } else {
                            removed_before[c]
                        },
                decreases atom_number - b,
            {
                proof {
                    lemma_count_true_prefix(row@, b as int);
                }
                if row[b] {
                    *number_of_atom = *number_of_atom + 1;
                    removed.set(b, true);
                }
                b = b + 1;
            }
            assert(row@.take(atom_number as int) =~= row@);
            assert(detected@.take(d + 1).drop_last() =~= detected@.take(d as int));
            assert forall|c: int| 0 <= c < atom_number implies #[trigger] removed@[c] == exists|k: int|
                0 <= k < d + 1 && #[trigger] detected@[k]@[c] by {
                if detected@[d as int]@[c] {
                    assert(0 <= d < d + 1);
                }
            }
            d = d + 1;
        }
        assert(detected@.take(detected.len() as int) =~= detected@);
        removed
    }
}

proof fn lemma_count_true_prefix(s: Seq<bool>, b: int)
    requires
        0 <= b < s.len(),
    ensures
        count_true(s.take(b + 1)) == count_true(s.take(b)) + if s[b] {
            1nat
        } else {
            0nat
        },
        count_true(s.take(b + 1)) <= count_true(s),
{
    assert(s.take(b + 1).drop_last() =~= s.take(b));
    lemma_count_true_monotone(s, b + 1);
}

proof fn lemma_count_true_monotone(s: Seq<bool>, b: int)
    requires
        0 <= b <= s.len(),
    ensures
        count_true(s.take(b)) <= count_true(s),
    decreases s.len() - b,
{
    if b < s.len() {
        lemma_count_true_monotone(s, b + 1);
        assert(s.take(b + 1).drop_last() =~= s.take(b));
    } else {
        assert(s.take(b) =~= s);
    }
}

proof fn lemma_count_detections_prefix(rows: Seq<Vec<bool>>, d: int)
    requires
        0 <= d < rows.len(),
    ensures
        count_detections(rows.take(d + 1)) == count_detections(rows.take(d)) + count_true(rows[d]@),
        count_detections(rows.take(d + 1)) <= count_detections(rows),
    decreases rows.len() - d,
{
    assert(rows.take(d + 1).drop_last() =~= rows.take(d));
    if d + 1 < rows.len() {
        lemma_count_detections_prefix(rows, d + 1);
    } else {
        assert(rows.take(d + 1) =~= rows);
    }
}

} // verus!
