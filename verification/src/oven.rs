//! Ovens: sources of hot atoms, and the number of atoms they emit each frame.
use vstd::prelude::*;

verus! {

/// Component which indicates the oven should emit a number of atoms per frame.
#[derive(Clone, Copy, Debug, PartialEq, Eq, Structural)]
pub struct EmitNumberPerFrame {
    pub number: i32,
}

/// The number of atoms the oven should emit in the current frame.
#[derive(Clone, Copy, Debug, PartialEq, Eq, Structural)]
pub struct AtomNumberToEmit {
    pub number: i32,
}

/// Calculates the number of atoms to emit per frame for fixed atoms-per-timestep ovens
pub struct EmitNumberPerFrameSystem;

impl EmitNumberPerFrameSystem {
    /// `emit_numbers[e]` and `numbers_to_emit[e]` are the components of entity `e`, if any.
    /// Every entity with both has its number to emit set to its number per frame.
    pub fn run(&mut self, emit_numbers: &Vec<Option<EmitNumberPerFrame>>, numbers_to_emit: &mut Vec<Option<AtomNumberToEmit>>)
        requires
            emit_numbers.len() == old(numbers_to_emit).len(),
        ensures
            final(numbers_to_emit).len() == old(numbers_to_emit).len(),
            forall|e: int|
                0 <= e < emit_numbers.len() ==> #[trigger] final(numbers_to_emit)@[e] == match (emit_numbers@[e], old(numbers_to_emit)@[e]) {
                    (Some(emit), Some(_)) => Some(AtomNumberToEmit { number: emit.number }),
                    _ => old(numbers_to_emit)@[e],
                },
    {
        let mut e: usize = 0;
        while e < numbers_to_emit.len()
            invariant
                e <= numbers_to_emit.len(),
                emit_numbers.len() == numbers_to_emit.len(),
                numbers_to_emit.len() == old(numbers_to_emit).len(),
                forall|j: int|
                    0 <= j < e ==> #[trigger] numbers_to_emit@[j] == match (emit_numbers@[j], old(numbers_to_emit)@[j]) {
                        (Some(emit), Some(_)) => Some(AtomNumberToEmit { number: emit.number }),
                        _ => old(numbers_to_emit)@[j],
                    },
                forall|j: int| e <= j < numbers_to_emit.len() ==> #[trigger] numbers_to_emit@[j] == old(numbers_to_emit)@[j],
            decreases numbers_to_emit.len() - e,
        {
            if let Some(emit) = emit_numbers[e] {
                if numbers_to_emit[e].is_some() {
                    numbers_to_emit.set(e, Some(AtomNumberToEmit { number: emit.number }));
                }
            }
            e = e + 1;
        }
    }
}

/// The number of atoms an oven creates for a number to emit: none when it is not positive.
pub open spec fn spec_atoms_created(number: i32) -> nat {
    if number > 0 {
        number as nat
    } else {
        0
    }
}

/// An oven creates exactly the number of atoms it is to emit, one atom for a number of
/// one included; a number that is not positive creates none. So the count created is
/// never negative, never below the number, and is the number itself or zero.
pub proof fn lemma_atoms_created(number: i32)
    ensures
        spec_atoms_created(number) as int >= number,
        spec_atoms_created(number) == number || spec_atoms_created(number) == 0,
        number > 0 ==> spec_atoms_created(number) == number,
        number <= 0 ==> spec_atoms_created(number) == 0,
{
}

/// Creates atoms from oven sources.
pub struct OvenCreateAtomsSystem;

impl OvenCreateAtomsSystem {
    /// `numbers_to_emit[o]` is the number to emit of oven `o`. Returns how many atoms each
    /// oven creates in this frame.
    pub fn run(&mut self, numbers_to_emit: &Vec<AtomNumberToEmit>) -> (created: Vec<u32>)
        ensures
            created.len() == numbers_to_emit.len(),
            forall|o: int| 0 <= o < numbers_to_emit.len() ==> #[trigger] created@[o] == spec_atoms_created(numbers_to_emit@[o].number),
            forall|o: int|
                0 <= o < numbers_to_emit.len() ==> (#[trigger] created@[o]) as int == if numbers_to_emit@[o].number
                    > 0 {
                    numbers_to_emit@[o].number as int
                } else {
                    0
                },
    {
        let mut created: Vec<u32> = Vec::new();
        let mut o: usize = 0;
        while o < numbers_to_emit.len()
            invariant
                o <= numbers_to_emit.len(),
                created.len() == o,
                forall|p: int| 0 <= p < o ==> #[trigger] created@[p] == spec_atoms_created(numbers_to_emit@[p].number),
            decreases numbers_to_emit.len() - o,
        {
            let number = numbers_to_emit[o].number;
            let count: u32 = if number > 0 {
                number as u32
            } else {
                0
            };
            proof {
                lemma_atoms_created(number);
            }
            created.push(count);
            o = o + 1;
        }
        created
    }
}

} // verus!
