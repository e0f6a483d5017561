//! Writes diagnostic output to the console window.
use vstd::prelude::*;

use crate::output::text::{push_bytes, push_decimal, spec_decimal};

verus! {

/// `Step <step>: simulating <atom_number> atoms.` followed by a newline.
pub open spec fn spec_console_line(step: nat, atom_number: nat) -> Seq<u8> {
    seq![83u8, 116u8, 101u8, 112u8, 32u8] + spec_decimal(step) + seq![
        58u8,
        32u8,
        115u8,
        105u8,
        109u8,
        117u8,
        108u8,
        97u8,
        116u8,
        105u8,
        110u8,
        103u8,
        32u8,
    ] + spec_decimal(atom_number) + seq![32u8, 97u8, 116u8, 111u8, 109u8, 115u8, 46u8, 10u8]
}

/// The diagnostic line for step `step`, when there are `atom_number` atoms: one line
/// every 100 steps, none otherwise.
pub fn console_output(step: u64, atom_number: usize) -> (line: Option<Vec<u8>>)
    ensures
        match line {
            Some(l) => step % 100 == 0 && l@ == spec_console_line(step as nat, atom_number as nat),
            None => step % 100 != 0,
        },
{
    if step % 100 == 0 {
        let mut l: Vec<u8> = Vec::new();
        push_bytes(&mut l, &[83u8, 116u8, 101u8, 112u8, 32u8]);
        push_decimal(&mut l, step);
        push_bytes(&mut l, &[58u8, 32u8, 115u8, 105u8, 109u8, 117u8, 108u8, 97u8, 116u8, 105u8, 110u8, 103u8, 32u8]);
        push_decimal(&mut l, atom_number as u64);
        push_bytes(&mut l, &[32u8, 97u8, 116u8, 111u8, 109u8, 115u8, 46u8, 10u8]);
        assert(l@ =~= spec_console_line(step as nat, atom_number as nat));
        Some(l)
    } else {
        None
    }
}

} // verus!
