//! Framing of the file output formats.
//!
//! Each frame of an output file begins with a header that gives the step number and
//! the number of atoms, followed by one record per atom. The per-atom payload is
//! rendered by the component being output; the frames around it are built here.
use vstd::prelude::*;

use byteorder::{ByteOrder, LittleEndian};

use crate::output::text::{push_bytes, push_decimal, spec_decimal};

verus! {

/// True when a frame is written at step `step`, for output every `interval` steps.
pub open spec fn spec_is_output_step(step: u64, interval: u64) -> bool {
    step % interval == 0
}

/// Frames are written every `interval` steps: at every multiple of the interval (step 0
/// included) and at no other step.
pub proof fn lemma_output_every_interval(interval: u64, k: nat, step: u64)
    requires
        interval > 0,
    ensures
        k * interval <= u64::MAX ==> spec_is_output_step((k * interval) as u64, interval),
        spec_is_output_step(step, interval) ==> step == interval * (step / interval),
{
    if k * interval <= u64::MAX {
        vstd::arithmetic::div_mod::lemma_mod_multiples_basic(k as int, interval as int);
    }
    vstd::arithmetic::div_mod::lemma_fundamental_div_mod(step as int, interval as int);
}

/// Tells whether a frame is written at step `step`, for output every `interval` steps.
/// An interval of zero has no frames (the step count cannot be divided by it).
pub fn is_output_step(step: u64, interval: u64) -> (due: bool)
    requires
        interval > 0,
    ensures
        due == spec_is_output_step(step, interval),
{
    step % interval == 0
}

/// Prints files in a format that is human readable.
///
/// The output file is structured as follows. Each frame begins with the line
/// `step-n, atomNumber`, where `n` is the step number and `atomNumber` the number of
/// atoms written in the frame. This is followed by a line `gen,id: data` for each atom,
/// where `gen` and `id` are the entity generation and index, and data is the per-atom payload.
pub struct Text {}

/// Writes each atom's payload as a JSON string, with the same framing as [Text].
pub struct SerdeJson {}

/// Writes positions in the xyz file format, readable by molecular viewers.
pub struct XYZ {}

/// Writes a compact binary format: all numbers are little-endian.
pub struct Binary {}

/// `step-<step>, <atom_number>` followed by a newline.
pub open spec fn spec_text_frame_header(step: nat, atom_number: nat) -> Seq<u8> {
    seq![115u8, 116u8, 101u8, 112u8, 45u8] + spec_decimal(step) + seq![44u8, 32u8] + spec_decimal(atom_number)
        + seq![10u8]
}

/// `<generation>,<index>` followed by `sep`.
pub open spec fn spec_entity_prefix(generation: nat, index: nat, sep: Seq<u8>) -> Seq<u8> {
    spec_decimal(generation) + seq![44u8] + spec_decimal(index) + sep
}

/// `<atom_number>` followed by a blank line.
pub open spec fn spec_xyz_frame_header(atom_number: nat) -> Seq<u8> {
    spec_decimal(atom_number) + seq![10u8, 10u8]
}

/// The `width`-byte little-endian encoding of `n` (its lowest `width` bytes).
pub open spec fn spec_le_bytes(n: nat, width: nat) -> Seq<u8>
    decreases width,
{
    if width == 0 {
        Seq::empty()
    } else {
        seq![(n % 256) as u8] + spec_le_bytes(n / 256, (width - 1) as nat)
    }
}

fn text_frame_header(step: u64, atom_number: usize) -> (bytes: Vec<u8>)
    ensures
        bytes@ == spec_text_frame_header(step as nat, atom_number as nat),
{
    let mut bytes: Vec<u8> = Vec::new();
    push_bytes(&mut bytes, &[115u8, 116u8, 101u8, 112u8, 45u8]);
    push_decimal(&mut bytes, step);
    push_bytes(&mut bytes, &[44u8, 32u8]);
    push_decimal(&mut bytes, atom_number as u64);
    bytes.push(10u8);
    assert(bytes@ =~= spec_text_frame_header(step as nat, atom_number as nat));
    bytes
}

fn entity_prefix(generation: u32, index: u32, sep: &[u8]) -> (bytes: Vec<u8>)
    ensures
        bytes@ == spec_entity_prefix(generation as nat, index as nat, sep@),
{
    let mut bytes: Vec<u8> = Vec::new();
    push_decimal(&mut bytes, generation as u64);
    bytes.push(44u8);
    push_decimal(&mut bytes, index as u64);
    push_bytes(&mut bytes, sep);
    assert(bytes@ =~= spec_entity_prefix(generation as nat, index as nat, sep@));
    bytes
}

impl Text {
    /// The line that starts a frame: `step-<step>, <atom_number>`.
    pub fn frame_header(step: u64, atom_number: usize) -> (bytes: Vec<u8>)
        ensures
            bytes@ == spec_text_frame_header(step as nat, atom_number as nat),
    {
        text_frame_header(step, atom_number)
    }

    /// The start of an atom's line, `<generation>,<index>: `, which its payload follows.
    pub fn atom_prefix(generation: u32, index: u32) -> (bytes: Vec<u8>)
        ensures
            bytes@ == spec_entity_prefix(generation as nat, index as nat, seq![58u8, 32u8]),
    {
        let sep: [u8; 2] = [58u8, 32u8];
        let bytes = entity_prefix(generation, index, &sep);
        assert(sep@ =~= seq![58u8, 32u8]);
        bytes
    }
}

impl SerdeJson {
    /// The line that starts a frame: `step-<step>, <atom_number>`.
    pub fn frame_header(step: u64, atom_number: usize) -> (bytes: Vec<u8>)
        ensures
            bytes@ == spec_text_frame_header(step as nat, atom_number as nat),
    {
        text_frame_header(step, atom_number)
    }

    /// The start of an atom's line, `<generation>,<index>, `, which its JSON payload follows.
    pub fn atom_prefix(generation: u32, index: u32) -> (bytes: Vec<u8>)
        ensures
            bytes@ == spec_entity_prefix(generation as nat, index as nat, seq![44u8, 32u8]),
    {
        let sep: [u8; 2] = [44u8, 32u8];
        let bytes = entity_prefix(generation, index, &sep);
        assert(sep@ =~= seq![44u8, 32u8]);
        bytes
    }
}

impl XYZ {
    /// The start of a frame: the number of atoms, then an empty comment line.
    pub fn frame_header(atom_number: usize) -> (bytes: Vec<u8>)
        ensures
            bytes@ == spec_xyz_frame_header(atom_number as nat),
    {
        let mut bytes: Vec<u8> = Vec::new();
        push_decimal(&mut bytes, atom_number as u64);
        bytes.push(10u8);
        bytes.push(10u8);
        assert(bytes@ =~= spec_xyz_frame_header(atom_number as nat));
        bytes
    }
}

/// The little-endian encoding of `n`, written by byteorder's `ByteOrder::write_u64`
/// for `LittleEndian`: byte `i` is `(n >> 8i) & 0xff`.
#[verifier::external_body]
fn u64_le_bytes(n: u64) -> (bytes: [u8; 8])
    ensures
        bytes@ == spec_le_bytes(n as nat, 8),
{
    let mut bytes = [0u8; 8];
    LittleEndian::write_u64(&mut bytes, n);
    bytes
}

/// The little-endian encoding of `n`, written by byteorder's `ByteOrder::write_u32`
/// for `LittleEndian`: byte `i` is `(n >> 8i) & 0xff`.
#[verifier::external_body]
fn u32_le_bytes(n: u32) -> (bytes: [u8; 4])
    ensures
        bytes@ == spec_le_bytes(n as nat, 4),
{
    let mut bytes = [0u8; 4];
    LittleEndian::write_u32(&mut bytes, n);
    bytes
}

impl Binary {
    /// The start of a frame: the step number, then the number of atoms, each as 8 bytes.
    pub fn frame_header(step: u64, atom_number: usize) -> (bytes: Vec<u8>)
        ensures
            bytes@ == spec_le_bytes(step as nat, 8) + spec_le_bytes(atom_number as nat, 8),
    {
        let mut bytes: Vec<u8> = Vec::new();
        let step_bytes = u64_le_bytes(step);
        let number_bytes = u64_le_bytes(atom_number as u64);
        push_bytes(&mut bytes, &step_bytes);
        push_bytes(&mut bytes, &number_bytes);
        assert(bytes@ =~= spec_le_bytes(step as nat, 8) + spec_le_bytes(atom_number as nat, 8));
        bytes
    }

    /// The start of an atom's record: its generation, then its index, each as 4 bytes.
    /// The record continues with the atom's payload, eight bytes per number.
    pub fn atom_header(generation: u32, index: u32) -> (bytes: Vec<u8>)
        ensures
            bytes@ == spec_le_bytes(generation as nat, 4) + spec_le_bytes(index as nat, 4),
    {
        let mut bytes: Vec<u8> = Vec::new();
        let generation_bytes = u32_le_bytes(generation);
        let index_bytes = u32_le_bytes(index);
        push_bytes(&mut bytes, &generation_bytes);
        push_bytes(&mut bytes, &index_bytes);
        assert(bytes@ =~= spec_le_bytes(generation as nat, 4) + spec_le_bytes(index as nat, 4));
        bytes
    }
}

/// The formats an output file can be written in.
#[derive(Clone, Copy, Debug, PartialEq, Eq, Structural)]
pub enum OutputFormat {
    Text,
    SerdeJson,
    XYZ,
    Binary,
}

/// One atom's entry in a frame: the generation and index of its entity, and the payload
/// its component gives in the chosen format (display text, a JSON string, the
/// tab-separated scaled position, or the little-endian values).
pub struct AtomRecord {
    pub generation: u32,
    pub index: u32,
    pub data: Vec<u8>,
}

/// The frame header of a format.
pub open spec fn spec_frame_header(format: OutputFormat, step: u64, atom_number: nat) -> Seq<u8> {
    match format {
        OutputFormat::Text => spec_text_frame_header(step as nat, atom_number),
        OutputFormat::SerdeJson => spec_text_frame_header(step as nat, atom_number),
        OutputFormat::XYZ => spec_xyz_frame_header(atom_number),
        OutputFormat::Binary => spec_le_bytes(step as nat, 8) + spec_le_bytes(atom_number, 8),
    }
}

/// The bytes one atom adds to a frame: `gen,id: data` or `gen,id, data` on a line of
/// its own for the text formats, `H<tab>data` on a line for XYZ, and the generation and
/// index as 4-byte little-endian numbers followed by the data for the binary format.
pub open spec fn spec_atom_record(format: OutputFormat, generation: u32, index: u32, data: Seq<u8>) -> Seq<u8> {
    match format {
        OutputFormat::Text => spec_entity_prefix(generation as nat, index as nat, seq![58u8, 32u8]) + data + seq![10u8],
        OutputFormat::SerdeJson => spec_entity_prefix(generation as nat, index as nat, seq![44u8, 32u8]) + data
            + seq![10u8],
        OutputFormat::XYZ => seq![72u8, 9u8] + data + seq![10u8],
        OutputFormat::Binary => spec_le_bytes(generation as nat, 4) + spec_le_bytes(index as nat, 4) + data,
    }
}

/// The records of `atoms`, in order.
pub open spec fn spec_atom_records(format: OutputFormat, atoms: Seq<AtomRecord>) -> Seq<u8>
    decreases atoms.len(),
{
    if atoms.len() == 0 {
        Seq::empty()
    } else {
        let last = atoms.last();
        spec_atom_records(format, atoms.drop_last()) + spec_atom_record(format, last.generation, last.index, last.data@)
    }
}

/// A whole frame: the header, then one record per atom.
pub open spec fn spec_frame(format: OutputFormat, step: u64, atoms: Seq<AtomRecord>) -> Seq<u8> {
    spec_frame_header(format, step, atoms.len()) + spec_atom_records(format, atoms)
}

fn frame_header(format: OutputFormat, step: u64, atom_number: usize) -> (bytes: Vec<u8>)
    ensures
        bytes@ == spec_frame_header(format, step, atom_number as nat),
{
    match format {
        OutputFormat::Text => Text::frame_header(step, atom_number),
        OutputFormat::SerdeJson => SerdeJson::frame_header(step, atom_number),
        OutputFormat::XYZ => XYZ::frame_header(atom_number),
        OutputFormat::Binary => Binary::frame_header(step, atom_number),
    }
}

fn push_atom_record(buf: &mut Vec<u8>, format: OutputFormat, atom: &AtomRecord)
    ensures
        final(buf)@ == old(buf)@ + spec_atom_record(format, atom.generation, atom.index, atom.data@),
{
    match format {
        OutputFormat::Text => {
            let prefix = Text::atom_prefix(atom.generation, atom.index);
            push_bytes(buf, prefix.as_slice());
            push_bytes(buf, atom.data.as_slice());
            buf.push(10u8);
        },
        OutputFormat::SerdeJson => {
            let prefix = SerdeJson::atom_prefix(atom.generation, atom.index);
            push_bytes(buf, prefix.as_slice());
            push_bytes(buf, atom.data.as_slice());
            buf.push(10u8);
        },
        OutputFormat::XYZ => {
            buf.push(72u8);
            buf.push(9u8);
            push_bytes(buf, atom.data.as_slice());
            buf.push(10u8);
        },
        OutputFormat::Binary => {
            let header = Binary::atom_header(atom.generation, atom.index);
            push_bytes(buf, header.as_slice());
            push_bytes(buf, atom.data.as_slice());
        },
    }
    assert(final(buf)@ =~= old(buf)@ + spec_atom_record(format, atom.generation, atom.index, atom.data@));
}

/// The frame written at step `step` for output every `interval` steps: `None` when the
/// step is not an output step, otherwise the header and every atom's record, in order.
pub fn write_frame(format: OutputFormat, step: u64, interval: u64, atoms: &Vec<AtomRecord>) -> (frame: Option<Vec<u8>>)
    requires
        interval > 0,
    ensures
        match frame {
            Some(bytes) => spec_is_output_step(step, interval) && bytes@ == spec_frame(format, step, atoms@),
            None => !spec_is_output_step(step, interval),
        },
{
    if !is_output_step(step, interval) {
        return None;
    }
    let mut bytes = frame_header(format, step, atoms.len());
    let ghost header = bytes@;
    let mut a: usize = 0;
    while a < atoms.len()
        invariant
            a <= atoms.len(),
            bytes@ == header + spec_atom_records(format, atoms@.take(a as int)),
        decreases atoms.len() - a,
    {
        push_atom_record(&mut bytes, format, &atoms[a]);
        assert(atoms@.take(a + 1).drop_last() =~= atoms@.take(a as int));
        assert(bytes@ =~= header + spec_atom_records(format, atoms@.take(a + 1)));
        a = a + 1;
    }
    assert(atoms@.take(atoms.len() as int) =~= atoms@);
    Some(bytes)
}

} // verus!
