use atomecs::output::console_output::console_output;
use atomecs::output::detect::{Detecting_atom, Print_output};
use atomecs::output::file::{is_output_step, write_frame, AtomRecord, Binary, OutputFormat, SerdeJson, Text, XYZ};
use atomecs::output::memory_output::{save_to_memory, MemoryOutputResource};
use atomecs::output::text::{push_bytes, push_decimal};
use atomecs::output::xyz_file::{WriteToXYZFileSystem, XyzWritePlan};

fn text(bytes: Vec<u8>) -> String {
    String::from_utf8(bytes).unwrap()
}

#[test]
fn decimal_digits() {
    for n in [0u64, 7, 10, 99, 100, 12345, u64::MAX] {
        let mut buf = b"x".to_vec();
        push_decimal(&mut buf, n);
        assert_eq!(text(buf), format!("x{}", n));
    }
    let mut buf = vec![1u8];
    push_bytes(&mut buf, &[2, 3]);
    assert_eq!(buf, vec![1, 2, 3]);
}

#[test]
fn text_and_json_frame_headers() {
    assert_eq!(text(Text::frame_header(1, 2)), "step-1, 2\n");
    assert_eq!(text(SerdeJson::frame_header(300, 0)), "step-300, 0\n");
    assert_eq!(text(Text::atom_prefix(0, 17)), "0,17: ");
    assert_eq!(text(SerdeJson::atom_prefix(3, 4)), "3,4, ");
}

#[test]
fn xyz_frame_header() {
    assert_eq!(text(XYZ::frame_header(42)), "42\n\n");
    assert_eq!(text(XYZ::frame_header(0)), "0\n\n");
}

#[test]
fn binary_headers_are_little_endian() {
    assert_eq!(
        Binary::frame_header(1, 0x0203),
        vec![1, 0, 0, 0, 0, 0, 0, 0, 3, 2, 0, 0, 0, 0, 0, 0]
    );
    assert_eq!(Binary::frame_header(u64::MAX, 0), [vec![255u8; 8], vec![0u8; 8]].concat());
    assert_eq!(Binary::atom_header(0x01020304, 5), vec![4, 3, 2, 1, 5, 0, 0, 0]);
}

#[test]
fn output_steps_follow_interval() {
    assert!(is_output_step(0, 10));
    assert!(!is_output_step(5, 10));
    assert!(is_output_step(20, 10));
    assert!(is_output_step(7, 1));
}

#[test]
fn memory_output_keeps_due_frames() {
    let mut memory: MemoryOutputResource<u32> = MemoryOutputResource::new(3);
    for step in 0..7u64 {
        save_to_memory(step, &mut memory, vec![step as u32]);
    }
    assert_eq!(memory.interval, 3);
    assert_eq!(memory.payload, vec![vec![0], vec![3], vec![6]]);
}

#[test]
fn console_line_every_hundred_steps() {
    assert_eq!(text(console_output(200, 5).unwrap()), "Step 200: simulating 5 atoms.\n");
    assert_eq!(text(console_output(0, 0).unwrap()), "Step 0: simulating 0 atoms.\n");
    assert!(console_output(150, 5).is_none());
}

#[test]
fn print_output_every_hundred_steps() {
    assert!(Print_output.run(100));
    assert!(!Print_output.run(101));
}

#[test]
fn detected_atoms_are_counted_and_removed() {
    let detected = vec![vec![true, false, false], vec![true, false, true]];
    let mut number_of_atom = 10u64;
    let removed = Detecting_atom.run(&detected, 3, &mut number_of_atom);
    assert_eq!(number_of_atom, 13);
    assert_eq!(removed, vec![true, false, true]);
}

#[test]
fn no_detectors_count_nothing() {
    let mut number_of_atom = 4u64;
    let removed = Detecting_atom.run(&Vec::new(), 2, &mut number_of_atom);
    assert_eq!(number_of_atom, 4);
    assert_eq!(removed, vec![false, false]);
}

#[test]
fn xyz_writes_placeholder_once() {
    let mut initialized = false;
    let mut plans = Vec::new();
    for step in 0..=250u64 {
        let plan = WriteToXYZFileSystem.run(step, 100, true, &mut initialized);
        if plan.write {
            plans.push((step, plan));
        }
    }
    let steps: Vec<u64> = plans.iter().map(|(s, _)| *s).collect();
    assert_eq!(steps, vec![2, 100, 200]);
    assert_eq!(plans[0].1, XyzWritePlan { write: true, remove_old_file: true, placeholder_frame: true });
    assert_eq!(plans[1].1, XyzWritePlan { write: true, remove_old_file: false, placeholder_frame: false });
    assert_eq!(plans.iter().filter(|(_, p)| p.placeholder_frame).count(), 1);
    assert!(initialized);
}

#[test]
fn xyz_without_overwrite_keeps_old_file() {
    let mut initialized = false;
    let plan = WriteToXYZFileSystem.run(2, 100, false, &mut initialized);
    assert_eq!(plan, XyzWritePlan { write: true, remove_old_file: false, placeholder_frame: true });
    let idle = WriteToXYZFileSystem.run(0, 100, false, &mut initialized);
    assert!(!idle.write);
}

fn record(generation: u32, index: u32, data: &[u8]) -> AtomRecord {
    AtomRecord { generation, index, data: data.to_vec() }
}

#[test]
fn text_frame_with_records() {
    let atoms = vec![record(0, 1, b"a"), record(2, 3, b"(1, 2)")];
    let frame = write_frame(OutputFormat::Text, 20, 10, &atoms).unwrap();
    assert_eq!(text(frame), "step-20, 2\n0,1: a\n2,3: (1, 2)\n");
    let json = write_frame(OutputFormat::SerdeJson, 0, 10, &atoms).unwrap();
    assert_eq!(text(json), "step-0, 2\n0,1, a\n2,3, (1, 2)\n");
}

#[test]
fn xyz_and_binary_frames() {
    let atoms = vec![record(0, 0, b"1\t2\t3")];
    assert_eq!(text(write_frame(OutputFormat::XYZ, 5, 5, &atoms).unwrap()), "1\n\nH\t1\t2\t3\n");
    let binary = write_frame(OutputFormat::Binary, 1, 1, &vec![record(1, 2, &[9, 9])]).unwrap();
    assert_eq!(
        binary,
        vec![1, 0, 0, 0, 0, 0, 0, 0, 1, 0, 0, 0, 0, 0, 0, 0, 1, 0, 0, 0, 2, 0, 0, 0, 9, 9]
    );
}

#[test]
fn no_frame_between_intervals() {
    assert!(write_frame(OutputFormat::Text, 21, 10, &Vec::new()).is_none());
    assert_eq!(text(write_frame(OutputFormat::Text, 30, 10, &Vec::new()).unwrap()), "step-30, 0\n");
}
