//! Output of simulation data: when frames are written, and how they are framed.

pub mod console_output;
pub mod detect;
pub mod file;
pub mod memory_output;
pub mod text;
pub mod xyz_file;
