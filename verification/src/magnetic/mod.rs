//! Magnetic fields: precalculated field grids and the attachment of per-atom samplers.

pub mod grid;
pub mod zeeman;
