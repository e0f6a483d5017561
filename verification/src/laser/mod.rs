//! Laser beams: indexing of beams and the per-atom sampler slots they occupy.

pub mod densitymatrix;
pub mod dipole_beam;
pub mod energylevel;
pub mod force;
pub mod index;
pub mod photons_scattered;
pub mod repump;
pub mod sampler;

use vstd::prelude::*;

verus! {

/// The default maximum number of laser beams a simulation is configured for.
pub const DEFAULT_BEAM_LIMIT: usize = 16;

/// Indicates that a laser should be included for intensity calculations.
#[derive(Clone, Copy, Debug, PartialEq, Eq, Structural)]
pub struct RequiresIntensityCalculation;

/// Indicates that a laser should be included for intensity gradient calculations.
#[derive(Clone, Copy, Debug, PartialEq, Eq, Structural)]
pub struct RequiresIntensityGradientCalculation;

} // verus!
