//! Verified core of an ultracold-atom simulation: the indexing of lasers and their
//! sampler slots, region testing, field-grid lookup, the selection of lost and resampled
//! atoms, ramp keyframes, timestep scheduling and the framing of output files.
#![allow(non_camel_case_types)]

pub mod laser;
pub mod laser_cooling;
pub mod losses;
pub mod magnetic;
pub mod optimization;
pub mod output;
pub mod ramp;
pub mod oven;
pub mod rf_knife;
pub mod sim_region;
