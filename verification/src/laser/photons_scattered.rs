//! Scattering of photons: whether the number actually scattered fluctuates.
use vstd::prelude::*;

verus! {

/// If this is added as a resource, the number of actual photons will be drawn from a poisson distribution.
///
/// Otherwise, the entries of the actual photons scattered will be identical with those expected.
#[derive(Clone, Copy, Debug, PartialEq, Eq, Structural)]
pub enum ScatteringFluctuationsOption {
    Off,
    On,
}

impl Default for ScatteringFluctuationsOption {
    fn default() -> (r: Self)
        ensures
            r == ScatteringFluctuationsOption::On,
    {
        ScatteringFluctuationsOption::On
    }
}

/// How the number of photons an atom actually scattered from a beam is obtained.
#[derive(Clone, Copy, Debug, PartialEq, Eq, Structural)]
pub enum ActualPhotonsSource {
    /// The expected number is taken as it is.
    Expected,
    /// The number is drawn from a Poisson distribution whose mean is the expected number
    /// (no photons when that mean is below 1e-5 or not a number).
    Poisson,
}

/// Calculates the actual number of photons scattered by each cooling light entity in one
/// iteration step.
pub struct CalculateActualPhotonsScatteredSystem;

impl CalculateActualPhotonsScatteredSystem {
    /// `option` is the fluctuations resource, if the simulation has one. Returns how the
    /// actual numbers of photons are obtained: drawn only when fluctuations are switched on.
    pub fn run(&mut self, option: Option<ScatteringFluctuationsOption>) -> (source: ActualPhotonsSource)
        ensures
            source == if option == Some(ScatteringFluctuationsOption::On) {
                ActualPhotonsSource::Poisson
            } else {
                ActualPhotonsSource::Expected
            },
    {
        match option {
            None => ActualPhotonsSource::Expected,
            Some(ScatteringFluctuationsOption::Off) => ActualPhotonsSource::Expected,
            Some(ScatteringFluctuationsOption::On) => ActualPhotonsSource::Poisson,
        }
    }
}

} // verus!
