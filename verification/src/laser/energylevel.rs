//! Energy levels of atoms, and the identification of atoms in dark states.
use vstd::prelude::*;

verus! {

/// The level structure of an atom.
pub struct energy_level {
    pub levels: Vec<String>,
    pub energy: Vec<i64>,
    /// The population of the atom in each level.
    pub current_level: Vec<i64>,
    pub angular_momentum: Vec<i64>,
    /// Marks the levels that are dark states.
    pub dark_state: Vec<bool>,
}

/// A resource that switches on the energy level treatment.
#[derive(Clone, Copy, Debug, PartialEq, Eq, Structural)]
pub struct EnergyLevelOption;

/// True when some level of `level` is a dark state, or holds a population above the
/// dark-state threshold (0.99, so for these integer populations at least 1).
pub open spec fn spec_in_dark_state(level: &energy_level) -> bool {
    exists|i: int| 0 <= i < level.dark_state.len() && #[trigger] spec_level_dark(level, i)
}

/// Level `i` of `level` is a dark state or holds a population above the threshold.
pub open spec fn spec_level_dark(level: &energy_level, i: int) -> bool {
    level.current_level@[i] >= 1 || level.dark_state@[i]
}

/// Identifies atoms within a predefined dark state, to save computation time.
pub struct IdentifyDarkSystem;

impl IdentifyDarkSystem {
    /// `levels[a]` is the level structure of atom `a`. Returns, for each atom, whether it
    /// is marked dark: only when the energy level option is present. Every level listed
    /// in `dark_state` must have a population in `current_level`.
    pub fn run(&mut self, option: Option<EnergyLevelOption>, levels: &Vec<energy_level>) -> (dark: Vec<bool>)
        requires
            forall|a: int| 0 <= a < levels.len() ==> (#[trigger] levels@[a]).current_level.len() >= levels@[a].dark_state.len(),
        ensures
            dark.len() == levels.len(),
            forall|a: int| 0 <= a < levels.len() ==> #[trigger] dark@[a] == (option is Some && spec_in_dark_state(&levels@[a])),
    {
        let mut dark: Vec<bool> = Vec::new();
        let mut a: usize = 0;
        while a < levels.len()
            invariant
                a <= levels.len(),
                dark.len() == a,
                forall|b: int| 0 <= b < levels.len() ==> (#[trigger] levels@[b]).current_level.len() >= levels@[b].dark_state.len(),
                forall|b: int| 0 <= b < a ==> #[trigger] dark@[b] == (option is Some && spec_in_dark_state(&levels@[b])),
            decreases levels.len() - a,
        {
            let level = &levels[a];
            let mut is_dark = false;
            if option.is_some() {
                let mut i: usize = 0;
                while i < level.dark_state.len()
                    invariant
                        i <= level.dark_state.len(),
                        level.current_level.len() >= level.dark_state.len(),
                        is_dark <==> exists|k: int| 0 <= k < i && #[trigger] spec_level_dark(level, k),
                    decreases level.dark_state.len() - i,
                {
                    if level.current_level[i] >= 1 || level.dark_state[i] {
                        is_dark = true;
                    }
                    assert(spec_level_dark(level, i as int) == (level.current_level@[i as int] >= 1
                        || level.dark_state@[i as int]));
                    i = i + 1;
                }
            }
            dark.push(is_dark);
            a = a + 1;
        }
        dark
    }
}

} // verus!
