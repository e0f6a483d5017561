use atomecs::laser::densitymatrix::{DensityMatrixInitSystem, DensityMatrixOption};
use atomecs::laser::dipole_beam::{AttachIndexToDipoleLightSystem, DipoleLightIndex, IndexDipoleLightsSystem};
use atomecs::laser::energylevel::{energy_level, EnergyLevelOption, IdentifyDarkSystem};
use atomecs::laser::force::{
    laser_batches, ApplyEmissionForceSystem, CalculateAbsorptionForcesSystem, EmissionForceConfiguration,
    EmissionForceOption, EmissionKicks, LASER_CACHE_SIZE,
};
use atomecs::laser::index::{index_lasers, LaserIndex};
use atomecs::laser::photons_scattered::{
    ActualPhotonsSource, CalculateActualPhotonsScatteredSystem, ScatteringFluctuationsOption,
};
use atomecs::laser::repump::RepumpSystem;
use atomecs::laser::sampler::{
    write_laser_samples, CoolingLaserSamplerMasks, FillLaserSamplerMasksSystem, InitialiseLaserSamplerMasksSystem,
    LaserSamplerMask,
};
use atomecs::laser::DEFAULT_BEAM_LIMIT;
use atomecs::laser_cooling::attach_components_to_cooling_lasers;
use atomecs::laser_cooling::sampler_masks;
use atomecs::laser_cooling::sampler_masks::{populate_cooling_light_masks, CoolingLaserSamplerMask};
use atomecs::laser::RequiresIntensityCalculation;

#[test]
fn test_index_lasers() {
    let mut indices = vec![LaserIndex::default(), LaserIndex::default()];
    index_lasers(&mut indices);
    assert_ne!(indices[0].index, indices[1].index);
}

#[test]
fn index_lasers_numbers_in_order_and_marks_initiated() {
    let mut indices = vec![
        LaserIndex { index: 7, initiated: true },
        LaserIndex::default(),
        LaserIndex { index: 7, initiated: true },
    ];
    index_lasers(&mut indices);
    for (i, index) in indices.iter().enumerate() {
        assert_eq!(index.index, i);
        assert!(index.initiated);
    }
}

#[test]
fn index_lasers_leaves_assigned_indices_alone() {
    let mut indices = vec![LaserIndex { index: 4, initiated: true }, LaserIndex { index: 2, initiated: true }];
    index_lasers(&mut indices);
    assert_eq!(indices, vec![LaserIndex { index: 4, initiated: true }, LaserIndex { index: 2, initiated: true }]);
}

#[test]
fn index_lasers_twice_changes_nothing() {
    let mut indices = vec![LaserIndex::default(), LaserIndex { index: 9, initiated: true }, LaserIndex::default()];
    index_lasers(&mut indices);
    let once = indices.clone();
    index_lasers(&mut indices);
    assert_eq!(indices, once);
}

#[test]
fn index_lasers_on_no_lasers() {
    let mut indices: Vec<LaserIndex> = Vec::new();
    index_lasers(&mut indices);
    assert!(indices.is_empty());
}

#[test]
fn dipole_lights_are_indexed_uniquely() {
    let mut indices = vec![DipoleLightIndex::default(), DipoleLightIndex::default(), DipoleLightIndex::default()];
    IndexDipoleLightsSystem.run(&mut indices);
    assert_eq!(
        indices,
        vec![
            DipoleLightIndex { index: 0, initiated: true },
            DipoleLightIndex { index: 1, initiated: true },
            DipoleLightIndex { index: 2, initiated: true },
        ]
    );
    let once = indices.clone();
    IndexDipoleLightsSystem.run(&mut indices);
    assert_eq!(indices, once);
}

#[test]
fn dipole_light_index_attached_only_where_missing() {
    let has_light = vec![true, true, false];
    let mut indices = vec![None, Some(DipoleLightIndex { index: 3, initiated: true }), None];
    AttachIndexToDipoleLightSystem.run(&has_light, &mut indices);
    assert_eq!(
        indices,
        vec![
            Some(DipoleLightIndex { index: 0, initiated: false }),
            Some(DipoleLightIndex { index: 3, initiated: true }),
            None,
        ]
    );
}

#[test]
fn test_add_index_component_to_cooling_lights() {
    let is_cooling = vec![true];
    let mut markers: Vec<Option<RequiresIntensityCalculation>> = vec![None];
    let mut indices: Vec<Option<LaserIndex>> = vec![None];
    attach_components_to_cooling_lasers(&is_cooling, &mut markers, &mut indices);
    assert!(indices[0].is_some());
}

#[test]
fn cooling_laser_components_keep_existing_index() {
    let is_cooling = vec![true, false];
    let mut markers: Vec<Option<RequiresIntensityCalculation>> = vec![None, None];
    let mut indices = vec![Some(LaserIndex { index: 5, initiated: true }), None];
    attach_components_to_cooling_lasers(&is_cooling, &mut markers, &mut indices);
    assert_eq!(markers, vec![Some(RequiresIntensityCalculation), None]);
    assert_eq!(indices, vec![Some(LaserIndex { index: 5, initiated: true }), None]);
}

#[test]
fn sampler_masks_cleared_then_filled() {
    let filled = LaserSamplerMask { filled: true };
    let mut masks = vec![CoolingLaserSamplerMasks::<4> { contents: [filled; 4] }; 2];
    InitialiseLaserSamplerMasksSystem::<4>.run(&mut masks);
    for m in &masks {
        assert!(m.contents.iter().all(|s| !s.filled));
    }
    let lights = vec![LaserIndex { index: 1, initiated: true }, LaserIndex { index: 3, initiated: true }];
    FillLaserSamplerMasksSystem::<4>.run(&lights, &mut masks);
    for m in &masks {
        let flags: Vec<bool> = m.contents.iter().map(|s| s.filled).collect();
        assert_eq!(flags, vec![false, true, false, true]);
    }
    assert!(!LaserSamplerMask::default().filled);
}

#[test]
fn cooling_light_masks_follow_the_lights() {
    let mut masks = vec![sampler_masks::CoolingLaserSamplerMasks::<DEFAULT_BEAM_LIMIT> { contents: [CoolingLaserSamplerMask { filled: true }; DEFAULT_BEAM_LIMIT] }];
    let lights = vec![LaserIndex { index: 0, initiated: true }, LaserIndex { index: 15, initiated: true }];
    populate_cooling_light_masks(&mut masks, &lights);
    for (i, slot) in masks[0].contents.iter().enumerate() {
        assert_eq!(slot.filled, i == 0 || i == 15);
    }
    assert!(!CoolingLaserSamplerMask::default().filled);
}

fn level(current: Vec<i64>, dark_state: Vec<bool>) -> energy_level {
    energy_level {
        levels: vec![String::from("g"), String::from("e")],
        energy: vec![0, 1],
        current_level: current,
        angular_momentum: vec![0, 1],
        dark_state,
    }
}

#[test]
fn dark_atoms_identified_only_with_option() {
    let levels = vec![
        level(vec![0, 0], vec![false, false]),
        level(vec![0, 1], vec![false, false]),
        level(vec![0, 0], vec![false, true]),
    ];
    assert_eq!(IdentifyDarkSystem.run(Some(EnergyLevelOption), &levels), vec![false, true, true]);
    assert_eq!(IdentifyDarkSystem.run(None, &levels), vec![false, false, false]);
}

#[test]
fn repump_loss_makes_depumped_atoms_dark() {
    let depumped = vec![true, false, true];
    assert_eq!(RepumpSystem.run(true, &depumped), vec![true, false, true]);
    assert_eq!(RepumpSystem.run(false, &depumped), vec![false, false, false]);
}

#[test]
fn density_matrix_reset_needs_option() {
    let candidates = vec![true, false];
    assert_eq!(DensityMatrixInitSystem.run(Some(DensityMatrixOption), &candidates), vec![true, false]);
    assert_eq!(DensityMatrixInitSystem.run(None, &candidates), vec![false, false]);
}

#[test]
fn actual_photons_drawn_only_with_fluctuations_on() {
    assert_eq!(ScatteringFluctuationsOption::default(), ScatteringFluctuationsOption::On);
    assert_eq!(
        CalculateActualPhotonsScatteredSystem.run(Some(ScatteringFluctuationsOption::On)),
        ActualPhotonsSource::Poisson
    );
    assert_eq!(
        CalculateActualPhotonsScatteredSystem.run(Some(ScatteringFluctuationsOption::Off)),
        ActualPhotonsSource::Expected
    );
    assert_eq!(CalculateActualPhotonsScatteredSystem.run(None), ActualPhotonsSource::Expected);
}

#[test]
fn emission_kicks_switch_at_default_threshold() {
    let option = EmissionForceOption::default();
    assert_eq!(option, EmissionForceOption::On(EmissionForceConfiguration { explicit_threshold: 5 }));
    let totals = vec![0, 5, 6, 1_000_000];
    assert_eq!(
        ApplyEmissionForceSystem.run(Some(option), &totals),
        vec![
            EmissionKicks::Explicit(0),
            EmissionKicks::Explicit(5),
            EmissionKicks::RandomWalk(6),
            EmissionKicks::RandomWalk(1_000_000),
        ]
    );
}

#[test]
fn emission_kicks_off_without_option() {
    let totals = vec![3, 30];
    assert_eq!(
        ApplyEmissionForceSystem.run(Some(EmissionForceOption::Off), &totals),
        vec![EmissionKicks::NoKicks, EmissionKicks::NoKicks]
    );
    assert_eq!(ApplyEmissionForceSystem.run(None, &totals), vec![EmissionKicks::NoKicks, EmissionKicks::NoKicks]);
}

#[test]
fn laser_batches_fill_one_cache_array() {
    let lasers = vec![10u32, 11, 12];
    let batches = laser_batches(&lasers);
    assert_eq!(batches.len(), 1);
    assert_eq!(batches[0].1, 3);
    assert_eq!(batches[0].0.len(), LASER_CACHE_SIZE);
    assert_eq!(&batches[0].0[..3], &[10, 11, 12]);
    assert!(batches[0].0[3..].iter().all(|l| *l == 10));
    assert!(laser_batches::<u32>(&Vec::new()).is_empty());
}

#[test]
fn absorption_forces_skip_dark_atoms() {
    let lasers = vec![(0usize, 2.0f64), (1usize, 3.0f64)];
    let dark = vec![false, true, false];
    let applied = CalculateAbsorptionForcesSystem.run(&lasers, &dark);
    assert_eq!(applied.len(), 3);
    assert_eq!(applied[0], lasers);
    assert!(applied[1].is_empty());
    assert_eq!(applied[2], lasers);
}

#[test]
fn absorption_forces_with_a_full_cache() {
    let lasers: Vec<u8> = (0..16).collect();
    let applied = CalculateAbsorptionForcesSystem.run(&lasers, &vec![false]);
    assert_eq!(applied, vec![lasers]);
}

#[test]
fn laser_samples_land_in_their_slots() {
    let mut samplers = [0i32; 4];
    let indices = vec![LaserIndex { index: 2, initiated: true }, LaserIndex { index: 0, initiated: true }];
    write_laser_samples(&mut samplers, &indices, &vec![7, 9]);
    assert_eq!(samplers, [9, 0, 7, 0]);
}

#[test]
fn later_laser_wins_a_shared_slot() {
    let mut samplers = [1u8; 2];
    let indices = vec![LaserIndex { index: 1, initiated: true }, LaserIndex { index: 1, initiated: true }];
    write_laser_samples(&mut samplers, &indices, &vec![5, 6]);
    assert_eq!(samplers, [1, 6]);
}

#[test]
fn indexed_lasers_use_their_own_slots() {
    let mut lights = vec![LaserIndex::default(), LaserIndex::default(), LaserIndex::default()];
    index_lasers(&mut lights);
    let mut masks = vec![CoolingLaserSamplerMasks::<4> { contents: [LaserSamplerMask::default(); 4] }];
    FillLaserSamplerMasksSystem::<4>.run(&lights, &mut masks);
    let flags: Vec<bool> = masks[0].contents.iter().map(|m| m.filled).collect();
    assert_eq!(flags, vec![true, true, true, false]);
    let mut samples = [0u16; 4];
    write_laser_samples(&mut samples, &lights, &vec![10, 20, 30]);
    assert_eq!(samples, [10, 20, 30, 0]);
}

#[test]
fn laser_batches_split_many_lasers_sixteen_at_a_time() {
    let lasers: Vec<u32> = (0..33).collect();
    let batches = laser_batches(&lasers);
    assert_eq!(batches.len(), 3);
    assert_eq!(batches.iter().map(|b| b.1).collect::<Vec<usize>>(), vec![16, 16, 1]);
    assert_eq!(&batches[1].0[..], &lasers[16..32]);
    assert_eq!(batches[2].0[0], 32);
    assert!(batches[2].0[1..].iter().all(|l| *l == 0));
    let handed_out: Vec<u32> = batches.iter().flat_map(|(a, n)| a[..*n].to_vec()).collect();
    assert_eq!(handed_out, lasers);
}

#[test]
fn absorption_forces_with_more_lasers_than_a_batch() {
    let lasers: Vec<u16> = (0..20).collect();
    let applied = CalculateAbsorptionForcesSystem.run(&lasers, &vec![false, true]);
    assert_eq!(applied, vec![lasers, Vec::new()]);
}
