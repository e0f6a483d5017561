use atomecs::losses::select_lost_entities;
use atomecs::magnetic::grid::{get_field, grid_index};
use atomecs::magnetic::zeeman::AttachZeemanShiftSamplersToNewlyCreatedAtomsSystem;
use atomecs::optimization::{optimization_step, LargerEarlyTimestepOptimizationSystem, OptimizationState, TimestepChange};
use atomecs::rf_knife::{knife_method, resample_atoms_due, resample_removed_atoms, AtomRemovalMethod, RESAMPLE_ATOM_LIMIT};
use atomecs::oven::{AtomNumberToEmit, EmitNumberPerFrame, EmitNumberPerFrameSystem, OvenCreateAtomsSystem};

#[test]
fn test_attach_zeeman_sampler_to_newly_created_atoms() {
    let attach = AttachZeemanShiftSamplersToNewlyCreatedAtomsSystem.run(&vec![true], &vec![true]);
    assert!(attach[0]);
}

#[test]
fn zeeman_sampler_needs_new_atom_with_transition() {
    let attach = AttachZeemanShiftSamplersToNewlyCreatedAtomsSystem
        .run(&vec![true, true, false, false], &vec![true, false, true, false]);
    assert_eq!(attach, vec![true, false, false, false]);
}

#[test]
fn timestep_enlarged_by_factor_then_restored() {
    let mut state = Some(OptimizationState::StartOfSimulation);
    let factor = 4.0f64;
    let mut delta = 1.0e-6f64;
    let past = [false, false, false, true, false, true];
    let mut changes = Vec::new();
    for p in past {
        let change = LargerEarlyTimestepOptimizationSystem.run(&mut state, p);
        match change {
            TimestepChange::Enlarge => delta *= factor,
            TimestepChange::Restore => delta /= factor,
            TimestepChange::Keep => {}
        }
        if changes.is_empty() {
            assert_eq!(delta, 4.0e-6);
        }
        changes.push(change);
    }
    assert_eq!(delta, 1.0e-6);
    assert_eq!(state, Some(OptimizationState::LateSimulation));
    assert_eq!(
        changes,
        vec![
            TimestepChange::Enlarge,
            TimestepChange::Keep,
            TimestepChange::Keep,
            TimestepChange::Restore,
            TimestepChange::Keep,
            TimestepChange::Keep,
        ]
    );
}

#[test]
fn optimization_without_resource_does_nothing() {
    let mut state: Option<OptimizationState> = None;
    assert_eq!(LargerEarlyTimestepOptimizationSystem.run(&mut state, true), TimestepChange::Keep);
    assert_eq!(state, None);
    assert_eq!(
        optimization_step(OptimizationState::EarlySimulation, false),
        (OptimizationState::EarlySimulation, TimestepChange::Keep)
    );
}

#[test]
fn oven_numbers_copied_from_emit_per_frame() {
    let emit = vec![Some(EmitNumberPerFrame { number: 7 }), Some(EmitNumberPerFrame { number: 3 }), None];
    let mut to_emit = vec![Some(AtomNumberToEmit { number: 0 }), None, Some(AtomNumberToEmit { number: 2 })];
    EmitNumberPerFrameSystem.run(&emit, &mut to_emit);
    assert_eq!(to_emit, vec![Some(AtomNumberToEmit { number: 7 }), None, Some(AtomNumberToEmit { number: 2 })]);
}

#[test]
fn oven_creates_requested_atoms() {
    let numbers = vec![
        AtomNumberToEmit { number: 4 },
        AtomNumberToEmit { number: 0 },
        AtomNumberToEmit { number: -3 },
        AtomNumberToEmit { number: i32::MAX },
    ];
    assert_eq!(OvenCreateAtomsSystem.run(&numbers), vec![4, 0, 0, i32::MAX as u32]);
}

#[test]
fn grid_index_flattens_z_fastest() {
    let extent = [2, 3, 4];
    assert_eq!(grid_index(extent, [0, 0, 0]), 0);
    assert_eq!(grid_index(extent, [0, 0, 1]), 1);
    assert_eq!(grid_index(extent, [0, 1, 0]), 4);
    assert_eq!(grid_index(extent, [1, 0, 0]), 12);
    assert_eq!(grid_index(extent, [1, 2, 3]), 23);
}

#[test]
fn grid_index_clamps_outside_positions() {
    let extent = [2, 3, 4];
    assert_eq!(grid_index(extent, [-5, -1, -9]), 0);
    assert_eq!(grid_index(extent, [9, 9, 9]), 23);
    assert_eq!(grid_index([1, 1, 1], [i32::MIN, i32::MAX, 0]), 0);
}

#[test]
fn grid_field_lookup() {
    let extent = [2, 2, 2];
    let grid: Vec<u32> = (100..108).collect();
    assert_eq!(get_field(&grid, extent, [1, 0, 1]), 105);
    assert_eq!(get_field(&grid, extent, [5, 5, 5]), 107);
}


#[test]
fn lost_entities_are_distinct_members() {
    let entities: Vec<u32> = (10..30).collect();
    for amount in [0usize, 1, 7, 20] {
        let lost = select_lost_entities(&entities, amount);
        assert_eq!(lost.len(), amount);
        let mut sorted = lost.clone();
        sorted.sort();
        sorted.dedup();
        assert_eq!(sorted.len(), amount);
        assert!(lost.iter().all(|e| entities.contains(e)));
    }
}

#[test]
fn all_entities_lost_when_amount_is_cell_size() {
    let entities = vec![3u8, 1, 2];
    let mut lost = select_lost_entities(&entities, 3);
    lost.sort();
    assert_eq!(lost, vec![1, 2, 3]);
}

#[test]
fn rf_knife_resamples_only_removed_atoms() {
    let pool = vec![(1, 1), (2, 2), (3, 3), (4, 4)];
    let mut states = pool.clone();
    let removed = vec![false, true, false, true];
    let count = resample_removed_atoms(&pool, &mut states, &removed);
    assert_eq!(count, 2);
    assert_eq!(states[0], (1, 1));
    assert_eq!(states[2], (3, 3));
    assert!(pool.contains(&states[1]));
    assert!(pool.contains(&states[3]));
    assert_eq!(knife_method(), AtomRemovalMethod::Resample);
}

#[test]
fn rf_knife_with_nothing_removed() {
    let pool: Vec<i32> = Vec::new();
    let mut states: Vec<i32> = Vec::new();
    assert_eq!(resample_removed_atoms(&pool, &mut states, &Vec::new()), 0);
    let pool = vec![5];
    let mut states = vec![7, 8];
    assert_eq!(resample_removed_atoms(&pool, &mut states, &vec![false, false]), 0);
    assert_eq!(states, vec![7, 8]);
    assert_eq!(resample_removed_atoms(&pool, &mut states, &vec![true, true]), 2);
    assert_eq!(states, vec![5, 5]);
}

#[test]
fn resampling_stops_above_limit() {
    assert!(resample_atoms_due(0));
    assert!(resample_atoms_due(RESAMPLE_ATOM_LIMIT));
    assert!(!resample_atoms_due(4001));
}
