use atomecs::sim_region::{
    attach_region_tests_to_newly_created, clear_region_tests, delete_failed_region_tests, perform_region_tests,
    region_step, RegionTest, SimulationVolume, TestResult, VolumeType,
};
use rand::Rng;

fn untested(n: usize) -> Vec<RegionTest> {
    vec![RegionTest { result: TestResult::Untested }; n]
}

#[test]
fn test_clear_region_tests_system() {
    let mut tests = vec![RegionTest { result: TestResult::Accept }];
    clear_region_tests(&mut tests);
    let volume_results: Vec<bool> = delete_failed_region_tests(&tests);
    assert_eq!(volume_results, vec![false]);
    match tests[0].result {
        TestResult::Untested => (),
        _ => panic!("Result not set to Result::Untested."),
    };
}

// The shapes' containment tests are floating point and stand outside the library, so
// these two tests compute containment themselves and check what the region tests make
// of it.
#[test]
fn region_tests_follow_sphere_containment() {
    let mut rng = rand::thread_rng();
    let sphere_pos = [1.0f64, 1.0, 1.0];
    let sphere_radius = 1.0f64;
    let volume = SimulationVolume { volume_type: VolumeType::Inclusive };

    let mut expected = Vec::new();
    let mut contained = Vec::new();
    for _ in 0..100 {
        let pos = [rng.gen_range(-2.0..2.0), rng.gen_range(-2.0..2.0), rng.gen_range(-2.0..2.0)];
        let d: Vec<f64> = (0..3).map(|i| pos[i] - sphere_pos[i]).collect();
        let inside = d[0] * d[0] + d[1] * d[1] + d[2] * d[2] < sphere_radius * sphere_radius;
        expected.push(inside);
        contained.push(inside);
    }
    let mut tests = untested(100);
    perform_region_tests(&volume, &contained, &mut tests);

    for (test, result) in tests.iter().zip(expected) {
        match test.result {
            TestResult::Failed => assert!(!result, "Incorrect Failed"),
            TestResult::Accept => assert!(result, "Incorrect Accept"),
            _ => panic!("Result must be either Failed or Accept"),
        }
    }
}

#[test]
fn region_tests_follow_cuboid_containment() {
    let mut rng = rand::thread_rng();
    let cuboid_pos = [1.0f64, 1.0, 1.0];
    let half_width = [0.2f64, 0.3, 0.1];
    let volume = SimulationVolume { volume_type: VolumeType::Inclusive };

    let mut expected = Vec::new();
    let mut contained = Vec::new();
    for _ in 0..100 {
        let pos = [rng.gen_range(-2.0..2.0), rng.gen_range(-2.0..2.0), rng.gen_range(-2.0..2.0)];
        let inside = (0..3).all(|i| (pos[i] - cuboid_pos[i]).abs() < half_width[i]);
        expected.push(inside);
        contained.push(inside);
    }
    let mut tests = untested(100);
    perform_region_tests(&volume, &contained, &mut tests);

    for (test, result) in tests.iter().zip(expected) {
        match test.result {
            TestResult::Failed => assert!(!result, "Incorrect Failed"),
            TestResult::Accept => assert!(result, "Incorrect Accept"),
            _ => panic!("Result must be either Failed or Accept"),
        }
    }
}

#[test]
fn test_region_tests_are_added() {
    let newly_created = vec![true];
    let mut tests: Vec<Option<RegionTest>> = vec![None];
    attach_region_tests_to_newly_created(&newly_created, &mut tests);
    assert!(tests[0].is_some());
}

#[test]
fn region_tests_added_only_to_new_entities() {
    let newly_created = vec![false, true];
    let mut tests = vec![Some(RegionTest { result: TestResult::Accept }), Some(RegionTest { result: TestResult::Reject })];
    attach_region_tests_to_newly_created(&newly_created, &mut tests);
    assert_eq!(
        tests,
        vec![Some(RegionTest { result: TestResult::Accept }), Some(RegionTest { result: TestResult::Untested })]
    );
}

#[test]
fn region_step_table() {
    let (u, f, a, r) = (TestResult::Untested, TestResult::Failed, TestResult::Accept, TestResult::Reject);
    let (inc, exc) = (VolumeType::Inclusive, VolumeType::Exclusive);
    assert_eq!(region_step(u, inc, true), a);
    assert_eq!(region_step(u, inc, false), f);
    assert_eq!(region_step(f, inc, true), a);
    assert_eq!(region_step(a, inc, false), a);
    assert_eq!(region_step(u, exc, true), r);
    assert_eq!(region_step(a, exc, true), r);
    assert_eq!(region_step(u, exc, false), u);
    assert_eq!(region_step(r, inc, true), r);
    assert_eq!(region_step(r, exc, false), r);
}

#[test]
fn exclusive_volume_rejects_whatever_order() {
    // An entity inside an exclusive volume is deleted, whatever inclusive volumes say,
    // and whichever volume is tested first.
    let inclusive = SimulationVolume { volume_type: VolumeType::Inclusive };
    let exclusive = SimulationVolume { volume_type: VolumeType::Exclusive };
    let mut first = untested(1);
    perform_region_tests(&exclusive, &vec![true], &mut first);
    perform_region_tests(&inclusive, &vec![true], &mut first);
    let mut second = untested(1);
    perform_region_tests(&inclusive, &vec![true], &mut second);
    perform_region_tests(&exclusive, &vec![true], &mut second);
    assert_eq!(first[0].result, TestResult::Reject);
    assert_eq!(second[0].result, TestResult::Reject);
    assert_eq!(delete_failed_region_tests(&first), vec![true]);
}

#[test]
fn entity_outside_all_inclusive_volumes_is_deleted() {
    let inclusive = SimulationVolume { volume_type: VolumeType::Inclusive };
    let mut tests = untested(3);
    perform_region_tests(&inclusive, &vec![true, false, false], &mut tests);
    perform_region_tests(&inclusive, &vec![false, false, true], &mut tests);
    assert_eq!(delete_failed_region_tests(&tests), vec![false, true, false]);
}

#[test]
fn entity_with_no_volumes_survives() {
    let tests = untested(2);
    assert_eq!(delete_failed_region_tests(&tests), vec![false, false]);
}
