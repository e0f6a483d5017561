//! Support for volumes to define simulation regions.
//!
//! Entities are tested against every simulation volume, and deleted based on their
//! position compared to the defined volumes. Whether a volume contains an entity is
//! decided by the volume's shape; here that answer is taken as given.
use vstd::prelude::*;

verus! {

/// How a simulation volume treats the entities it contains.
#[derive(Clone, Copy, Debug, PartialEq, Eq, Structural)]
pub enum VolumeType {
    /// Entities within the volume are accepted
    Inclusive,
    /// Entities outside the volume are accepted, entities within are rejected.
    Exclusive,
}

/// All possible results of region testing.
#[derive(Clone, Copy, Debug, PartialEq, Eq, Structural)]
pub enum TestResult {
    /// The entity has not yet been tested
    Untested,
    /// The entity has been tested and failed at least once, but has not yet been outright rejected.
    Failed,
    /// The entity has been accepted _so far_.
    Accept,
    /// The entity is outright rejected.
    Reject,
}

/// Component that marks an entity should be region tested.
#[derive(Clone, Copy, Debug, PartialEq, Eq, Structural)]
pub struct RegionTest {
    pub result: TestResult,
}

/// Component marking an entity as a simulation volume of the given type.
#[derive(Clone, Copy, Debug, PartialEq, Eq, Structural)]
pub struct SimulationVolume {
    pub volume_type: VolumeType,
}

/// The result of testing an entity against one volume, given the previous result and
/// whether the volume contains the entity.
pub open spec fn spec_region_step(result: TestResult, volume_type: VolumeType, contained: bool) -> TestResult {
    match result {
        TestResult::Reject => TestResult::Reject,
        _ => match volume_type {
            VolumeType::Inclusive => if contained {
                TestResult::Accept
            } else if result == TestResult::Untested {
                TestResult::Failed
            } else {
                result
            },
            VolumeType::Exclusive => if contained {
                TestResult::Reject
            } else {
                result
            },
        },
    }
}

/// Tests one entity against one volume.
///
/// For `Inclusive` volumes, the test result is set to either `Failed` or `Accept`,
/// depending on whether the volume contains the entity. No entity is outright rejected.
///
/// For `Exclusive` volumes, the test result is set to `Reject` if the volume contains the entity.
pub fn region_step(result: TestResult, volume_type: VolumeType, contained: bool) -> (r: TestResult)
    ensures
        r == spec_region_step(result, volume_type, contained),
{
    match result {
        TestResult::Reject => TestResult::Reject,
        _ => match volume_type {
            VolumeType::Inclusive => {
                if contained {
                    TestResult::Accept
                } else if let TestResult::Untested = result {
                    TestResult::Failed
                } else {
                    result
                }
            },
            VolumeType::Exclusive => {
                if contained {
                    TestResult::Reject
                } else {
                    result
                }
            },
        },
    }
}

/// Performs region tests for a volume of the given type.
///
/// `contained[e]` tells whether the volume contains entity `e`; `tests[e]` is the
/// entity's region test, updated in place.
pub fn perform_region_tests(volume: &SimulationVolume, contained: &Vec<bool>, tests: &mut Vec<RegionTest>)
    requires
        contained.len() == old(tests).len(),
    ensures
        final(tests).len() == old(tests).len(),
        forall|e: int|
            0 <= e < old(tests).len() ==> (#[trigger] final(tests)@[e]).result == spec_region_step(
                old(tests)@[e].result,
                volume.volume_type,
                contained@[e],
            ),
{
    let mut e: usize = 0;
    while e < tests.len()
        invariant
            e <= tests.len(),
            tests.len() == old(tests).len(),
            contained.len() == tests.len(),
            forall|j: int|
                0 <= j < e ==> (#[trigger] tests@[j]).result == spec_region_step(
                    old(tests)@[j].result,
                    volume.volume_type,
                    contained@[j],
                ),
            forall|j: int| e <= j < tests.len() ==> #[trigger] tests@[j] == old(tests)@[j],
        decreases tests.len() - e,
    {
        let r = region_step(tests[e].result, volume.volume_type, contained[e]);
        tests.set(e, RegionTest { result: r });
        e = e + 1;
    }
}

/// Sets all region test results to `Untested`.
pub fn clear_region_tests(tests: &mut Vec<RegionTest>)
    ensures
        final(tests).len() == old(tests).len(),
        forall|e: int| 0 <= e < final(tests).len() ==> (#[trigger] final(tests)@[e]).result == TestResult::Untested,
{
    let mut e: usize = 0;
    while e < tests.len()
        invariant
            e <= tests.len(),
            tests.len() == old(tests).len(),
            forall|j: int| 0 <= j < e ==> (#[trigger] tests@[j]).result == TestResult::Untested,
        decreases tests.len() - e,
    {
        tests.set(e, RegionTest { result: TestResult::Untested });
        e = e + 1;
    }
}

/// True when an entity with this result is deleted.
pub open spec fn is_deleted(result: TestResult) -> bool {
    result == TestResult::Reject || result == TestResult::Failed
}

/// Tells, for each region test, whether its entity is deleted: those with result
/// `Reject` or `Failed`.
pub fn delete_failed_region_tests(tests: &Vec<RegionTest>) -> (delete: Vec<bool>)
    ensures
        delete.len() == tests.len(),
        forall|e: int| 0 <= e < tests.len() ==> #[trigger] delete@[e] == is_deleted(tests@[e].result),
{
    let mut delete: Vec<bool> = Vec::new();
    let mut e: usize = 0;
    while e < tests.len()
        invariant
            e <= tests.len(),
            delete.len() == e,
            forall|j: int| 0 <= j < e ==> #[trigger] delete@[j] == is_deleted(tests@[j].result),
        decreases tests.len() - e,
    {
        let d = match tests[e].result {
            TestResult::Reject | TestResult::Failed => true,
            _ => false,
        };
        delete.push(d);
        e = e + 1;
    }
    delete
}

/// Attaches an `Untested` region test to every newly created entity.
///
/// `newly_created[e]` tells whether entity `e` was created this step; `tests[e]` holds
/// its region test, if any.
pub fn attach_region_tests_to_newly_created(newly_created: &Vec<bool>, tests: &mut Vec<Option<RegionTest>>)
    requires
        newly_created.len() == old(tests).len(),
    ensures
        final(tests).len() == old(tests).len(),
        forall|e: int|
            0 <= e < old(tests).len() ==> #[trigger] final(tests)@[e] == if newly_created@[e] {
                Some(RegionTest { result: TestResult::Untested })
            } else {
                old(tests)@[e]
            },
{
    let mut e: usize = 0;
    while e < tests.len()
        invariant
            e <= tests.len(),
            tests.len() == old(tests).len(),
            newly_created.len() == tests.len(),
            forall|j: int|
                0 <= j < e ==> #[trigger] tests@[j] == if newly_created@[j] {
                    Some(RegionTest { result: TestResult::Untested })
                } else {
                    old(tests)@[j]
                },
            forall|j: int| e <= j < tests.len() ==> #[trigger] tests@[j] == old(tests)@[j],
        decreases tests.len() - e,
    {
        if newly_created[e] {
            tests.set(e, Some(RegionTest { result: TestResult::Untested }));
        }
        e = e + 1;
    }
}

/// The result of testing an entity, starting from `result`, against a sequence of
/// volumes: `volumes[k]` is the type of the k-th volume and whether it contains the entity.
pub open spec fn spec_region_tests(result: TestResult, volumes: Seq<(VolumeType, bool)>) -> TestResult
    decreases volumes.len(),
{
    if volumes.len() == 0 {
        result
    } else {
        spec_region_tests(
            spec_region_step(result, volumes[0].0, volumes[0].1),
            volumes.drop_first(),
        )
    }
}

/// Some volume of the given type contains the entity.
pub open spec fn some_volume_contains(volumes: Seq<(VolumeType, bool)>, t: VolumeType) -> bool {
    exists|k: int| 0 <= k < volumes.len() && #[trigger] volumes[k] == (t, true)
}

/// There is at least one volume of the given type.
pub open spec fn has_volume(volumes: Seq<(VolumeType, bool)>, t: VolumeType) -> bool {
    exists|k: int| 0 <= k < volumes.len() && (#[trigger] volumes[k]).0 == t
}

/// Region testing, from any starting result and over any volumes, in any order: the
/// entity ends `Reject` when it started so or an exclusive volume contains it; otherwise
/// `Accept` when it started so or an inclusive volume contains it; otherwise `Failed`
/// when it started so or there is an inclusive volume at all; otherwise `Untested`.
pub proof fn lemma_region_tests_classification(result: TestResult, volumes: Seq<(VolumeType, bool)>)
    ensures
        spec_region_tests(result, volumes) == if result == TestResult::Reject || some_volume_contains(
            volumes,
            VolumeType::Exclusive,
        ) {
            TestResult::Reject
        } else if result == TestResult::Accept || some_volume_contains(volumes, VolumeType::Inclusive) {
            TestResult::Accept
        } else if result == TestResult::Failed || has_volume(volumes, VolumeType::Inclusive) {
            TestResult::Failed
        } else {
            TestResult::Untested
        },
    decreases volumes.len(),
{
    if volumes.len() > 0 {
        let rest = volumes.drop_first();
        let next = spec_region_step(result, volumes[0].0, volumes[0].1);
        lemma_region_tests_classification(next, rest);
        assert forall|t: VolumeType| #[trigger] some_volume_contains(volumes, t) == ((volumes[0] == (t, true))
            || some_volume_contains(rest, t)) by {
            if some_volume_contains(volumes, t) {
                let k = choose|k: int| 0 <= k < volumes.len() && #[trigger] volumes[k] == (t, true);
                if k > 0 {
                    assert(rest[k - 1] == (t, true));
                }
            }
            if some_volume_contains(rest, t) {
                let k = choose|k: int| 0 <= k < rest.len() && #[trigger] rest[k] == (t, true);
                assert(volumes[k + 1] == (t, true));
            }
        }
        assert forall|t: VolumeType| #[trigger] has_volume(volumes, t) == ((volumes[0].0 == t) || has_volume(
            rest,
            t,
        )) by {
            if has_volume(volumes, t) {
                let k = choose|k: int| 0 <= k < volumes.len() && (#[trigger] volumes[k]).0 == t;
                if k > 0 {
                    assert(rest[k - 1].0 == t);
                }
            }
            if has_volume(rest, t) {
                let k = choose|k: int| 0 <= k < rest.len() && (#[trigger] rest[k]).0 == t;
                assert(volumes[k + 1].0 == t);
            }
        }
        assert(some_volume_contains(volumes, VolumeType::Exclusive) == ((volumes[0] == (
            VolumeType::Exclusive,
            true,
        )) || some_volume_contains(rest, VolumeType::Exclusive)));
        assert(some_volume_contains(volumes, VolumeType::Inclusive) == ((volumes[0] == (
            VolumeType::Inclusive,
            true,
        )) || some_volume_contains(rest, VolumeType::Inclusive)));
        assert(has_volume(volumes, VolumeType::Inclusive) == ((volumes[0].0 == VolumeType::Inclusive)
            || has_volume(rest, VolumeType::Inclusive)));
    }
}

/// An entity whose test was cleared and then run against every volume is deleted
/// exactly when an exclusive volume contains it, or when there is an inclusive volume
/// and no inclusive volume contains it. The order of the volumes does not matter.
pub proof fn lemma_region_tests_delete(volumes: Seq<(VolumeType, bool)>)
    ensures
        is_deleted(spec_region_tests(TestResult::Untested, volumes)) <==> (some_volume_contains(
            volumes,
            VolumeType::Exclusive,
        ) || (has_volume(volumes, VolumeType::Inclusive) && !some_volume_contains(
            volumes,
            VolumeType::Inclusive,
        ))),
{
    lemma_region_tests_classification(TestResult::Untested, volumes);
}

/// A rejected entity stays rejected whatever volumes it is tested against next.
pub proof fn lemma_reject_is_final(volumes: Seq<(VolumeType, bool)>)
    ensures
        spec_region_tests(TestResult::Reject, volumes) == TestResult::Reject,
{
    lemma_region_tests_classification(TestResult::Reject, volumes);
}

/// Region testing does not depend on the order in which the volumes test an entity:
/// volumes holding the same (type, containment) pairs, each as often, lead from any
/// starting result to the same result.
pub proof fn lemma_region_tests_order_independent(
    result: TestResult,
    a: Seq<(VolumeType, bool)>,
    b: Seq<(VolumeType, bool)>,
)
    requires
        a.to_multiset() == b.to_multiset(),
    ensures
        spec_region_tests(result, a) == spec_region_tests(result, b),
{
    broadcast use vstd::seq_lib::group_to_multiset_ensures;

    lemma_region_tests_classification(result, a);
    lemma_region_tests_classification(result, b);
    assert forall|t: VolumeType, c: bool| #[trigger] a.contains((t, c)) == b.contains((t, c)) by {
        assert(a.contains((t, c)) <==> a.to_multiset().count((t, c)) > 0);
        assert(b.contains((t, c)) <==> b.to_multiset().count((t, c)) > 0);
    }
    assert forall|t: VolumeType| #[trigger] some_volume_contains(a, t) == a.contains((t, true)) by {}
    assert forall|t: VolumeType| #[trigger] some_volume_contains(b, t) == b.contains((t, true)) by {}
    assert forall|t: VolumeType| #[trigger] has_volume(a, t) == (a.contains((t, true)) || a.contains((t, false))) by {
        if has_volume(a, t) {
            let k = choose|k: int| 0 <= k < a.len() && (#[trigger] a[k]).0 == t;
            assert(a[k] == (t, a[k].1));
        }
        if a.contains((t, false)) {
            let k = choose|k: int| 0 <= k < a.len() && a[k] == (t, false);
            assert(a[k].0 == t);
        }
    }
    assert forall|t: VolumeType| #[trigger] has_volume(b, t) == (b.contains((t, true)) || b.contains((t, false))) by {
        if has_volume(b, t) {
            let k = choose|k: int| 0 <= k < b.len() && (#[trigger] b[k]).0 == t;
            assert(b[k] == (t, b[k].1));
        }
        if b.contains((t, false)) {
            let k = choose|k: int| 0 <= k < b.len() && b[k] == (t, false);
            assert(b[k].0 == t);
        }
    }
}

} // verus!
