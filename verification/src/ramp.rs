//! Linear ramps of quantities between keyframes.
//!
//! A ramp holds the values a quantity takes at a list of keyframe times, in ascending
//! order, and the quantity is interpolated linearly between the two keyframes that
//! bracket the current time; past the last keyframe it keeps the last value. The values
//! and times belong to the quantity being ramped; here is the choice of the keyframes,
//! which depends on the current time alone.
use vstd::prelude::*;

use crate::output::detect::count_true;

verus! {

/// Where the current time falls among the keyframes.
#[derive(Clone, Copy, Debug, PartialEq, Eq, Structural)]
pub enum RampPosition {
    /// Past the last keyframe, whose value is used as it is.
    AtEnd(usize),
    /// Between two consecutive keyframes, whose values are interpolated.
    Between(usize, usize),
}

/// The position for a ramp of `len` keyframes when the current time lies past `passed`
/// of the keyframes after the first.
pub open spec fn spec_ramp_position(passed: nat, len: nat) -> RampPosition {
    if passed + 1 >= len {
        RampPosition::AtEnd((len - 1) as usize)
    } else {
        RampPosition::Between(passed as usize, (passed + 1) as usize)
    }
}

/// Chooses the keyframes for the current time.
///
/// `past[k]` tells whether the current time lies past keyframe `k`; the ramp has
/// `past.len()` keyframes, at least one. The time lies between keyframe `a` and `a + 1`,
/// where `a` counts the keyframes after the first that it lies past, or past the end.
pub fn ramp_position(past: &Vec<bool>) -> (position: RampPosition)
    requires
        past.len() > 0,
    ensures
        position == spec_ramp_position(count_true(past@.drop_first()), past.len() as nat),
{
    let ghost rest = past@.drop_first();
    let mut passed: usize = 0;
    let mut k: usize = 1;
    while k < past.len()
        invariant
            1 <= k <= past.len(),
            rest == past@.drop_first(),
            passed == count_true(rest.take(k - 1)),
            passed < k,
        decreases past.len() - k,
    {
        assert(rest.take(k as int).drop_last() =~= rest.take(k - 1));
        assert(rest.take(k as int).last() == past@[k as int]);
        if past[k] {
            passed = passed + 1;
        }
        k = k + 1;
    }
    assert(rest.take(past.len() - 1) =~= rest);
    if passed + 1 >= past.len() {
        RampPosition::AtEnd(past.len() - 1)
    } else {
        RampPosition::Between(passed, passed + 1)
    }
}

/// In a sequence whose `true` entries all come before its `false` ones, the `true`
/// entries are exactly the first `count_true` of them.
proof fn lemma_count_true_of_prefix(s: Seq<bool>)
    requires
        forall|i: int, j: int| 0 <= i < j < s.len() && #[trigger] s[j] ==> #[trigger] s[i],
    ensures
        count_true(s) <= s.len(),
        forall|i: int| 0 <= i < s.len() ==> (#[trigger] s[i] <==> i < count_true(s)),
    decreases s.len(),
{
    if s.len() > 0 {
        let init = s.drop_last();
        assert forall|i: int, j: int| 0 <= i < j < init.len() && #[trigger] init[j] implies #[trigger] init[i] by {
            assert(s[j] ==> s[i]);
        }
        lemma_count_true_of_prefix(init);
        assert forall|i: int| 0 <= i < s.len() implies (#[trigger] s[i] <==> i < count_true(s)) by {
            if i < s.len() - 1 {
                assert(init[i] == s[i]);
                if s.last() {
                    assert(s[i]);
                }
            }
        }
    }
}

/// The keyframes a ramp picks bracket the current time: with keyframe times in
/// ascending order, the time lies past keyframe `a` (unless `a` is the first) and not
/// past keyframe `a + 1`; the ramp is at its end only once the time lies past the last
/// keyframe (or there is only one). So the value depends on the current time alone.
/// (Times are counted here in whole units of some small time.)
pub proof fn lemma_ramp_brackets_time(times: Seq<int>, t: int, past: Seq<bool>)
    requires
        0 < times.len() <= usize::MAX,
        past.len() == times.len(),
        forall|i: int, j: int| 0 <= i < j < times.len() ==> #[trigger] times[i] <= #[trigger] times[j],
        forall|k: int| 0 <= k < times.len() ==> #[trigger] past[k] == (t > times[k]),
    ensures
        match spec_ramp_position(count_true(past.drop_first()), past.len()) {
            RampPosition::AtEnd(i) => i == times.len() - 1 && (times.len() == 1 || t > times[i as int]),
            RampPosition::Between(a, b) => b == a + 1 && b < times.len() && (a == 0 || t > times[a as int]) && t
                <= times[b as int],
        },
{
    let rest = past.drop_first();
    assert forall|i: int, j: int| 0 <= i < j < rest.len() && #[trigger] rest[j] implies #[trigger] rest[i] by {
        assert(past[j + 1] && times[i + 1] <= times[j + 1]);
        assert(past[i + 1]);
    }
    lemma_count_true_of_prefix(rest);
    let c = count_true(rest) as int;
    if c + 1 < past.len() {
        assert(!rest[c]);
        assert(rest[c] == past[c + 1]);
        assert(t <= times[c + 1]);
        if c > 0 {
            assert(rest[c - 1]);
            assert(rest[c - 1] == past[c]);
            assert(t > times[c]);
        }
    } else if past.len() > 1 {
        assert(rest[past.len() - 2]);
        assert(rest[past.len() - 2] == past[past.len() - 1]);
    }
}

} // verus!
