use atomecs::ramp::{ramp_position, RampPosition};

struct Ramp {
    keyframes: Vec<(f64, f64)>,
}

impl Ramp {
    fn get_value(&self, current_time: f64) -> f64 {
        let past: Vec<bool> = self.keyframes.iter().map(|(t, _)| current_time > *t).collect();
        match ramp_position(&past) {
            RampPosition::AtEnd(i) => self.keyframes[i].1,
            RampPosition::Between(a, b) => {
                let (t1, va) = self.keyframes[a];
                let (t2, vb) = self.keyframes[b];
                let amount = (current_time - t1) / (t2 - t1);
                va - (va - vb) * amount
            }
        }
    }
}

#[test]
fn test_ramp() {
    let ramp = Ramp { keyframes: vec![(0.0, 0.0), (1.0, 1.0), (2.0, 0.0)] };
    for (t, expected) in [(0.0, 0.0), (0.5, 0.5), (1.0, 1.0), (1.5, 0.5), (2.0, 0.0), (2.5, 0.0)] {
        let value = ramp.get_value(t);
        assert!((value - expected).abs() <= f64::EPSILON, "{} at {}", value, t);
    }
}

#[test]
fn fresh_ramp_past_the_end_holds_last_value() {
    let ramp = Ramp { keyframes: vec![(0.0, 0.0), (1.0, 1.0), (2.0, 0.0)] };
    assert_eq!(ramp.get_value(2.5), 0.0);
    assert!((ramp.get_value(0.5) - 0.5).abs() <= f64::EPSILON);
}

#[test]
fn ramp_position_counts_passed_keyframes() {
    assert_eq!(ramp_position(&vec![true, false, false]), RampPosition::Between(0, 1));
    assert_eq!(ramp_position(&vec![false, false, false]), RampPosition::Between(0, 1));
    assert_eq!(ramp_position(&vec![true, true, false]), RampPosition::Between(1, 2));
    assert_eq!(ramp_position(&vec![true, true, true]), RampPosition::AtEnd(2));
}

#[test]
fn single_keyframe_ramp_is_constant() {
    assert_eq!(ramp_position(&vec![true]), RampPosition::AtEnd(0));
    assert_eq!(ramp_position(&vec![false]), RampPosition::AtEnd(0));
}
