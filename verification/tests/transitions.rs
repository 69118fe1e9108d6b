use gpui_text::motion_info::{IntoMotionDuration, Linear, MotionInfo};
use gpui_text::style_transitions::{Animated, Sample, StyleTransitionPropertyState};
use std::time::Duration;

/// A value that moves one step per instant.
struct Stepper {
    value: i32,
    goal: i32,
    last: u32,
}

impl Animated for Stepper {
    type Value = i32;
    type Motion = i32;
    type Instant = u32;

    fn new(goal: i32) -> Stepper {
        Stepper { value: goal, goal, last: 0 }
    }

    fn jump_to(self, goal: i32) -> Stepper {
        Stepper { value: goal, goal, ..self }
    }

    fn set(self, goal: i32, _motion: &i32, now: u32) -> Stepper {
        if self.goal == goal {
            return self;
        }
        Stepper { goal, last: now, ..self }
    }

    fn sample(self, motion: &i32, now: u32) -> (Stepper, Sample<i32>) {
        let step = *motion * (now - self.last) as i32;
        let value = self.value + (self.goal - self.value).clamp(-step, step);
        let sample = Sample { is_active: value != self.goal, value };
        (Stepper { value, last: now, ..self }, sample)
    }

    fn value(&self) -> i32 {
        self.value
    }
}

#[test]
fn properties_start_at_their_goal_and_move_from_there() {
    let mut state: StyleTransitionPropertyState<Stepper> = StyleTransitionPropertyState::new(None);
    // One that appears starts at its goal.
    assert_eq!(state.evaluate(Some(10), &4, 0, false), (false, Some(10)));
    // One with a new goal moves.
    assert_eq!(state.evaluate(Some(20), &4, 1, false), (true, Some(10)));
    assert_eq!(state.evaluate(Some(20), &4, 2, false), (true, Some(14)));
    assert_eq!(state.evaluate(Some(20), &4, 4, false), (false, Some(20)));
    // One that vanishes is forgotten.
    assert_eq!(state.evaluate(None, &4, 5, false), (false, None));
    assert_eq!(state.evaluate(Some(3), &4, 6, false), (false, Some(3)));
}

#[test]
fn reduced_motion_jumps() {
    let mut state: StyleTransitionPropertyState<Stepper> =
        StyleTransitionPropertyState::new(Some(1));
    assert_eq!(state.evaluate(Some(9), &1, 1, true), (false, Some(9)));
    assert_eq!(state.evaluate(None, &1, 2, true), (false, None));
    assert_eq!(state.evaluate(Some(4), &1, 3, true), (false, Some(4)));
    state.jump_to(Some(8));
    assert_eq!(state.evaluate(Some(8), &1, 4, false), (false, Some(8)));
    state.jump_to(None);
    assert_eq!(state.evaluate(Some(2), &1, 5, false), (false, Some(2)));
}

#[test]
fn motion_starts_where_reduced_motion_left_off() {
    let mut state: StyleTransitionPropertyState<Stepper> =
        StyleTransitionPropertyState::new(Some(1));
    // It is on its way to another goal when motion is reduced.
    assert_eq!(state.evaluate(Some(30), &4, 1, false), (true, Some(1)));
    assert_eq!(state.evaluate(Some(30), &4, 2, false), (true, Some(5)));
    assert_eq!(state.evaluate(Some(9), &4, 3, true), (false, Some(9)));
    assert_eq!(state.evaluate(Some(20), &4, 5, false), (true, Some(9)));
    assert_eq!(state.evaluate(Some(20), &4, 6, false), (true, Some(13)));
}

struct Milliseconds(u64);

impl IntoMotionDuration for Milliseconds {
    fn into_motion_duration(self) -> Duration {
        Duration::from_millis(self.0)
    }
}

#[test]
fn motions_keep_their_duration_when_their_easing_changes() {
    let motion = MotionInfo::new(Milliseconds(250));
    assert_eq!(motion.duration, Duration::from_millis(250));
    assert_eq!(motion.easing, Linear);
    let eased = motion.clone().with_easing("ease out");
    assert_eq!((eased.duration, eased.easing), (motion.duration, "ease out"));
    assert_eq!(eased.clone().easing, "ease out");
    let whole = MotionInfo::from(Duration::from_secs(2));
    assert_eq!(whole.duration, MotionInfo::new(Duration::from_secs(2)).duration);
}
