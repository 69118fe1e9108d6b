//! Timing and easing of motion.

use std::time::Duration;
use vstd::prelude::*;

verus! {

/// Converts a motion duration into a [`Duration`].
pub trait IntoMotionDuration: Sized {
    /// Converts this value into a duration.
    fn into_motion_duration(self) -> Duration;
}

impl IntoMotionDuration for Duration {
    fn into_motion_duration(self) -> (duration: Duration)
        ensures
            duration == self,
    {
        self
    }
}

/// Progress that is not eased.
#[derive(Clone, Copy, Debug, PartialEq, Eq, Hash, Structural)]
pub struct Linear;

/// Timing and easing configuration for motion.
#[derive(Debug)]
pub struct MotionInfo<E = Linear> {
    /// How long the motion runs.
    pub duration: Duration,
    /// Maps linear progress to eased progress.
    pub easing: E,
}

impl<E: Clone> Clone for MotionInfo<E> {
    fn clone(&self) -> (motion: Self)
        ensures
            motion.duration == self.duration,
            cloned(self.easing, motion.easing),
    {
        MotionInfo { duration: self.duration, easing: self.easing.clone() }
    }
}

impl MotionInfo<Linear> {
    /// Creates a linear motion with the supplied duration.
    ///
    /// A `Duration` is used as it is.
    pub fn new<D: IntoMotionDuration>(duration: D) -> (motion: Self)
        ensures
            call_ensures(D::into_motion_duration, (duration,), motion.duration),
            motion.easing == Linear,
    {
        MotionInfo { duration: duration.into_motion_duration(), easing: Linear }
    }
}

impl<E> MotionInfo<E> {
    /// Replaces the easing function.
    pub fn with_easing<F>(self, easing: F) -> (motion: MotionInfo<F>)
        ensures
            motion.duration == self.duration,
            motion.easing == easing,
    {
        MotionInfo { duration: self.duration, easing }
    }
}

impl From<Duration> for MotionInfo<Linear> {
    fn from(duration: Duration) -> (motion: Self) {
        MotionInfo::new(duration)
    }
}

impl vstd::std_specs::convert::FromSpecImpl<Duration> for MotionInfo<Linear> {
    open spec fn obeys_from_spec() -> bool {
        true
    }

    open spec fn from_spec(duration: Duration) -> Self {
        MotionInfo { duration, easing: Linear }
    }
}

} // verus!
