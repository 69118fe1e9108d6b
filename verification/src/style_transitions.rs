//! Transitions of style properties between the values that a view asks for.

use crate::geometry::{Bounds, Pixels};
use vstd::prelude::*;

verus! {

/// What a transition needs to know of the element that it styles.
#[derive(Clone, Copy, Debug)]
pub struct StyleTransitionContext {
    /// The size of a rem.
    pub rem_size: Pixels,
    /// The largest radius that a corner of the element can have.
    pub max_corner_radius: Pixels,
}

impl StyleTransitionContext {
    /// The context of an element with these bounds: no corner is rounder than half of the
    /// shorter side. Of a side that is not a number, nothing more is said than that half of one
    /// of the two sides is taken.
    pub fn new(bounds: Bounds<Pixels>, rem_size: Pixels) -> (context: Self)
        ensures
            context.rem_size == rem_size,
            !bounds.size.width.0.nan() && !bounds.size.height.0.nan() ==> context.max_corner_radius
                == Pixels(
                if bounds.size.width.0.rank() <= bounds.size.height.0.rank() {
                    bounds.size.width.0.halved()
                } else {
                    bounds.size.height.0.halved()
                },
            ),
            context.max_corner_radius == Pixels(bounds.size.width.0.halved())
                || context.max_corner_radius == Pixels(bounds.size.height.0.halved()),
    {
        let shorter: Pixels = if bounds.size.width.0.is_at_most(bounds.size.height.0) {
            bounds.size.width
        } else {
            bounds.size.height
        };
        StyleTransitionContext { rem_size, max_corner_radius: Pixels(shorter.0.halve()) }
    }
}

/// The value of an animation at one instant.
#[derive(Clone, Copy, Debug, PartialEq, Eq)]
pub struct Sample<T> {
    /// Whether the animation has yet to reach its goal.
    pub is_active: bool,
    /// The value.
    pub value: T,
}

/// A value that moves towards a goal.
pub trait Animated: Sized {
    /// What is animated.
    type Value: Clone;

    /// How the value moves.
    type Motion;

    /// A point in time.
    type Instant: Copy;

    /// A value that rests at its goal.
    fn new(goal: Self::Value) -> Self;

    /// Rests at a goal at once.
    fn jump_to(self, goal: Self::Value) -> Self;

    /// Moves towards a goal from now on.
    fn set(self, goal: Self::Value, motion: &Self::Motion, now: Self::Instant) -> Self;

    /// The value now.
    fn sample(self, motion: &Self::Motion, now: Self::Instant) -> (Self, Sample<Self::Value>);

    /// The value as it last was.
    fn value(&self) -> Self::Value;
}

/// The transition of one style property, which may be absent.
pub struct StyleTransitionPropertyState<A> {
    animated: Option<A>,
}

/// `after` is what a property becomes when it rests at a goal at once: its animation jumps there,
/// a new one starts there, and without a goal there is none.
pub open spec fn is_jumped<A: Animated>(
    before: Option<A>,
    goal: Option<A::Value>,
    after: Option<A>,
) -> bool {
    match goal {
        Some(goal) => {
            &&& after matches Some(animated)
            &&& match before {
                Some(before) => call_ensures(A::jump_to, (before, goal), animated),
                None => call_ensures(A::new, (goal,), animated),
            }
        },
        None => after is None,
    }
}

/// `animated` starts at a goal, of which it holds a clone.
pub open spec fn is_started<A: Animated>(goal: A::Value, animated: A) -> bool {
    exists|start: A::Value| #[trigger]
        call_ensures(A::new, (start,), animated) && cloned(goal, start)
}

/// `after` and `result` are what a property whose animation moves towards a goal becomes and
/// gives.
pub open spec fn is_moved<A: Animated>(
    before: A,
    goal: A::Value,
    motion: &A::Motion,
    now: A::Instant,
    after: Option<A>,
    result: (bool, Option<A::Value>),
) -> bool {
    exists|moving: A, sampled: (A, Sample<A::Value>)|
        {
            &&& #[trigger] call_ensures(A::set, (before, goal, motion, now), moving)
            &&& #[trigger] call_ensures(A::sample, (moving, motion, now), sampled)
            &&& after == Some(sampled.0)
            &&& result == (sampled.1.is_active, Some(sampled.1.value))
        }
}

/// `after` and `result` are what a property becomes and gives when it is evaluated.
///
/// With reduced motion it jumps to its goal. Otherwise one without a goal vanishes, one that
/// appears starts at its goal, and another moves towards it.
pub open spec fn is_evaluated<A: Animated>(
    before: Option<A>,
    goal: Option<A::Value>,
    motion: &A::Motion,
    now: A::Instant,
    reduce_motion: bool,
    after: Option<A>,
    result: (bool, Option<A::Value>),
) -> bool {
    if reduce_motion {
        &&& is_jumped(before, goal, after)
        &&& !result.0
        &&& match (after, result.1) {
            (Some(animated), Some(value)) => call_ensures(A::value, (&animated,), value),
            (None, None) => true,
            _ => false,
        }
    } else {
        match (goal, before) {
            (None, _) => after is None && result == (false, None::<A::Value>),
            (Some(goal), None) => {
                &&& after matches Some(animated)
                &&& is_started(goal, animated)
                &&& result == (false, Some(goal))
            },
            (Some(goal), Some(before)) => is_moved(before, goal, motion, now, after, result),
        }
    }
}

impl<A: Animated> StyleTransitionPropertyState<A> {
    /// The animation, while the property is present.
    pub closed spec fn animation(&self) -> Option<A> {
        self.animated
    }

    /// A property that rests at its first goal, if it has one.
    pub fn new(initial_goal: Option<A::Value>) -> (state: Self)
        ensures
            is_jumped(None, initial_goal, state.animation()),
    {
        match initial_goal {
            Some(goal) => StyleTransitionPropertyState { animated: Some(A::new(goal)) },
            None => StyleTransitionPropertyState { animated: None },
        }
    }

    /// Rests at the goal at once, or forgets the property.
    pub fn jump_to(&mut self, goal: Option<A::Value>)
        ensures
            is_jumped(old(self).animation(), goal, final(self).animation()),
    {
        match goal {
            None => {
                self.animated = None;
            },
            Some(goal) => {
                let held: Option<A> = self.animated.take();
                match held {
                    Some(animated) => {
                        self.animated = Some(animated.jump_to(goal));
                    },
                    None => {
                        self.animated = Some(A::new(goal));
                    },
                }
            },
        }
    }

    /// The property's value now, and whether it is still moving.
    ///
    /// With reduced motion the property jumps to its goal. A property that is absent vanishes,
    /// and one that appears starts at its goal; neither is a motion.
    pub fn evaluate(
        &mut self,
        goal: Option<A::Value>,
        motion: &A::Motion,
        now: A::Instant,
        reduce_motion: bool,
    ) -> (result: (bool, Option<A::Value>))
        ensures
            is_evaluated(
                old(self).animation(),
                goal,
                motion,
                now,
                reduce_motion,
                final(self).animation(),
                result,
            ),
    {
        if reduce_motion {
            self.jump_to(goal);
            return match &self.animated {
                Some(animated) => (false, Some(animated.value())),
                None => (false, None),
            };
        }
        let goal: A::Value = match goal {
            Some(goal) => goal,
            None => {
                self.animated = None;
                return (false, None);
            },
        };
        let held: Option<A> = self.animated.take();
        match held {
            None => {
                let start: A::Value = goal.clone();
                let animated: A = A::new(start);
                assert(is_started(goal, animated));
                self.animated = Some(animated);
                (false, Some(goal))
            },
            Some(animated) => {
                let moving: A = animated.set(goal, motion, now);
                let sampled: (A, Sample<A::Value>) = moving.sample(motion, now);
                assert(is_moved(
                    animated,
                    goal,
                    motion,
                    now,
                    Some(sampled.0),
                    (sampled.1.is_active, Some(sampled.1.value)),
                ));
                self.animated = Some(sampled.0);
                (sampled.1.is_active, Some(sampled.1.value))
            },
        }
    }
}

/// `rests_at` tells of an animation at which value it rests: a new one and one that jumped rest
/// at their goal, and one that rests somewhere has that value.
pub open spec fn tells_rest<A: Animated>(rests_at: spec_fn(A, A::Value) -> bool) -> bool {
    &&& forall|goal: A::Value, animated: A| #[trigger]
        call_ensures(A::new, (goal,), animated) ==> rests_at(animated, goal)
    &&& forall|before: A, goal: A::Value, animated: A| #[trigger]
        call_ensures(A::jump_to, (before, goal), animated) ==> rests_at(animated, goal)
    &&& forall|animated: A, at: A::Value, value: A::Value|
        #[trigger] rests_at(animated, at) && #[trigger] call_ensures(
            A::value,
            (&animated,),
            value,
        ) ==> value == at
}

/// A motion leaves an animation that rests where it is for as long as no time has passed: it is
/// still there, and moving, when it has just been given another goal.
pub open spec fn starts_from_rest<A: Animated>(
    rests_at: spec_fn(A, A::Value) -> bool,
    motion: &A::Motion,
) -> bool {
    forall|
        resting: A,
        at: A::Value,
        goal: A::Value,
        now: A::Instant,
        moving: A,
        sampled: (A, Sample<A::Value>),
    |
        {
            &&& rests_at(resting, at)
            &&& goal != at
            &&& #[trigger] call_ensures(A::set, (resting, goal, motion, now), moving)
            &&& #[trigger] call_ensures(A::sample, (moving, motion, now), sampled)
        } ==> #[trigger] is_active_at(at, sampled.1)
}

/// Whether a sample is that of an animation which is moving and has a value.
pub open spec fn is_active_at<T>(value: T, sample: Sample<T>) -> bool {
    sample.is_active && sample.value == value
}

/// With reduced motion a property is at its goal at once, and not moving, whatever it was doing.
pub proof fn law_reduced_motion_rests_at_the_goal<A: Animated>(
    rests_at: spec_fn(A, A::Value) -> bool,
    before: Option<A>,
    goal: Option<A::Value>,
    motion: &A::Motion,
    now: A::Instant,
    after: Option<A>,
    result: (bool, Option<A::Value>),
)
    requires
        tells_rest(rests_at),
        is_evaluated(before, goal, motion, now, true, after, result),
    ensures
        result == (false, goal),
        goal matches Some(goal) ==> (after matches Some(animated) && rests_at(animated, goal)),
{
    if goal is Some {
        let animated = after->0;
        assert(rests_at(animated, goal->0));
        assert(call_ensures(A::value, (&animated,), result.1->0));
    }
}

/// A property that jumped with reduced motion, and is then given another goal, moves from the
/// value that it jumped to.
pub proof fn law_motion_starts_where_reduced_motion_left_off<A: Animated>(
    rests_at: spec_fn(A, A::Value) -> bool,
    before: Option<A>,
    jumped: A::Value,
    motion: &A::Motion,
    earlier: A::Instant,
    between: Option<A>,
    first: (bool, Option<A::Value>),
    goal: A::Value,
    now: A::Instant,
    after: Option<A>,
    second: (bool, Option<A::Value>),
)
    requires
        tells_rest(rests_at),
        starts_from_rest(rests_at, motion),
        goal != jumped,
        is_evaluated(before, Some(jumped), motion, earlier, true, between, first),
        is_evaluated(between, Some(goal), motion, now, false, after, second),
    ensures
        first == (false, Some(jumped)),
        second == (true, Some(jumped)),
{
    law_reduced_motion_rests_at_the_goal(
        rests_at,
        before,
        Some(jumped),
        motion,
        earlier,
        between,
        first,
    );
    let resting = between->0;
    let (moving, sampled) = choose|moving: A, sampled: (A, Sample<A::Value>)|
        {
            &&& #[trigger] call_ensures(A::set, (resting, goal, motion, now), moving)
            &&& #[trigger] call_ensures(A::sample, (moving, motion, now), sampled)
            &&& after == Some(sampled.0)
            &&& second == (sampled.1.is_active, Some(sampled.1.value))
        };
    assert(rests_at(resting, jumped));
    assert(call_ensures(A::set, (resting, goal, motion, now), moving));
    assert(is_active_at(jumped, sampled.1));
}

/// A property without a goal vanishes, at once and without motion.
pub proof fn law_properties_without_a_goal_vanish<A: Animated>(
    before: Option<A>,
    motion: &A::Motion,
    now: A::Instant,
    reduce_motion: bool,
    after: Option<A>,
    result: (bool, Option<A::Value>),
)
    requires
        is_evaluated(before, None::<A::Value>, motion, now, reduce_motion, after, result),
    ensures
        after is None,
        !result.0,
        result.1 is None,
{
}

/// A property that appears has its goal as its value, does not move, and is animated from a copy
/// of the goal on.
pub proof fn law_appearing_properties_start_at_the_goal<A: Animated>(
    goal: A::Value,
    motion: &A::Motion,
    now: A::Instant,
    after: Option<A>,
    result: (bool, Option<A::Value>),
)
    requires
        is_evaluated(None::<A>, Some(goal), motion, now, false, after, result),
    ensures
        result == (false, Some(goal)),
        exists|start: A::Value, animated: A|
            {
                &&& #[trigger] call_ensures(A::new, (start,), animated)
                &&& cloned(goal, start)
                &&& after == Some(animated)
            },
{
}

/// A property that is there moves towards its goal: its own animation is given the goal and the
/// motion as of now, and its sample as of now is the value, and tells whether it moves.
pub proof fn law_present_properties_move_to_the_goal<A: Animated>(
    before: A,
    goal: A::Value,
    motion: &A::Motion,
    now: A::Instant,
    after: Option<A>,
    result: (bool, Option<A::Value>),
)
    requires
        is_evaluated(Some(before), Some(goal), motion, now, false, after, result),
    ensures
        exists|moving: A, sampled: (A, Sample<A::Value>)|
            {
                &&& #[trigger] call_ensures(A::set, (before, goal, motion, now), moving)
                &&& #[trigger] call_ensures(A::sample, (moving, motion, now), sampled)
                &&& after == Some(sampled.0)
                &&& result.0 == sampled.1.is_active
                &&& result.1 == Some(sampled.1.value)
            },
{
}

/// With reduced motion a property that is there jumps to its goal, and one that appears starts
/// there; its value is the animation's.
pub proof fn law_reduced_motion_jumps<A: Animated>(
    before: Option<A>,
    goal: A::Value,
    motion: &A::Motion,
    now: A::Instant,
    after: Option<A>,
    result: (bool, Option<A::Value>),
)
    requires
        is_evaluated(before, Some(goal), motion, now, true, after, result),
    ensures
        !result.0,
        after is Some,
        result.1 is Some,
        before matches Some(before) ==> call_ensures(A::jump_to, (before, goal), after->0),
        before is None ==> call_ensures(A::new, (goal,), after->0),
        call_ensures(A::value, (&after->0,), result.1->0),
{
}

/// A property that is set at once has an animation exactly if it has a goal.
pub proof fn law_jumps_rest_at_the_goal<A: Animated>(
    before: Option<A>,
    goal: Option<A::Value>,
    after: Option<A>,
)
    requires
        is_jumped(before, goal, after),
    ensures
        goal is None ==> after is None,
        goal matches Some(goal) ==> after is Some && (before matches Some(before) ==> call_ensures(
            A::jump_to,
            (before, goal),
            after->0,
        )) && (before is None ==> call_ensures(A::new, (goal,), after->0)),
{
}

} // verus!
