//! What holds of every search for design-space coordinates.

use crate::blob::settings_parts;
use crate::design::{
    are_design_variations, axes_searched, axis_searched, coordinate_at, is_guess, is_located,
    is_midpoint, searched, step_searched, targets_reached, DesignSpace, FontVariation, SearchState,
};
use crate::face::{face_axes, face_location, AxisRecord};
use crate::scalar::{computes, Computation, Scalar};
use skrifa::setting::VariationSetting;
use vstd::prelude::*;

verus! {

/// The coordinate of an axis: zero behind the last that is given.
pub open spec fn reached(coords: Seq<i16>, axis: int) -> i16 {
    if 0 <= axis < coords.len() {
        coords[axis]
    } else {
        0
    }
}

/// Whether every axis that a coordinate is asked for is at it.
pub open spec fn all_reached(coords: Seq<i16>, targets: Seq<i16>, axis_count: int) -> bool {
    forall|axis: int|
        0 <= axis < axis_count && axis < targets.len() ==> reached(coords, axis)
            == #[trigger] targets[axis]
}

/// There is one design-space coordinate for each axis of the face, with the axis's tag and in the
/// order of the axes. Where all normalized coordinates are zero, or none is given, the values are
/// the axes' defaults.
pub proof fn law_default_coordinates_stand_for_defaults<D: DesignSpace>(
    design: &D,
    source: (Seq<u8>, u32),
    targets: Seq<i16>,
    variations: Seq<FontVariation>,
    axis: int,
)
    requires
        are_design_variations(design, source, targets, variations),
        0 <= axis < face_axes(source.0, source.1).len(),
    ensures
        variations.len() == face_axes(source.0, source.1).len(),
        variations[axis].tag == face_axes(source.0, source.1)[axis].tag,
        (forall|other: int| 0 <= other < targets.len() ==> #[trigger] targets[other] == 0)
            ==> variations[axis].value == face_axes(source.0, source.1)[axis].default,
{
}

/// A guess lies off the axis's default by the coordinate's share of the way to the maximum, or for
/// a negative coordinate of the way from the minimum.
pub proof fn law_guesses_interpolate<D: DesignSpace>(
    design: &D,
    by: Computation,
    coordinate: spec_fn(i16) -> Scalar,
    axis: AxisRecord,
    bits: i16,
    value: Scalar,
)
    requires
        computes(design, by),
        forall|bits: i16, number: Scalar| #[trigger]
            call_ensures(D::coordinate, (design, bits), number) ==> number == coordinate(bits),
        is_guess(design, axis, bits, value),
    ensures
        bits >= 0 ==> value == (by.sum)(
            axis.default,
            (by.product)(coordinate(bits), (by.difference)(axis.maximum, axis.default)),
        ),
        bits < 0 ==> value == (by.sum)(
            axis.default,
            (by.product)(coordinate(bits), (by.difference)(axis.default, axis.minimum)),
        ),
{
}

/// The middle of an interval is half of the sum of its ends.
pub proof fn law_middles_are_half_way<D: DesignSpace>(
    design: &D,
    by: Computation,
    low: Scalar,
    high: Scalar,
    value: Scalar,
)
    requires
        computes(design, by),
        is_midpoint(design, low, high, value),
    ensures
        value == (by.sum)(low, high).halved(),
{
}

/// Normalized coordinates are what the face makes of one setting for each axis, with the axis's
/// tag and value.
pub proof fn law_coordinates_are_the_faces<D: DesignSpace>(
    design: &D,
    source: (Seq<u8>, u32),
    values: Seq<Scalar>,
    coords: Seq<i16>,
)
    requires
        is_located(design, source, values, coords),
    ensures
        exists|settings: Seq<VariationSetting>|
            {
                &&& settings.len() == face_axes(source.0, source.1).len()
                &&& coords == face_location(source.0, source.1, #[trigger] settings_parts(settings))
                &&& forall|axis: int|
                    0 <= axis < settings.len() ==> call_ensures(
                        D::setting,
                        (design, face_axes(source.0, source.1)[axis].tag, values[axis]),
                        #[trigger] settings[axis],
                    )
            },
{
}

/// One halving: an interval, its middle, and the coordinates with an axis there.
pub struct Halving {
    /// The lower end of the interval.
    pub low: Scalar,
    /// The upper end of the interval.
    pub high: Scalar,
    /// The middle of the interval.
    pub middle: Scalar,
    /// The normalized coordinates with the axis at the middle.
    pub coords: Seq<i16>,
}

/// Whether a halving takes the middle of its interval, and the coordinates that the face has there.
pub open spec fn is_halving<D: DesignSpace>(
    design: &D,
    source: (Seq<u8>, u32),
    axis: int,
    values: Seq<Scalar>,
    halving: Halving,
) -> bool {
    &&& is_midpoint(design, halving.low, halving.high, halving.middle)
    &&& is_located(design, source, values.update(axis, halving.middle), halving.coords)
}

/// Whether a halving follows another: the other missed the target, and this one has the half where
/// the target lies.
pub open spec fn follows(axis: int, target: i16, earlier: Halving, later: Halving) -> bool {
    &&& reached(earlier.coords, axis) != target
    &&& reached(earlier.coords, axis) < target ==> later.low == earlier.middle && later.high
        == earlier.high
    &&& reached(earlier.coords, axis) > target ==> later.low == earlier.low && later.high
        == earlier.middle
}

/// Whether halvings follow each other.
pub open spec fn are_halvings<D: DesignSpace>(
    design: &D,
    source: (Seq<u8>, u32),
    axis: int,
    target: i16,
    values: Seq<Scalar>,
    halvings: Seq<Halving>,
) -> bool {
    &&& halvings.len() > 0
    &&& forall|step: int|
        0 <= step < halvings.len() ==> is_halving(
            design,
            source,
            axis,
            values,
            #[trigger] halvings[step],
        )
    &&& forall|step: int|
        0 <= step < halvings.len() - 1 ==> follows(
            axis,
            target,
            #[trigger] halvings[step],
            halvings[step + 1],
        )
}

/// An axis is searched by halving the interval that it is given, each time towards the target,
/// until the target is reached or the halvings are spent. The axis stays where the last halving
/// left it, and the others where they are.
pub proof fn law_axes_are_searched_by_halving<D: DesignSpace>(
    design: &D,
    source: (Seq<u8>, u32),
    axis: int,
    target: i16,
    low: Scalar,
    high: Scalar,
    steps: nat,
    before: SearchState,
    after: SearchState,
)
    requires
        steps > 0,
        0 <= axis < before.values.len(),
        axis_searched(design, source, axis, target, low, high, steps, before, after),
    ensures
        exists|halvings: Seq<Halving>|
            {
                &&& #[trigger] are_halvings(design, source, axis, target, before.values, halvings)
                &&& halvings.first().low == low
                &&& halvings.first().high == high
                &&& halvings.len() <= steps
                &&& halvings.len() == steps || reached(halvings.last().coords, axis) == target
                &&& after.values == before.values.update(axis, halvings.last().middle)
                &&& after.coords == halvings.last().coords
            },
    decreases steps,
{
    let (middle, coords) = choose|middle: Scalar, coords: Seq<i16>|
        {
            &&& #[trigger] is_midpoint(design, low, high, middle)
            &&& #[trigger] is_located(design, source, before.values.update(axis, middle), coords)
            &&& step_searched(
                design,
                source,
                axis,
                target,
                low,
                high,
                middle,
                steps,
                SearchState { values: before.values.update(axis, middle), coords },
                after,
            )
        };
    let moved = SearchState { values: before.values.update(axis, middle), coords };
    let halving = Halving { low, high, middle, coords };
    assert(is_halving(design, source, axis, before.values, halving));
    let there = coordinate_at(coords, axis);
    assert(there == reached(coords, axis));
    if there == target || steps == 1 {
        let halvings = seq![halving];
        assert(after == moved);
        assert(are_halvings(design, source, axis, target, before.values, halvings));
    } else {
        let (next_low, next_high) = if there < target {
            (middle, high)
        } else {
            (low, middle)
        };
        law_axes_are_searched_by_halving(
            design,
            source,
            axis,
            target,
            next_low,
            next_high,
            (steps - 1) as nat,
            moved,
            after,
        );
        let rest = choose|rest: Seq<Halving>|
            {
                &&& #[trigger] are_halvings(design, source, axis, target, moved.values, rest)
                &&& rest.first().low == next_low
                &&& rest.first().high == next_high
                &&& rest.len() <= steps - 1
                &&& rest.len() == steps - 1 || reached(rest.last().coords, axis) == target
                &&& after.values == moved.values.update(axis, rest.last().middle)
                &&& after.coords == rest.last().coords
            };
        let halvings = seq![halving] + rest;
        assert forall|step: int| 0 <= step < halvings.len() implies is_halving(
            design,
            source,
            axis,
            before.values,
            #[trigger] halvings[step],
        ) by {
            if step > 0 {
                assert(halvings[step] == rest[step - 1]);
                assert(is_halving(design, source, axis, moved.values, rest[step - 1]));
                assert(moved.values.update(axis, rest[step - 1].middle) =~= before.values.update(
                    axis,
                    rest[step - 1].middle,
                ));
            }
        }
        assert forall|step: int| 0 <= step < halvings.len() - 1 implies follows(
            axis,
            target,
            #[trigger] halvings[step],
            halvings[step + 1],
        ) by {
            if step > 0 {
                assert(halvings[step] == rest[step - 1]);
                assert(halvings[step + 1] == rest[step]);
                assert(follows(axis, target, rest[step - 1], rest[step - 1 + 1]));
            } else {
                assert(halvings[1] == rest[0]);
            }
        }
        assert(halvings.last() == rest.last());
        assert(moved.values.update(axis, rest.last().middle) =~= before.values.update(
            axis,
            rest.last().middle,
        ));
        assert(are_halvings(design, source, axis, target, before.values, halvings));
    }
}

/// Whether a pass treats one axis as it should: one at its target is left alone, and another is
/// searched from its minimum to its maximum in at most sixteen halvings.
pub open spec fn is_treated<D: DesignSpace>(
    design: &D,
    source: (Seq<u8>, u32),
    targets: Seq<i16>,
    axis: int,
    before: SearchState,
    after: SearchState,
) -> bool {
    let record = face_axes(source.0, source.1)[axis];
    &&& reached(before.coords, axis) == reached(targets, axis) ==> after == before
    &&& reached(before.coords, axis) != reached(targets, axis) ==> axis_searched(
        design,
        source,
        axis,
        reached(targets, axis),
        record.minimum,
        record.maximum,
        16,
        before,
        after,
    )
}

/// Whether the states between the axes of a pass follow each other, from an axis on.
pub open spec fn is_pass<D: DesignSpace>(
    design: &D,
    source: (Seq<u8>, u32),
    targets: Seq<i16>,
    start: int,
    states: Seq<SearchState>,
) -> bool {
    &&& states.len() == face_axes(source.0, source.1).len() - start + 1
    &&& forall|step: int|
        0 <= step < states.len() - 1 ==> is_treated(
            design,
            source,
            targets,
            start + step,
            #[trigger] states[step],
            states[step + 1],
        )
}

/// A pass goes over all axes from the first to the last, each once.
pub proof fn law_passes_go_over_every_axis<D: DesignSpace>(
    design: &D,
    source: (Seq<u8>, u32),
    targets: Seq<i16>,
    start: int,
    before: SearchState,
    after: SearchState,
)
    requires
        0 <= start <= face_axes(source.0, source.1).len(),
        axes_searched(design, source, targets, start, before, after),
    ensures
        exists|states: Seq<SearchState>| #[trigger]
            is_pass(design, source, targets, start, states) && states.first() == before
                && states.last() == after,
    decreases face_axes(source.0, source.1).len() - start,
{
    let axes = face_axes(source.0, source.1);
    if start == axes.len() {
        let states = seq![before];
        assert(is_pass(design, source, targets, start, states));
    } else {
        let between = if coordinate_at(before.coords, start) == coordinate_at(targets, start) {
            before
        } else {
            choose|between: SearchState|
                {
                    &&& #[trigger] axis_searched(
                        design,
                        source,
                        start,
                        coordinate_at(targets, start),
                        axes[start].minimum,
                        axes[start].maximum,
                        16,
                        before,
                        between,
                    )
                    &&& axes_searched(design, source, targets, start + 1, between, after)
                }
        };
        assert(is_treated(design, source, targets, start, before, between));
        law_passes_go_over_every_axis(design, source, targets, start + 1, between, after);
        let rest = choose|rest: Seq<SearchState>| #[trigger]
            is_pass(design, source, targets, start + 1, rest) && rest.first() == between
                && rest.last() == after;
        let states = seq![before] + rest;
        assert forall|step: int| 0 <= step < states.len() - 1 implies is_treated(
            design,
            source,
            targets,
            start + step,
            #[trigger] states[step],
            states[step + 1],
        ) by {
            if step > 0 {
                assert(states[step] == rest[step - 1]);
                assert(states[step + 1] == rest[step]);
                assert(is_treated(
                    design,
                    source,
                    targets,
                    start + 1 + (step - 1),
                    rest[step - 1],
                    rest[step - 1 + 1],
                ));
            } else {
                assert(states[1] == rest[0]);
            }
        }
        assert(is_pass(design, source, targets, start, states));
        assert(states.last() == rest.last());
    }
}

/// Whether a pass leads from values to others: some axis misses its target at the first, and a
/// pass over all axes gives the others.
pub open spec fn is_round<D: DesignSpace>(
    design: &D,
    source: (Seq<u8>, u32),
    targets: Seq<i16>,
    before: Seq<Scalar>,
    after: Seq<Scalar>,
) -> bool {
    exists|coords: Seq<i16>, between: SearchState|
        {
            &&& #[trigger] is_located(design, source, before, coords)
            &&& !all_reached(coords, targets, face_axes(source.0, source.1).len() as int)
            &&& #[trigger] axes_searched(
                design,
                source,
                targets,
                0,
                SearchState { values: before, coords },
                between,
            )
            &&& after == between.values
        }
}

/// Whether values are such that every target is reached.
pub open spec fn is_found<D: DesignSpace>(
    design: &D,
    source: (Seq<u8>, u32),
    targets: Seq<i16>,
    values: Seq<Scalar>,
) -> bool {
    exists|coords: Seq<i16>| #[trigger]
        is_located(design, source, values, coords) && all_reached(
            coords,
            targets,
            face_axes(source.0, source.1).len() as int,
        )
}

/// Whether rounds follow each other.
pub open spec fn are_rounds<D: DesignSpace>(
    design: &D,
    source: (Seq<u8>, u32),
    targets: Seq<i16>,
    rounds: Seq<Seq<Scalar>>,
) -> bool {
    forall|step: int|
        0 <= step < rounds.len() - 1 ==> is_round(
            design,
            source,
            targets,
            #[trigger] rounds[step],
            rounds[step + 1],
        )
}

/// A search makes passes until every target is reached, or the passes are spent.
pub proof fn law_searches_make_passes<D: DesignSpace>(
    design: &D,
    source: (Seq<u8>, u32),
    targets: Seq<i16>,
    passes: nat,
    before: Seq<Scalar>,
    after: Seq<Scalar>,
)
    requires
        searched(design, source, targets, passes, before, after),
    ensures
        exists|rounds: Seq<Seq<Scalar>>|
            {
                &&& #[trigger] are_rounds(design, source, targets, rounds)
                &&& 0 < rounds.len() <= passes + 1
                &&& rounds.first() == before
                &&& rounds.last() == after
                &&& rounds.len() == passes + 1 || is_found(design, source, targets, after)
            },
    decreases passes,
{
    let count = face_axes(source.0, source.1).len();
    if passes == 0 {
        let rounds = seq![before];
        assert(are_rounds(design, source, targets, rounds));
    } else {
        let coords = choose|coords: Seq<i16>|
            {
                &&& #[trigger] is_located(design, source, before, coords)
                &&& if targets_reached(coords, targets, count) {
                    after == before
                } else {
                    exists|between: SearchState|
                        {
                            &&& #[trigger] axes_searched(
                                design,
                                source,
                                targets,
                                0,
                                SearchState { values: before, coords },
                                between,
                            )
                            &&& searched(
                                design,
                                source,
                                targets,
                                (passes - 1) as nat,
                                between.values,
                                after,
                            )
                        }
                }
            };
        assert(is_located(design, source, before, coords));
        lemma_all_reached(coords, targets, count);
        if targets_reached(coords, targets, count) {
            let rounds = seq![before];
            assert(are_rounds(design, source, targets, rounds));
            assert(is_found(design, source, targets, after));
        } else {
            let start = SearchState { values: before, coords };
            let between = choose|between: SearchState|
                {
                    &&& #[trigger] axes_searched(design, source, targets, 0, start, between)
                    &&& searched(
                        design,
                        source,
                        targets,
                        (passes - 1) as nat,
                        between.values,
                        after,
                    )
                };
            assert(is_round(design, source, targets, before, between.values));
            law_searches_make_passes(
                design,
                source,
                targets,
                (passes - 1) as nat,
                between.values,
                after,
            );
            let rest = choose|rest: Seq<Seq<Scalar>>|
                {
                    &&& #[trigger] are_rounds(design, source, targets, rest)
                    &&& 0 < rest.len() <= passes
                    &&& rest.first() == between.values
                    &&& rest.last() == after
                    &&& rest.len() == passes || is_found(design, source, targets, after)
                };
            let rounds = seq![before] + rest;
            assert forall|step: int| 0 <= step < rounds.len() - 1 implies is_round(
                design,
                source,
                targets,
                #[trigger] rounds[step],
                rounds[step + 1],
            ) by {
                if step > 0 {
                    assert(rounds[step] == rest[step - 1]);
                    assert(rounds[step + 1] == rest[step]);
                    assert(is_round(design, source, targets, rest[step - 1], rest[step - 1 + 1]));
                } else {
                    assert(rounds[1] == rest[0]);
                }
            }
            assert(are_rounds(design, source, targets, rounds));
            assert(rounds.last() == rest.last());
        }
    }
}

/// Every target is reached exactly if each coordinate is the one asked for.
proof fn lemma_all_reached(coords: Seq<i16>, targets: Seq<i16>, count: nat)
    ensures
        targets_reached(coords, targets, count) <==> all_reached(coords, targets, count as int),
{
    if targets_reached(coords, targets, count) {
        assert forall|axis: int| 0 <= axis < count && axis < targets.len() implies reached(
            coords,
            axis,
        ) == #[trigger] targets[axis] by {
            assert(coordinate_at(coords, axis) == targets[axis]);
        }
    }
    if all_reached(coords, targets, count as int) {
        assert forall|axis: int| 0 <= axis < count && axis < targets.len() implies coordinate_at(
            coords,
            axis,
        ) == #[trigger] targets[axis] by {
            assert(reached(coords, axis) == targets[axis]);
        }
    }
}

/// Coordinates of which one is not zero are searched for, from a guess for each axis on, in at
/// most four passes. Fewer are made only where every coordinate is reached.
pub proof fn law_varied_coordinates_are_searched_for<D: DesignSpace>(
    design: &D,
    source: (Seq<u8>, u32),
    targets: Seq<i16>,
    variations: Seq<FontVariation>,
    varied: int,
)
    requires
        are_design_variations(design, source, targets, variations),
        0 <= varied < targets.len(),
        targets[varied] != 0,
    ensures
        exists|rounds: Seq<Seq<Scalar>>|
            {
                let axes = face_axes(source.0, source.1);
                &&& #[trigger] are_rounds(design, source, targets, rounds)
                &&& 0 < rounds.len() <= 5
                &&& rounds.len() == 5 || is_found(design, source, targets, rounds.last())
                &&& rounds.first().len() == axes.len()
                &&& forall|axis: int|
                    0 <= axis < axes.len() ==> is_guess(
                        design,
                        axes[axis],
                        reached(targets, axis),
                        #[trigger] rounds.first()[axis],
                    )
                &&& rounds.last().len() == axes.len()
                &&& forall|axis: int|
                    0 <= axis < axes.len() ==> (#[trigger] variations[axis]).value
                        == rounds.last()[axis]
            },
{
    let axes = face_axes(source.0, source.1);
    let (guesses, values) = choose|guesses: Seq<Scalar>, values: Seq<Scalar>|
        {
            &&& guesses.len() == axes.len()
            &&& forall|axis: int|
                0 <= axis < axes.len() ==> is_guess(
                    design,
                    axes[axis],
                    coordinate_at(targets, axis),
                    #[trigger] guesses[axis],
                )
            &&& #[trigger] searched(design, source, targets, 4, guesses, values)
            &&& values.len() == axes.len()
            &&& forall|axis: int|
                0 <= axis < axes.len() ==> (#[trigger] variations[axis]).value == values[axis]
        };
    law_searches_make_passes(design, source, targets, 4, guesses, values);
    let rounds = choose|rounds: Seq<Seq<Scalar>>|
        {
            &&& #[trigger] are_rounds(design, source, targets, rounds)
            &&& 0 < rounds.len() <= 5
            &&& rounds.first() == guesses
            &&& rounds.last() == values
            &&& rounds.len() == 5 || is_found(design, source, targets, values)
        };
    assert forall|axis: int| 0 <= axis < axes.len() implies is_guess(
        design,
        axes[axis],
        reached(targets, axis),
        #[trigger] rounds.first()[axis],
    ) by {
        assert(is_guess(design, axes[axis], coordinate_at(targets, axis), guesses[axis]));
    }
    assert(are_rounds(design, source, targets, rounds));
}

} // verus!
