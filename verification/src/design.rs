//! Design-space coordinates for the normalized coordinates that shaping selects.
//!
//! Native font APIs take design-space values. A face maps those to normalized coordinates, and
//! has no map back, so the way back is a bounded search through the map.

use crate::blob::settings_parts;
use crate::face::{
    axes_location, axis_records, face_axes, face_location, face_source, AxisRecord,
};
use crate::scalar::{Arithmetic, Scalar};
use skrifa::setting::VariationSetting;
use skrifa::FontRef;
use vstd::prelude::*;

verus! {

/// How often the search goes over all axes.
pub const SEARCH_PASSES: u32 = 4;

/// How often the search halves the interval of an axis.
pub const SEARCH_STEPS: u32 = 16;

/// One design-space variation coordinate for an exact font instance.
#[derive(Clone, Copy, Debug)]
pub struct FontVariation {
    /// OpenType variation-axis tag, as a big-endian number.
    pub tag: u32,
    /// Design-space value consumed by native font APIs.
    pub value: Scalar,
}

impl FontVariation {
    /// Whether two coordinates are equal; values compare as numbers do.
    pub open spec fn equals(self, other: FontVariation) -> bool {
        self.tag == other.tag && self.value.equals(other.value)
    }

    /// Creates a design-space variation coordinate from an OpenType axis tag.
    pub fn new(tag: [u8; 4], value: Scalar) -> (variation: FontVariation)
        ensures
            variation.tag == crate::sfnt::be32(tag@, 0),
            variation.value == value,
    {
        FontVariation {
            tag: tag[0] as u32 * 0x100_0000 + tag[1] as u32 * 0x1_0000 + tag[2] as u32 * 0x100
                + tag[3] as u32,
            value,
        }
    }
}

impl PartialEq for FontVariation {
    fn eq(&self, other: &Self) -> (equal: bool) {
        self.tag == other.tag && self.value == other.value
    }
}

impl vstd::std_specs::cmp::PartialEqSpecImpl for FontVariation {
    open spec fn obeys_eq_spec() -> bool {
        true
    }

    open spec fn eq_spec(&self, other: &Self) -> bool {
        self.equals(*other)
    }
}

/// The arithmetic of a design space, which the host supplies.
pub trait DesignSpace: Arithmetic {
    /// The number that a coordinate in 2.14 fixed point stands for.
    fn coordinate(&self, bits: i16) -> Scalar;

    /// A variation setting for the axis with this tag.
    fn setting(&self, tag: u32, value: Scalar) -> VariationSetting;
}

/// The coordinate for an axis: zero, the default, where none is given.
pub open spec fn coordinate_at(coords: Seq<i16>, axis: int) -> i16 {
    if axis < coords.len() {
        coords[axis]
    } else {
        0
    }
}

/// Whether every coordinate is the default.
pub open spec fn all_default(coords: Seq<i16>) -> bool {
    forall|axis: int| 0 <= axis < coords.len() ==> #[trigger] coords[axis] == 0
}

/// The upper end of the part of an axis that a coordinate lies in.
pub open spec fn span_top(axis: AxisRecord, bits: i16) -> Scalar {
    if bits < 0 {
        axis.default
    } else {
        axis.maximum
    }
}

/// The lower end of the part of an axis that a coordinate lies in.
pub open spec fn span_bottom(axis: AxisRecord, bits: i16) -> Scalar {
    if bits < 0 {
        axis.minimum
    } else {
        axis.default
    }
}

/// `value` is where a coordinate would lie on an axis without remapping: the default, moved
/// towards the minimum or the maximum by the coordinate's share of the way there.
pub open spec fn is_guess<D: DesignSpace>(
    design: &D,
    axis: AxisRecord,
    bits: i16,
    value: Scalar,
) -> bool {
    exists|share: Scalar, span: Scalar, offset: Scalar|
        {
            &&& #[trigger] call_ensures(D::coordinate, (design, bits), share)
            &&& #[trigger] call_ensures(
                D::difference,
                (design, span_top(axis, bits), span_bottom(axis, bits)),
                span,
            )
            &&& #[trigger] call_ensures(D::product, (design, share, span), offset)
            &&& call_ensures(D::sum, (design, axis.default, offset), value)
        }
}

/// `value` is half of the sum of two numbers.
pub open spec fn is_midpoint<D: DesignSpace>(
    design: &D,
    low: Scalar,
    high: Scalar,
    value: Scalar,
) -> bool {
    exists|total: Scalar| #[trigger]
        call_ensures(D::sum, (design, low, high), total) && value == total.halved()
}

/// `coords` are the normalized coordinates of a face for one design-space value per axis.
pub open spec fn is_located<D: DesignSpace>(
    design: &D,
    source: (Seq<u8>, u32),
    values: Seq<Scalar>,
    coords: Seq<i16>,
) -> bool {
    let axes = face_axes(source.0, source.1);
    exists|settings: Seq<VariationSetting>|
        {
            &&& settings.len() == axes.len()
            &&& forall|axis: int|
                0 <= axis < axes.len() ==> call_ensures(
                    D::setting,
                    (design, axes[axis].tag, values[axis]),
                    #[trigger] settings[axis],
                )
            &&& coords == face_location(source.0, source.1, #[trigger] settings_parts(settings))
        }
}

/// The design-space values of all axes, and the normalized coordinates that they stand for.
pub struct SearchState {
    /// One design-space value per axis.
    pub values: Seq<Scalar>,
    /// The normalized coordinates.
    pub coords: Seq<i16>,
}

/// `after` is what at most `steps` halvings of the interval from `low` to `high` make of
/// `before`: the value of one axis is moved to the middle of the interval, until its coordinate
/// is the target. Otherwise the search goes on in the half where the target lies.
pub open spec fn axis_searched<D: DesignSpace>(
    design: &D,
    source: (Seq<u8>, u32),
    axis: int,
    target: i16,
    low: Scalar,
    high: Scalar,
    steps: nat,
    before: SearchState,
    after: SearchState,
) -> bool
    decreases steps, 1int,
{
    if steps == 0 {
        after == before
    } else {
        exists|middle: Scalar, coords: Seq<i16>|
            {
                &&& #[trigger] is_midpoint(design, low, high, middle)
                &&& #[trigger] is_located(
                    design,
                    source,
                    before.values.update(axis, middle),
                    coords,
                )
                &&& step_searched(
                    design,
                    source,
                    axis,
                    target,
                    low,
                    high,
                    middle,
                    steps,
                    SearchState { values: before.values.update(axis, middle), coords },
                    after,
                )
            }
    }
}

/// `after` is what the halvings behind the first make of `moved`, which is the state with the
/// axis at the middle of the interval.
pub open spec fn step_searched<D: DesignSpace>(
    design: &D,
    source: (Seq<u8>, u32),
    axis: int,
    target: i16,
    low: Scalar,
    high: Scalar,
    middle: Scalar,
    steps: nat,
    moved: SearchState,
    after: SearchState,
) -> bool
    decreases steps, 0int,
{
    if steps == 0 || coordinate_at(moved.coords, axis) == target {
        after == moved
    } else if coordinate_at(moved.coords, axis) < target {
        axis_searched(
            design,
            source,
            axis,
            target,
            middle,
            high,
            (steps - 1) as nat,
            moved,
            after,
        )
    } else {
        axis_searched(design, source, axis, target, low, middle, (steps - 1) as nat, moved, after)
    }
}

/// `after` is what searching the axes from `axis` on, one by one, makes of `before`. An axis
/// whose coordinate is its target is left alone.
pub open spec fn axes_searched<D: DesignSpace>(
    design: &D,
    source: (Seq<u8>, u32),
    targets: Seq<i16>,
    axis: int,
    before: SearchState,
    after: SearchState,
) -> bool
    decreases face_axes(source.0, source.1).len() - axis,
{
    let axes = face_axes(source.0, source.1);
    if axis >= axes.len() {
        after == before
    } else if coordinate_at(before.coords, axis) == coordinate_at(targets, axis) {
        axes_searched(design, source, targets, axis + 1, before, after)
    } else {
        exists|between: SearchState|
            {
                &&& #[trigger] axis_searched(
                    design,
                    source,
                    axis,
                    coordinate_at(targets, axis),
                    axes[axis].minimum,
                    axes[axis].maximum,
                    SEARCH_STEPS as nat,
                    before,
                    between,
                )
                &&& axes_searched(design, source, targets, axis + 1, between, after)
            }
    }
}

/// Whether every axis that has a target is at it.
pub open spec fn targets_reached(coords: Seq<i16>, targets: Seq<i16>, axis_count: nat) -> bool {
    forall|axis: int|
        0 <= axis < axis_count && axis < targets.len() ==> coordinate_at(coords, axis)
            == #[trigger] targets[axis]
}

/// `after` is what at most `passes` passes over all axes make of the design-space values
/// `before`. A pass does not start when every target is reached.
pub open spec fn searched<D: DesignSpace>(
    design: &D,
    source: (Seq<u8>, u32),
    targets: Seq<i16>,
    passes: nat,
    before: Seq<Scalar>,
    after: Seq<Scalar>,
) -> bool
    decreases passes,
{
    if passes == 0 {
        after == before
    } else {
        exists|coords: Seq<i16>|
            {
                &&& #[trigger] is_located(design, source, before, coords)
                &&& if targets_reached(coords, targets, face_axes(source.0, source.1).len()) {
                    after == before
                } else {
                    exists|between: SearchState|
                        {
                            &&& #[trigger] axes_searched(
                                design,
                                source,
                                targets,
                                0,
                                SearchState { values: before, coords },
                                between,
                            )
                            &&& searched(
                                design,
                                source,
                                targets,
                                (passes - 1) as nat,
                                between.values,
                                after,
                            )
                        }
                }
            }
    }
}

/// `variations` are the design-space coordinates for normalized coordinates: one per axis, in
/// order. Default coordinates stand for the default values; others are searched for, from a
/// guess on.
pub open spec fn are_design_variations<D: DesignSpace>(
    design: &D,
    source: (Seq<u8>, u32),
    targets: Seq<i16>,
    variations: Seq<FontVariation>,
) -> bool {
    let axes = face_axes(source.0, source.1);
    &&& variations.len() == axes.len()
    &&& forall|axis: int|
        0 <= axis < axes.len() ==> (#[trigger] variations[axis]).tag == axes[axis].tag
    &&& if all_default(targets) {
        forall|axis: int|
            0 <= axis < axes.len() ==> (#[trigger] variations[axis]).value == axes[axis].default
    } else {
        exists|guesses: Seq<Scalar>, values: Seq<Scalar>|
            {
                &&& guesses.len() == axes.len()
                &&& forall|axis: int|
                    0 <= axis < axes.len() ==> is_guess(
                        design,
                        axes[axis],
                        coordinate_at(targets, axis),
                        #[trigger] guesses[axis],
                    )
                &&& #[trigger] searched(
                    design,
                    source,
                    targets,
                    SEARCH_PASSES as nat,
                    guesses,
                    values,
                )
                &&& values.len() == axes.len()
                &&& forall|axis: int|
                    0 <= axis < axes.len() ==> (#[trigger] variations[axis]).value == values[axis]
            }
    }
}

/// The coordinate for an axis, or the default.
fn coordinate_for(coords: &[i16], axis: usize) -> (coordinate: i16)
    ensures
        coordinate == coordinate_at(coords@, axis as int),
{
    if axis < coords.len() {
        coords[axis]
    } else {
        0
    }
}

/// Maps design-space values to normalized coordinates.
fn locate<D: DesignSpace>(
    design: &D,
    font: &FontRef<'_>,
    axes: &Vec<AxisRecord>,
    values: &Vec<Scalar>,
) -> (coords: Vec<i16>)
    requires
        axes@ == face_axes(face_source(*font).0, face_source(*font).1),
        values@.len() == axes@.len(),
    ensures
        is_located(design, face_source(*font), values@, coords@),
{
    let mut settings: Vec<VariationSetting> = Vec::new();
    let mut axis: usize = 0;
    while axis < axes.len()
        invariant
            axis <= axes@.len(),
            values@.len() == axes@.len(),
            settings@.len() == axis,
            forall|i: int|
                0 <= i < axis ==> call_ensures(
                    D::setting,
                    (design, axes@[i].tag, values@[i]),
                    #[trigger] settings@[i],
                ),
        decreases axes@.len() - axis,
    {
        settings.push(design.setting(axes[axis].tag, values[axis]));
        axis += 1;
    }
    axes_location(font, &settings)
}

/// Moves the value of one axis towards its target.
fn search_axis<D: DesignSpace>(
    design: &D,
    font: &FontRef<'_>,
    axes: &Vec<AxisRecord>,
    axis: usize,
    target: i16,
    low: Scalar,
    high: Scalar,
    steps: u32,
    values: &mut Vec<Scalar>,
    coords: &mut Vec<i16>,
)
    requires
        axes@ == face_axes(face_source(*font).0, face_source(*font).1),
        old(values)@.len() == axes@.len(),
        axis < axes@.len(),
    ensures
        final(values)@.len() == axes@.len(),
        axis_searched(
            design,
            face_source(*font),
            axis as int,
            target,
            low,
            high,
            steps as nat,
            (SearchState { values: old(values)@, coords: old(coords)@ }),
            (SearchState { values: final(values)@, coords: final(coords)@ }),
        ),
    decreases steps,
{
    if steps == 0 {
        return;
    }
    let middle: Scalar = design.sum(low, high).halve();
    assert(is_midpoint(design, low, high, middle));
    values.set(axis, middle);
    let located: Vec<i16> = locate(design, font, axes, values);
    let reached: i16 = coordinate_for(located.as_slice(), axis);
    *coords = located;
    let ghost moved = old(values)@.update(axis as int, middle);
    assert(values@ =~= moved);
    let ghost between = SearchState { values: values@, coords: coords@ };
    if reached < target {
        search_axis(design, font, axes, axis, target, middle, high, steps - 1, values, coords);
    } else if reached > target {
        search_axis(design, font, axes, axis, target, low, middle, steps - 1, values, coords);
    }
    proof {
        lemma_axis_step(
            design,
            face_source(*font),
            axis as int,
            target,
            low,
            high,
            middle,
            steps as nat,
            SearchState { values: old(values)@, coords: old(coords)@ },
            between,
            SearchState { values: values@, coords: coords@ },
        );
    }
}

/// A halving and what follows it make up a search.
proof fn lemma_axis_step<D: DesignSpace>(
    design: &D,
    source: (Seq<u8>, u32),
    axis: int,
    target: i16,
    low: Scalar,
    high: Scalar,
    middle: Scalar,
    steps: nat,
    before: SearchState,
    moved: SearchState,
    after: SearchState,
)
    requires
        steps > 0,
        is_midpoint(design, low, high, middle),
        moved.values == before.values.update(axis, middle),
        is_located(design, source, moved.values, moved.coords),
        step_searched(design, source, axis, target, low, high, middle, steps, moved, after),
    ensures
        axis_searched(design, source, axis, target, low, high, steps, before, after),
{
    let coords = moved.coords;
    assert(is_located(design, source, before.values.update(axis, middle), coords));
    assert(moved == (SearchState { values: before.values.update(axis, middle), coords }));
}

/// Moves the value of every axis towards its target, once.
fn search_axes<D: DesignSpace>(
    design: &D,
    font: &FontRef<'_>,
    axes: &Vec<AxisRecord>,
    targets: &[i16],
    values: &mut Vec<Scalar>,
    coords: &mut Vec<i16>,
)
    requires
        axes@ == face_axes(face_source(*font).0, face_source(*font).1),
        old(values)@.len() == axes@.len(),
    ensures
        final(values)@.len() == axes@.len(),
        axes_searched(
            design,
            face_source(*font),
            targets@,
            0,
            (SearchState { values: old(values)@, coords: old(coords)@ }),
            (SearchState { values: final(values)@, coords: final(coords)@ }),
        ),
{
    let ghost start = SearchState { values: values@, coords: coords@ };
    let mut axis: usize = 0;
    while axis < axes.len()
        invariant
            axes@ == face_axes(face_source(*font).0, face_source(*font).1),
            axis <= axes@.len(),
            values@.len() == axes@.len(),
            forall|after: SearchState| #[trigger]
                axes_searched(
                    design,
                    face_source(*font),
                    targets@,
                    axis as int,
                    (SearchState { values: values@, coords: coords@ }),
                    after,
                ) ==> axes_searched(design, face_source(*font), targets@, 0, start, after),
        decreases axes@.len() - axis,
    {
        let target: i16 = coordinate_for(targets, axis);
        let ghost before = SearchState { values: values@, coords: coords@ };
        if coordinate_for(coords.as_slice(), axis) != target {
            let record: AxisRecord = axes[axis];
            search_axis(
                design,
                font,
                axes,
                axis,
                target,
                record.minimum,
                record.maximum,
                SEARCH_STEPS,
                values,
                coords,
            );
        }
        proof {
            let between = SearchState { values: values@, coords: coords@ };
            assert forall|after: SearchState| #[trigger]
                axes_searched(
                    design,
                    face_source(*font),
                    targets@,
                    axis + 1,
                    between,
                    after,
                ) implies axes_searched(design, face_source(*font), targets@, 0, start, after) by {
                assert(axes_searched(
                    design,
                    face_source(*font),
                    targets@,
                    axis as int,
                    before,
                    after,
                ));
            }
        }
        axis += 1;
    }
    assert(axes_searched(
        design,
        face_source(*font),
        targets@,
        axis as int,
        (SearchState { values: values@, coords: coords@ }),
        (SearchState { values: values@, coords: coords@ }),
    ));
}

/// Whether every axis that has a target is at it.
fn all_reached(coords: &[i16], targets: &[i16], axis_count: usize) -> (reached: bool)
    ensures
        reached == targets_reached(coords@, targets@, axis_count as nat),
{
    let mut axis: usize = 0;
    while axis < axis_count && axis < targets.len()
        invariant
            axis <= axis_count,
            axis <= targets@.len(),
            forall|i: int| 0 <= i < axis ==> coordinate_at(coords@, i) == #[trigger] targets@[i],
        decreases axis_count - axis,
    {
        if coordinate_for(coords, axis) != targets[axis] {
            return false;
        }
        axis += 1;
    }
    true
}

/// Moves all values towards their targets, in passes.
fn search<D: DesignSpace>(
    design: &D,
    font: &FontRef<'_>,
    axes: &Vec<AxisRecord>,
    targets: &[i16],
    passes: u32,
    values: &mut Vec<Scalar>,
)
    requires
        axes@ == face_axes(face_source(*font).0, face_source(*font).1),
        old(values)@.len() == axes@.len(),
    ensures
        final(values)@.len() == axes@.len(),
        searched(
            design,
            face_source(*font),
            targets@,
            passes as nat,
            old(values)@,
            final(values)@,
        ),
    decreases passes,
{
    if passes == 0 {
        return;
    }
    let mut coords: Vec<i16> = locate(design, font, axes, values);
    if all_reached(coords.as_slice(), targets, axes.len()) {
        return;
    }
    search_axes(design, font, axes, targets, values, &mut coords);
    let ghost between = SearchState { values: values@, coords: coords@ };
    search(design, font, axes, targets, passes - 1, values);
    assert(searched(
        design,
        face_source(*font),
        targets@,
        (passes - 1) as nat,
        between.values,
        values@,
    ));
}

/// Where a coordinate would lie on an axis without remapping.
fn guess<D: DesignSpace>(design: &D, axis: &AxisRecord, bits: i16) -> (value: Scalar)
    ensures
        is_guess(design, *axis, bits, value),
{
    let share: Scalar = design.coordinate(bits);
    let span: Scalar = if bits < 0 {
        design.difference(axis.default, axis.minimum)
    } else {
        design.difference(axis.maximum, axis.default)
    };
    let offset: Scalar = design.product(share, span);
    design.sum(axis.default, offset)
}

/// Whether every coordinate is the default.
fn is_all_default(coords: &[i16]) -> (holds: bool)
    ensures
        holds == all_default(coords@),
{
    let mut axis: usize = 0;
    while axis < coords.len()
        invariant
            axis <= coords@.len(),
            forall|i: int| 0 <= i < axis ==> #[trigger] coords@[i] == 0,
        decreases coords@.len() - axis,
    {
        if coords[axis] != 0 {
            return false;
        }
        axis += 1;
    }
    true
}

/// Pairs each axis with a value.
fn pair_axes(axes: &Vec<AxisRecord>, values: &Vec<Scalar>) -> (variations: Vec<FontVariation>)
    requires
        values@.len() == axes@.len(),
    ensures
        variations@.len() == axes@.len(),
        forall|axis: int|
            0 <= axis < axes@.len() ==> (#[trigger] variations@[axis]).tag == axes@[axis].tag
                && variations@[axis].value == values@[axis],
{
    let mut variations: Vec<FontVariation> = Vec::new();
    let mut axis: usize = 0;
    while axis < axes.len()
        invariant
            axis <= axes@.len(),
            values@.len() == axes@.len(),
            variations@.len() == axis,
            forall|i: int|
                0 <= i < axis ==> (#[trigger] variations@[i]).tag == axes@[i].tag
                    && variations@[i].value == values@[i],
        decreases axes@.len() - axis,
    {
        variations.push(FontVariation { tag: axes[axis].tag, value: values[axis] });
        axis += 1;
    }
    variations
}

/// Converts the shaped normalized location back to the design-space values expected by native
/// APIs. The face performs the forward conversion, including its remapping, during the bounded
/// search.
///
/// Every axis is revisited, so that remappings which couple axes converge as well as the
/// ordinary ones per axis. Native APIs will apply the same mapping to these values.
pub fn design_variations<D: DesignSpace>(
    font: &FontRef<'_>,
    normalized_coords: &[i16],
    design: &D,
) -> (variations: Vec<FontVariation>)
    ensures
        are_design_variations(design, face_source(*font), normalized_coords@, variations@),
{
    let axes: Vec<AxisRecord> = axis_records(font);
    let unvaried: bool = is_all_default(normalized_coords);
    let mut values: Vec<Scalar> = Vec::new();
    let mut axis: usize = 0;
    while axis < axes.len()
        invariant
            axis <= axes@.len(),
            values@.len() == axis,
            forall|i: int|
                0 <= i < axis ==> if unvaried {
                    #[trigger] values@[i] == axes@[i].default
                } else {
                    is_guess(
                        design,
                        axes@[i],
                        coordinate_at(normalized_coords@, i),
                        #[trigger] values@[i],
                    )
                },
        decreases axes@.len() - axis,
    {
        if unvaried {
            values.push(axes[axis].default);
        } else {
            let bits: i16 = coordinate_for(normalized_coords, axis);
            values.push(guess(design, &axes[axis], bits));
        }
        axis += 1;
    }
    if !unvaried {
        search(design, font, &axes, normalized_coords, SEARCH_PASSES, &mut values);
    }
    pair_axes(&axes, &values)
}

/// `after` is what `passes` passes make of `before` when no pass starts with every target
/// reached.
pub open spec fn every_pass_spent<D: DesignSpace>(
    design: &D,
    source: (Seq<u8>, u32),
    targets: Seq<i16>,
    passes: nat,
    before: Seq<Scalar>,
    after: Seq<Scalar>,
) -> bool
    decreases passes,
{
    if passes == 0 {
        after == before
    } else {
        exists|coords: Seq<i16>, between: SearchState|
            {
                &&& #[trigger] is_located(design, source, before, coords)
                &&& !targets_reached(coords, targets, face_axes(source.0, source.1).len())
                &&& #[trigger] axes_searched(
                    design,
                    source,
                    targets,
                    0,
                    SearchState { values: before, coords },
                    between,
                )
                &&& every_pass_spent(
                    design,
                    source,
                    targets,
                    (passes - 1) as nat,
                    between.values,
                    after,
                )
            }
    }
}

/// A search ends on design-space values that the face maps to the targets, or has spent every
/// pass.
pub proof fn law_search_reaches_targets_or_spends_every_pass<D: DesignSpace>(
    design: &D,
    source: (Seq<u8>, u32),
    targets: Seq<i16>,
    passes: nat,
    before: Seq<Scalar>,
    after: Seq<Scalar>,
)
    requires
        searched(design, source, targets, passes, before, after),
    ensures
        every_pass_spent(design, source, targets, passes, before, after) || exists|
            coords: Seq<i16>,
        | #[trigger]
            is_located(design, source, after, coords) && targets_reached(
                coords,
                targets,
                face_axes(source.0, source.1).len(),
            ),
    decreases passes,
{
    if passes > 0 {
        let count = face_axes(source.0, source.1).len();
        let coords = choose|coords: Seq<i16>|
            {
                &&& #[trigger] is_located(design, source, before, coords)
                &&& if targets_reached(coords, targets, count) {
                    after == before
                } else {
                    exists|between: SearchState|
                        {
                            &&& #[trigger] axes_searched(
                                design,
                                source,
                                targets,
                                0,
                                SearchState { values: before, coords },
                                between,
                            )
                            &&& searched(
                                design,
                                source,
                                targets,
                                (passes - 1) as nat,
                                between.values,
                                after,
                            )
                        }
                }
            };
        if !targets_reached(coords, targets, count) {
            let between = choose|between: SearchState|
                {
                    &&& #[trigger] axes_searched(
                        design,
                        source,
                        targets,
                        0,
                        SearchState { values: before, coords },
                        between,
                    )
                    &&& searched(
                        design,
                        source,
                        targets,
                        (passes - 1) as nat,
                        between.values,
                        after,
                    )
                };
            law_search_reaches_targets_or_spends_every_pass(
                design,
                source,
                targets,
                (passes - 1) as nat,
                between.values,
                after,
            );
        }
    }
}

/// Searching one axis leaves the values of all others as they are.
pub proof fn law_axis_search_moves_one_axis<D: DesignSpace>(
    design: &D,
    source: (Seq<u8>, u32),
    axis: int,
    target: i16,
    low: Scalar,
    high: Scalar,
    steps: nat,
    before: SearchState,
    after: SearchState,
)
    requires
        0 <= axis < before.values.len(),
        axis_searched(design, source, axis, target, low, high, steps, before, after),
    ensures
        after.values.len() == before.values.len(),
        forall|other: int|
            0 <= other < before.values.len() && other != axis ==> #[trigger] after.values[other]
                == before.values[other],
    decreases steps,
{
    if steps > 0 {
        let (middle, coords) = choose|middle: Scalar, coords: Seq<i16>|
            {
                &&& #[trigger] is_midpoint(design, low, high, middle)
                &&& #[trigger] is_located(
                    design,
                    source,
                    before.values.update(axis, middle),
                    coords,
                )
                &&& step_searched(
                    design,
                    source,
                    axis,
                    target,
                    low,
                    high,
                    middle,
                    steps,
                    SearchState { values: before.values.update(axis, middle), coords },
                    after,
                )
            };
        let moved = SearchState { values: before.values.update(axis, middle), coords };
        assert(step_searched(
            design,
            source,
            axis,
            target,
            low,
            high,
            middle,
            steps,
            moved,
            after,
        ));
        if coordinate_at(coords, axis) < target {
            law_axis_search_moves_one_axis(
                design,
                source,
                axis,
                target,
                middle,
                high,
                (steps - 1) as nat,
                moved,
                after,
            );
        } else if coordinate_at(coords, axis) > target {
            law_axis_search_moves_one_axis(
                design,
                source,
                axis,
                target,
                low,
                middle,
                (steps - 1) as nat,
                moved,
                after,
            );
        }
    }
}

/// `axis_map` tells what a face maps the value of each axis to, where it maps each axis by
/// itself.
pub open spec fn maps_each_axis<D: DesignSpace>(
    design: &D,
    source: (Seq<u8>, u32),
    axis_map: spec_fn(int, Scalar) -> i16,
) -> bool {
    let count = face_axes(source.0, source.1).len();
    forall|values: Seq<Scalar>, coords: Seq<i16>, axis: int|
        values.len() == count && 0 <= axis < count && #[trigger] is_located(
            design,
            source,
            values,
            coords,
        ) ==> #[trigger] coordinate_at(coords, axis) == axis_map(axis, values[axis])
}

/// Whether the halvings of an interval find a value that an axis maps to a target, in at most
/// `steps`.
pub open spec fn halving_finds<D: DesignSpace>(
    design: &D,
    axis_map: spec_fn(int, Scalar) -> i16,
    axis: int,
    target: i16,
    low: Scalar,
    high: Scalar,
    steps: nat,
) -> bool
    decreases steps,
{
    steps > 0 && forall|middle: Scalar| #[trigger]
        is_midpoint(design, low, high, middle) ==> if axis_map(axis, middle) == target {
            true
        } else if axis_map(axis, middle) < target {
            halving_finds(design, axis_map, axis, target, middle, high, (steps - 1) as nat)
        } else {
            halving_finds(design, axis_map, axis, target, low, middle, (steps - 1) as nat)
        }
}

/// Whether an axis with a value is at its target.
pub open spec fn is_at_target(
    axis_map: spec_fn(int, Scalar) -> i16,
    targets: Seq<i16>,
    values: Seq<Scalar>,
    axis: int,
) -> bool {
    axis_map(axis, values[axis]) == coordinate_at(targets, axis)
}

/// Halvings that find a target leave the axis at it, and the other axes where they are.
proof fn lemma_halving_finds<D: DesignSpace>(
    design: &D,
    source: (Seq<u8>, u32),
    axis_map: spec_fn(int, Scalar) -> i16,
    axis: int,
    target: i16,
    low: Scalar,
    high: Scalar,
    steps: nat,
    before: SearchState,
    after: SearchState,
)
    requires
        maps_each_axis(design, source, axis_map),
        halving_finds(design, axis_map, axis, target, low, high, steps),
        0 <= axis < face_axes(source.0, source.1).len(),
        before.values.len() == face_axes(source.0, source.1).len(),
        axis_searched(design, source, axis, target, low, high, steps, before, after),
    ensures
        is_located(design, source, after.values, after.coords),
        after.values.len() == before.values.len(),
        axis_map(axis, after.values[axis]) == target,
        forall|other: int|
            0 <= other < before.values.len() && other != axis ==> #[trigger] after.values[other]
                == before.values[other],
    decreases steps,
{
    let (middle, coords) = choose|middle: Scalar, coords: Seq<i16>|
        {
            &&& #[trigger] is_midpoint(design, low, high, middle)
            &&& #[trigger] is_located(design, source, before.values.update(axis, middle), coords)
            &&& step_searched(
                design,
                source,
                axis,
                target,
                low,
                high,
                middle,
                steps,
                SearchState { values: before.values.update(axis, middle), coords },
                after,
            )
        };
    let moved = SearchState { values: before.values.update(axis, middle), coords };
    assert(is_midpoint(design, low, high, middle));
    assert(is_located(design, source, moved.values, coords));
    assert(coordinate_at(coords, axis) == axis_map(axis, middle));
    if coordinate_at(coords, axis) < target {
        lemma_halving_finds(
            design,
            source,
            axis_map,
            axis,
            target,
            middle,
            high,
            (steps - 1) as nat,
            moved,
            after,
        );
    } else if coordinate_at(coords, axis) > target {
        lemma_halving_finds(
            design,
            source,
            axis_map,
            axis,
            target,
            low,
            middle,
            (steps - 1) as nat,
            moved,
            after,
        );
    }
}

/// Whether the halvings of an axis find its target.
pub open spec fn axis_finds<D: DesignSpace>(
    design: &D,
    source: (Seq<u8>, u32),
    axis_map: spec_fn(int, Scalar) -> i16,
    targets: Seq<i16>,
    axis: int,
) -> bool {
    let record = face_axes(source.0, source.1)[axis];
    halving_finds(
        design,
        axis_map,
        axis,
        coordinate_at(targets, axis),
        record.minimum,
        record.maximum,
        SEARCH_STEPS as nat,
    )
}

/// Whether every axis is at its target, or its halvings find it.
spec fn all_found<D: DesignSpace>(
    design: &D,
    source: (Seq<u8>, u32),
    axis_map: spec_fn(int, Scalar) -> i16,
    targets: Seq<i16>,
    values: Seq<Scalar>,
) -> bool {
    forall|axis: int|
        0 <= axis < face_axes(source.0, source.1).len() ==> axis_finds(
            design,
            source,
            axis_map,
            targets,
            axis,
        ) || #[trigger] is_at_target(axis_map, targets, values, axis)
}

/// A pass over the axes from one on leaves them all at their targets, and the others where they
/// are.
proof fn lemma_pass_finds<D: DesignSpace>(
    design: &D,
    source: (Seq<u8>, u32),
    axis_map: spec_fn(int, Scalar) -> i16,
    targets: Seq<i16>,
    axis: int,
    before: SearchState,
    after: SearchState,
)
    requires
        maps_each_axis(design, source, axis_map),
        all_found(design, source, axis_map, targets, before.values),
        0 <= axis <= face_axes(source.0, source.1).len(),
        before.values.len() == face_axes(source.0, source.1).len(),
        is_located(design, source, before.values, before.coords),
        axes_searched(design, source, targets, axis, before, after),
    ensures
        after.values.len() == before.values.len(),
        forall|other: int|
            0 <= other < axis ==> #[trigger] after.values[other] == before.values[other],
        forall|other: int|
            axis <= other < before.values.len() ==> #[trigger] is_at_target(
                axis_map,
                targets,
                after.values,
                other,
            ),
    decreases face_axes(source.0, source.1).len() - axis,
{
    let axes = face_axes(source.0, source.1);
    if axis < axes.len() {
        let target = coordinate_at(targets, axis);
        if coordinate_at(before.coords, axis) == target {
            lemma_pass_finds(design, source, axis_map, targets, axis + 1, before, after);
            assert(after.values[axis] == before.values[axis]);
        } else {
            assert(!is_at_target(axis_map, targets, before.values, axis));
            let between = choose|between: SearchState|
                {
                    &&& #[trigger] axis_searched(
                        design,
                        source,
                        axis,
                        target,
                        axes[axis].minimum,
                        axes[axis].maximum,
                        SEARCH_STEPS as nat,
                        before,
                        between,
                    )
                    &&& axes_searched(design, source, targets, axis + 1, between, after)
                };
            lemma_halving_finds(
                design,
                source,
                axis_map,
                axis,
                target,
                axes[axis].minimum,
                axes[axis].maximum,
                SEARCH_STEPS as nat,
                before,
                between,
            );
            assert forall|other: int| 0 <= other < axes.len() implies axis_finds(
                design,
                source,
                axis_map,
                targets,
                other,
            ) || #[trigger] is_at_target(axis_map, targets, between.values, other) by {
                assert(axis_finds(design, source, axis_map, targets, other) || is_at_target(
                    axis_map,
                    targets,
                    before.values,
                    other,
                ));
            }
            lemma_pass_finds(design, source, axis_map, targets, axis + 1, between, after);
            assert(after.values[axis] == between.values[axis]);
        }
    }
}

/// Passes leave every axis that has a target at it, where the axes were there before or there is
/// a pass.
proof fn lemma_passes_find<D: DesignSpace>(
    design: &D,
    source: (Seq<u8>, u32),
    axis_map: spec_fn(int, Scalar) -> i16,
    targets: Seq<i16>,
    passes: nat,
    before: Seq<Scalar>,
    after: Seq<Scalar>,
)
    requires
        maps_each_axis(design, source, axis_map),
        all_found(design, source, axis_map, targets, before),
        before.len() == face_axes(source.0, source.1).len(),
        passes > 0 || forall|axis: int|
            0 <= axis < before.len() ==> #[trigger] is_at_target(axis_map, targets, before, axis),
        searched(design, source, targets, passes, before, after),
    ensures
        after.len() == before.len(),
        forall|axis: int|
            0 <= axis < before.len() && axis < targets.len() ==> #[trigger] is_at_target(
                axis_map,
                targets,
                after,
                axis,
            ),
    decreases passes,
{
    let count = face_axes(source.0, source.1).len();
    if passes > 0 {
        let coords = choose|coords: Seq<i16>|
            {
                &&& #[trigger] is_located(design, source, before, coords)
                &&& if targets_reached(coords, targets, count) {
                    after == before
                } else {
                    exists|between: SearchState|
                        {
                            &&& #[trigger] axes_searched(
                                design,
                                source,
                                targets,
                                0,
                                SearchState { values: before, coords },
                                between,
                            )
                            &&& searched(
                                design,
                                source,
                                targets,
                                (passes - 1) as nat,
                                between.values,
                                after,
                            )
                        }
                }
            };
        assert(is_located(design, source, before, coords));
        if targets_reached(coords, targets, count) {
            assert forall|axis: int|
                0 <= axis < before.len() && axis < targets.len() implies #[trigger] is_at_target(
                axis_map,
                targets,
                after,
                axis,
            ) by {
                assert(coordinate_at(coords, axis) == targets[axis]);
            }
        } else {
            let start = SearchState { values: before, coords };
            let between = choose|between: SearchState|
                {
                    &&& #[trigger] axes_searched(design, source, targets, 0, start, between)
                    &&& searched(
                        design,
                        source,
                        targets,
                        (passes - 1) as nat,
                        between.values,
                        after,
                    )
                };
            lemma_pass_finds(design, source, axis_map, targets, 0, start, between);
            lemma_passes_find(
                design,
                source,
                axis_map,
                targets,
                (passes - 1) as nat,
                between.values,
                after,
            );
        }
    }
}

/// Design-space coordinates lead back to the normalized coordinates that they were made for.
///
/// This is where the face maps each axis by itself and its default to zero, and where each axis
/// has its target for a guess, or the halvings of the axis find it.
pub proof fn law_design_variations_round_trip<D: DesignSpace>(
    design: &D,
    source: (Seq<u8>, u32),
    axis_map: spec_fn(int, Scalar) -> i16,
    targets: Seq<i16>,
    variations: Seq<FontVariation>,
    coords: Seq<i16>,
)
    requires
        maps_each_axis(design, source, axis_map),
        forall|axis: int|
            0 <= axis < face_axes(source.0, source.1).len() ==> axis_map(
                axis,
                (#[trigger] face_axes(source.0, source.1)[axis]).default,
            ) == 0,
        forall|axis: int, guess: Scalar|
            0 <= axis < face_axes(source.0, source.1).len() && #[trigger] is_guess(
                design,
                face_axes(source.0, source.1)[axis],
                coordinate_at(targets, axis),
                guess,
            ) ==> axis_map(axis, guess) == coordinate_at(targets, axis) || axis_finds(
                design,
                source,
                axis_map,
                targets,
                axis,
            ),
        are_design_variations(design, source, targets, variations),
        is_located(
            design,
            source,
            variations.map_values(|variation: FontVariation| variation.value),
            coords,
        ),
    ensures
        targets_reached(coords, targets, face_axes(source.0, source.1).len()),
{
    let axes = face_axes(source.0, source.1);
    let found = variations.map_values(|variation: FontVariation| variation.value);
    if !all_default(targets) {
        let (guesses, values) = choose|guesses: Seq<Scalar>, values: Seq<Scalar>|
            {
                &&& guesses.len() == axes.len()
                &&& forall|axis: int|
                    0 <= axis < axes.len() ==> is_guess(
                        design,
                        axes[axis],
                        coordinate_at(targets, axis),
                        #[trigger] guesses[axis],
                    )
                &&& #[trigger] searched(
                    design,
                    source,
                    targets,
                    SEARCH_PASSES as nat,
                    guesses,
                    values,
                )
                &&& values.len() == axes.len()
                &&& forall|axis: int|
                    0 <= axis < axes.len() ==> (#[trigger] variations[axis]).value == values[axis]
            };
        assert forall|axis: int| 0 <= axis < axes.len() implies axis_finds(
            design,
            source,
            axis_map,
            targets,
            axis,
        ) || #[trigger] is_at_target(axis_map, targets, guesses, axis) by {
            assert(is_guess(
                design,
                axes[axis],
                coordinate_at(targets, axis),
                guesses[axis],
            ));
        }
        lemma_passes_find(
            design,
            source,
            axis_map,
            targets,
            SEARCH_PASSES as nat,
            guesses,
            values,
        );
        assert(found =~= values);
        assert forall|axis: int| 0 <= axis < axes.len() && axis < targets.len() implies
            coordinate_at(coords, axis) == #[trigger] targets[axis] by {
            assert(is_at_target(axis_map, targets, values, axis));
        }
    } else {
        assert forall|axis: int| 0 <= axis < axes.len() && axis < targets.len() implies
            coordinate_at(coords, axis) == #[trigger] targets[axis] by {
            assert(found[axis] == variations[axis].value);
            assert(axis_map(axis, axes[axis].default) == 0);
        }
    }
}

} // verus!
