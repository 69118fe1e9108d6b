//! What holds of every glyph that is composited on a device.

use crate::geometry::{DevicePixels, Size};
use crate::glyph_compositor::{
    constants_of, fault_from, is_composited, is_drawn_and_read, is_glyph_composited, is_read_back,
    is_reset, is_state_composited, is_straight, is_unmultiplied, is_unpacked, layer_fault,
    layers_drawn, layers_fault, packed_rows, rows_complete, settings_fit, size_fits,
    ColorGlyphLayer, CompositeError, CompositorState, GlyphDevice, GlyphTarget, LayerError,
    MappedRows,
};
use crate::raster::{pixel_at, Pixel};
use crate::scalar::{computes, Arithmetic, Computation, Scalar};
use vstd::prelude::*;

verus! {

/// A glyph is drawn into a target of its own dimensions, and that target is kept. Only where the
/// device makes none does the compositor keep what it had, and report the failure.
pub proof fn law_targets_have_the_dimensions_of_the_bitmap<D: GlyphDevice>(
    before: CompositorState<D>,
    layers: Seq<ColorGlyphLayer>,
    size: Size<DevicePixels>,
    gamma_ratios: [Scalar; 4],
    contrast: Scalar,
    after: CompositorState<D>,
    result: Result<Vec<u8>, CompositeError<D::Error>>,
)
    requires
        is_state_composited(before, layers, size, gamma_ratios, contrast, after, result),
    ensures
        ({
            ||| {
                &&& after.target matches Some(target)
                &&& target.size.width.0 == size.width.0
                &&& target.size.height.0 == size.height.0
            }
            ||| exists|made: (D, Result<D::Target, D::Error>)|
                {
                    &&& #[trigger] call_ensures(D::new_target, (before.device, size), made)
                    &&& made.1 matches Err(error)
                    &&& result == Err::<Vec<u8>, CompositeError<D::Error>>(
                        CompositeError::Device(error),
                    )
                    &&& after == (CompositorState { device: made.0, target: before.target })
                }
        }),
        result is Ok ==> after.target is Some && after.target->0.size.width.0 == size.width.0
            && after.target->0.size.height.0 == size.height.0,
{
}

/// A target is made exactly if there is none of the bitmap's width and height, with the bitmap's
/// dimensions. One that has them is drawn into again.
pub proof fn law_targets_of_other_dimensions_are_replaced<D: GlyphDevice>(
    before: CompositorState<D>,
    layers: Seq<ColorGlyphLayer>,
    size: Size<DevicePixels>,
    gamma_ratios: [Scalar; 4],
    contrast: Scalar,
    after: CompositorState<D>,
    result: Result<Vec<u8>, CompositeError<D::Error>>,
)
    requires
        is_state_composited(before, layers, size, gamma_ratios, contrast, after, result),
    ensures
        before.target is None || before.target->0.size.width.0 != size.width.0
            || before.target->0.size.height.0 != size.height.0 ==> exists|
            made: (D, Result<D::Target, D::Error>),
        |
            {
                &&& #[trigger] call_ensures(D::new_target, (before.device, size), made)
                &&& made.1 matches Ok(texture) ==> {
                    &&& after.target == Some(GlyphTarget { size, texture })
                    &&& exists|begun: (D, D::SavedState)| #[trigger]
                        call_ensures(D::begin, (made.0, &texture), begun)
                }
            },
        before.target is Some && before.target->0.size.width.0 == size.width.0
            && before.target->0.size.height.0 == size.height.0 ==> {
            &&& after.target == before.target
            &&& exists|begun: (D, D::SavedState)| #[trigger]
                call_ensures(D::begin, (before.device, &before.target->0.texture), begun)
        },
{
    if before.target is Some && before.target->0.size.width.0 == size.width.0
        && before.target->0.size.height.0 == size.height.0 {
        assert(before.target->0.size == size);
    }
}

/// The words of a draw's constants, one by one: the layer's corner and dimensions as signed
/// numbers, its color, the gamma ratios and the contrast, and padding up to twenty words.
pub open spec fn are_words_of(
    words: Seq<u32>,
    layer: ColorGlyphLayer,
    gamma_ratios: [Scalar; 4],
    contrast: Scalar,
) -> bool {
    &&& words.len() == 20
    &&& (words[0] - layer.bounds.origin.x.0) % 0x1_0000_0000 == 0
    &&& (words[1] - layer.bounds.origin.y.0) % 0x1_0000_0000 == 0
    &&& (words[2] - layer.bounds.size.width.0) % 0x1_0000_0000 == 0
    &&& (words[3] - layer.bounds.size.height.0) % 0x1_0000_0000 == 0
    &&& forall|channel: int|
        0 <= channel < 4 ==> words[4 + channel] == (#[trigger] layer.color@[channel]).bits
    &&& forall|ratio: int|
        0 <= ratio < 4 ==> words[8 + ratio] == (#[trigger] gamma_ratios@[ratio]).bits
    &&& words[12] == contrast.bits
    &&& forall|at: int| 13 <= at < 20 ==> #[trigger] words[at] == 0
}

/// The constants of a draw hold the layer and the settings, each number in its own word.
pub proof fn law_constants_hold_the_layer(
    layer: ColorGlyphLayer,
    gamma_ratios: [Scalar; 4],
    contrast: Scalar,
)
    ensures
        are_words_of(constants_of(layer, gamma_ratios, contrast), layer, gamma_ratios, contrast),
{
    let words = constants_of(layer, gamma_ratios, contrast);
    assert forall|channel: int| 0 <= channel < 4 implies words[4 + channel]
        == (#[trigger] layer.color@[channel]).bits by {
        assert(channel == 0 || channel == 1 || channel == 2 || channel == 3);
    }
    assert forall|ratio: int| 0 <= ratio < 4 implies words[8 + ratio]
        == (#[trigger] gamma_ratios@[ratio]).bits by {
        assert(ratio == 0 || ratio == 1 || ratio == 2 || ratio == 3);
    }
    assert forall|at: int| 13 <= at < 20 implies #[trigger] words[at] == 0 by {
        assert(at == 13 || at == 14 || at == 15 || at == 16 || at == 17 || at == 18 || at == 19);
    }
}

/// A layer was uploaded to `before`, and drawn there in its own place with its own constants,
/// which left `after`.
pub open spec fn layer_was_drawn<D: GlyphDevice>(
    before: D,
    layer: ColorGlyphLayer,
    gamma_ratios: [Scalar; 4],
    contrast: Scalar,
    after: D,
) -> bool {
    exists|loaded: D, view: D::LayerView, constants: &Vec<u32>, drawn: Result<(), D::Error>|
        {
            &&& #[trigger] call_ensures(
                D::upload_layer,
                (before, &layer),
                (loaded, Ok::<D::LayerView, D::Error>(view)),
            )
            &&& #[trigger] call_ensures(
                D::draw_layer,
                (loaded, view, constants, layer.bounds),
                (after, drawn),
            )
            &&& drawn is Ok
            &&& are_words_of(constants@, layer, gamma_ratios, contrast)
        }
}

/// A layer failed on `before`, to be uploaded or to be drawn, which left `after`.
pub open spec fn layer_failed<D: GlyphDevice>(
    before: D,
    layer: ColorGlyphLayer,
    after: D,
    error: D::Error,
) -> bool {
    ||| call_ensures(
        D::upload_layer,
        (before, &layer),
        (after, Err::<D::LayerView, D::Error>(error)),
    )
    ||| exists|loaded: D, view: D::LayerView, constants: &Vec<u32>|
        {
            &&& #[trigger] call_ensures(
                D::upload_layer,
                (before, &layer),
                (loaded, Ok::<D::LayerView, D::Error>(view)),
            )
            &&& #[trigger] call_ensures(
                D::draw_layer,
                (loaded, view, constants, layer.bounds),
                (after, Err::<(), D::Error>(error)),
            )
        }
}

/// The devices between draws, from the first on: each layer was drawn on the one before it and
/// left the one behind it.
pub open spec fn drawn_in_turn<D: GlyphDevice>(
    devices: Seq<D>,
    layers: Seq<ColorGlyphLayer>,
    gamma_ratios: [Scalar; 4],
    contrast: Scalar,
) -> bool {
    &&& 0 < devices.len() <= layers.len() + 1
    &&& forall|index: int|
        0 <= index < devices.len() - 1 ==> layer_was_drawn(
            #[trigger] devices[index],
            layers[index],
            gamma_ratios,
            contrast,
            devices[index + 1],
        )
}

/// Layers are drawn from the first to the last, each once, up to one that fails.
pub proof fn law_layers_are_drawn_in_turn<D: GlyphDevice>(
    before: D,
    layers: Seq<ColorGlyphLayer>,
    gamma_ratios: [Scalar; 4],
    contrast: Scalar,
    after: D,
    outcome: Result<(), D::Error>,
)
    requires
        layers_drawn(before, layers, gamma_ratios, contrast, 0, after, outcome),
    ensures
        exists|devices: Seq<D>|
            {
                &&& #[trigger] drawn_in_turn(devices, layers, gamma_ratios, contrast)
                &&& devices.first() == before
                &&& match outcome {
                    Ok(()) => devices.len() == layers.len() + 1 && devices.last() == after,
                    Err(error) => devices.len() <= layers.len() && layer_failed(
                        devices.last(),
                        layers[devices.len() - 1],
                        after,
                        error,
                    ),
                }
            },
{
    let devices = seq![before];
    assert(drawn_in_turn(devices, layers, gamma_ratios, contrast));
    lemma_drawn_on(devices, layers, gamma_ratios, contrast, after, outcome);
}

/// Draws that went on behind some devices went on from the last of them.
proof fn lemma_drawn_on<D: GlyphDevice>(
    devices: Seq<D>,
    layers: Seq<ColorGlyphLayer>,
    gamma_ratios: [Scalar; 4],
    contrast: Scalar,
    after: D,
    outcome: Result<(), D::Error>,
)
    requires
        drawn_in_turn(devices, layers, gamma_ratios, contrast),
        layers_drawn(
            devices.last(),
            layers,
            gamma_ratios,
            contrast,
            devices.len() - 1,
            after,
            outcome,
        ),
    ensures
        exists|all: Seq<D>|
            {
                &&& #[trigger] drawn_in_turn(all, layers, gamma_ratios, contrast)
                &&& all.first() == devices.first()
                &&& match outcome {
                    Ok(()) => all.len() == layers.len() + 1 && all.last() == after,
                    Err(error) => all.len() <= layers.len() && layer_failed(
                        all.last(),
                        layers[all.len() - 1],
                        after,
                        error,
                    ),
                }
            },
    decreases layers.len() + 1 - devices.len(),
{
    let index = devices.len() - 1;
    let before = devices.last();
    if index < layers.len() {
        law_constants_hold_the_layer(layers[index], gamma_ratios, contrast);
        let (loaded, view) = choose|loaded: D, view: Result<D::LayerView, D::Error>|
            {
                &&& #[trigger] call_ensures(
                    D::upload_layer,
                    (before, &layers[index]),
                    (loaded, view),
                )
                &&& match view {
                    Err(error) => after == loaded && outcome == Err::<(), D::Error>(error),
                    Ok(view) => exists|
                        constants: &Vec<u32>,
                        between: D,
                        drawn: Result<(), D::Error>,
                    |
                        {
                            &&& #[trigger] call_ensures(
                                D::draw_layer,
                                (loaded, view, constants, layers[index].bounds),
                                (between, drawn),
                            )
                            &&& constants@ == constants_of(layers[index], gamma_ratios, contrast)
                            &&& match drawn {
                                Err(error) => after == between && outcome == Err::<
                                    (),
                                    D::Error,
                                >(error),
                                Ok(()) => layers_drawn(
                                    between,
                                    layers,
                                    gamma_ratios,
                                    contrast,
                                    index + 1,
                                    after,
                                    outcome,
                                ),
                            }
                        },
                }
            };
        if view is Ok {
            let shown = view->Ok_0;
            let (constants, between, drawn) = choose|
                constants: &Vec<u32>,
                between: D,
                drawn: Result<(), D::Error>,
            |
                {
                    &&& #[trigger] call_ensures(
                        D::draw_layer,
                        (loaded, shown, constants, layers[index].bounds),
                        (between, drawn),
                    )
                    &&& constants@ == constants_of(layers[index], gamma_ratios, contrast)
                    &&& match drawn {
                        Err(error) => after == between && outcome == Err::<(), D::Error>(error),
                        Ok(()) => layers_drawn(
                            between,
                            layers,
                            gamma_ratios,
                            contrast,
                            index + 1,
                            after,
                            outcome,
                        ),
                    }
                };
            assert(call_ensures(
                D::upload_layer,
                (before, &layers[index]),
                (loaded, Ok::<D::LayerView, D::Error>(shown)),
            ));
            if drawn is Ok {
                assert(layer_was_drawn(before, layers[index], gamma_ratios, contrast, between));
                let longer = devices.push(between);
                assert forall|step: int| 0 <= step < longer.len() - 1 implies layer_was_drawn(
                    #[trigger] longer[step],
                    layers[step],
                    gamma_ratios,
                    contrast,
                    longer[step + 1],
                ) by {
                    if step < devices.len() - 1 {
                        assert(longer[step] == devices[step]);
                        assert(longer[step + 1] == devices[step + 1]);
                    }
                }
                assert(drawn_in_turn(longer, layers, gamma_ratios, contrast));
                lemma_drawn_on(longer, layers, gamma_ratios, contrast, after, outcome);
            } else {
                let error = drawn->Err_0;
                assert(call_ensures(
                    D::draw_layer,
                    (loaded, shown, constants, layers[index].bounds),
                    (between, Err::<(), D::Error>(error)),
                ));
                assert(layer_failed(before, layers[index], after, error));
            }
        } else {
            let error = view->Err_0;
            assert(layer_failed(before, layers[index], after, error));
        }
    }
}

/// A bitmap comes from one course of work on one texture: the device is prepared, all layers are
/// drawn, the texture is resolved and read, and the device's state is put back last.
pub open spec fn worked_through<D: GlyphDevice>(
    before: D,
    texture: D::Target,
    layers: Seq<ColorGlyphLayer>,
    gamma_ratios: [Scalar; 4],
    contrast: Scalar,
    saved: D::SavedState,
    devices: Seq<D>,
    resolved: D,
    read: D,
    rows: MappedRows,
    after: D,
) -> bool {
    &&& drawn_in_turn(devices, layers, gamma_ratios, contrast)
    &&& devices.len() == layers.len() + 1
    &&& call_ensures(D::begin, (before, &texture), (devices.first(), saved))
    &&& call_ensures(D::resolve, (devices.last(), &texture), resolved)
    &&& call_ensures(
        D::read_rows,
        (resolved, &texture),
        (read, Ok::<MappedRows, D::Error>(rows)),
    )
    &&& call_ensures(D::restore, (read, saved), after)
}

/// A bitmap that compositing gives was read from the texture that all layers were drawn into.
pub proof fn law_bitmaps_are_read_from_what_was_drawn<D: GlyphDevice>(
    before: D,
    texture: D::Target,
    layers: Seq<ColorGlyphLayer>,
    size: Size<DevicePixels>,
    gamma_ratios: [Scalar; 4],
    contrast: Scalar,
    after: D,
    pixels: Vec<u8>,
)
    requires
        is_composited(
            before,
            texture,
            layers,
            size,
            gamma_ratios,
            contrast,
            after,
            Ok::<Vec<u8>, CompositeError<D::Error>>(pixels),
        ),
    ensures
        exists|
            saved: D::SavedState,
            devices: Seq<D>,
            resolved: D,
            read: D,
            rows: MappedRows,
        |
            {
                &&& #[trigger] worked_through(
                    before,
                    texture,
                    layers,
                    gamma_ratios,
                    contrast,
                    saved,
                    devices,
                    resolved,
                    read,
                    rows,
                    after,
                )
                &&& is_unpacked(&read, rows, size, Ok::<Vec<u8>, CompositeError<D::Error>>(pixels))
            },
{
    let result = Ok::<Vec<u8>, CompositeError<D::Error>>(pixels);
    let (begun, saved, done) = choose|begun: D, saved: D::SavedState, done: D|
        {
            &&& #[trigger] call_ensures(D::begin, (before, &texture), (begun, saved))
            &&& is_drawn_and_read(
                begun,
                texture,
                layers,
                size,
                gamma_ratios,
                contrast,
                done,
                result,
            )
            &&& #[trigger] call_ensures(D::restore, (done, saved), after)
        };
    let (drawn, outcome) = choose|drawn: D, outcome: Result<(), D::Error>|
        {
            &&& #[trigger] layers_drawn(
                begun,
                layers,
                gamma_ratios,
                contrast,
                0,
                drawn,
                outcome,
            )
            &&& match outcome {
                Err(error) => done == drawn && result == Err::<Vec<u8>, CompositeError<D::Error>>(
                    CompositeError::Device(error),
                ),
                Ok(()) => is_read_back(drawn, texture, size, done, result),
            }
        };
    law_layers_are_drawn_in_turn(begun, layers, gamma_ratios, contrast, drawn, outcome);
    let devices = choose|devices: Seq<D>|
        {
            &&& #[trigger] drawn_in_turn(devices, layers, gamma_ratios, contrast)
            &&& devices.first() == begun
            &&& devices.len() == layers.len() + 1
            &&& devices.last() == drawn
        };
    let (resolved, rows) = choose|resolved: D, rows: Result<MappedRows, D::Error>|
        {
            &&& #[trigger] call_ensures(D::resolve, (drawn, &texture), resolved)
            &&& #[trigger] call_ensures(D::read_rows, (resolved, &texture), (done, rows))
            &&& match rows {
                Err(error) => result == Err::<Vec<u8>, CompositeError<D::Error>>(
                    CompositeError::Device(error),
                ),
                Ok(rows) => is_unpacked(&done, rows, size, result),
            }
        };
    assert(call_ensures(
        D::read_rows,
        (resolved, &texture),
        (done, Ok::<MappedRows, D::Error>(rows->Ok_0)),
    ));
    assert(worked_through(
        before,
        texture,
        layers,
        gamma_ratios,
        contrast,
        saved,
        devices,
        resolved,
        done,
        rows->Ok_0,
        after,
    ));
}

/// Where compositing on a texture gives no bitmap, a layer failed, or the texture could not be
/// read, or too few bytes were; the device's state is put back all the same.
pub proof fn law_failures_come_from_the_device<D: GlyphDevice>(
    before: D,
    texture: D::Target,
    layers: Seq<ColorGlyphLayer>,
    size: Size<DevicePixels>,
    gamma_ratios: [Scalar; 4],
    contrast: Scalar,
    after: D,
    failure: CompositeError<D::Error>,
)
    requires
        is_composited(
            before,
            texture,
            layers,
            size,
            gamma_ratios,
            contrast,
            after,
            Err::<Vec<u8>, CompositeError<D::Error>>(failure),
        ),
    ensures
        failure is Device || failure is IncompleteRows,
        exists|begun: (D, D::SavedState), done: D|
            {
                &&& #[trigger] call_ensures(D::begin, (before, &texture), begun)
                &&& #[trigger] call_ensures(D::restore, (done, begun.1), after)
                &&& failure matches CompositeError::Device(error) ==> ({
                    ||| exists|last: D, layer: int|
                        0 <= layer < layers.len() && #[trigger] layer_failed(
                            last,
                            layers[layer],
                            done,
                            error,
                        )
                    ||| exists|resolved: D| #[trigger]
                        call_ensures(
                            D::read_rows,
                            (resolved, &texture),
                            (done, Err::<MappedRows, D::Error>(error)),
                        )
                })
            },
{
    let result = Err::<Vec<u8>, CompositeError<D::Error>>(failure);
    let (begun, saved, done) = choose|begun: D, saved: D::SavedState, done: D|
        {
            &&& #[trigger] call_ensures(D::begin, (before, &texture), (begun, saved))
            &&& is_drawn_and_read(
                begun,
                texture,
                layers,
                size,
                gamma_ratios,
                contrast,
                done,
                result,
            )
            &&& #[trigger] call_ensures(D::restore, (done, saved), after)
        };
    let (drawn, outcome) = choose|drawn: D, outcome: Result<(), D::Error>|
        {
            &&& #[trigger] layers_drawn(
                begun,
                layers,
                gamma_ratios,
                contrast,
                0,
                drawn,
                outcome,
            )
            &&& match outcome {
                Err(error) => done == drawn && result == Err::<Vec<u8>, CompositeError<D::Error>>(
                    CompositeError::Device(error),
                ),
                Ok(()) => is_read_back(drawn, texture, size, done, result),
            }
        };
    law_layers_are_drawn_in_turn(begun, layers, gamma_ratios, contrast, drawn, outcome);
    let kept = (begun, saved);
    assert(call_ensures(D::begin, (before, &texture), kept));
    assert(call_ensures(D::restore, (done, kept.1), after));
}

/// A layer is accepted exactly if a texture can have its dimensions, it has a byte of coverage for
/// each pixel, its color is made of numbers from zero to one, and a viewport can start at its
/// corner. Otherwise the first of these that fails is the error.
pub proof fn law_layers_are_refused_for_cause(layer: ColorGlyphLayer)
    ensures
        ({
            let width = layer.bounds.size.width.0;
            let height = layer.bounds.size.height.0;
            let origin = layer.bounds.origin;
            let sized = 1 <= width <= 16384 && 1 <= height <= 16384;
            let covered = layer.coverage@.len() == width * height;
            let colored = forall|channel: int|
                0 <= channel < 4 ==> (#[trigger] layer.color@[channel]).bits <= 0x3f80_0000
                    || layer.color@[channel].bits == 0x8000_0000;
            let placed = -16384 <= origin.x.0 <= 16384 && -16384 <= origin.y.0 <= 16384;
            &&& layer_fault(layer) is None <==> sized && covered && colored && placed
            &&& !sized ==> layer_fault(layer) == Some(
                LayerError::DimensionsOutOfRange { width, height },
            )
            &&& sized && !covered ==> layer_fault(layer) is Some && layer_fault(layer)->0
                is CoverageLength && layer_fault(layer)->0->actual
                == layer.coverage@.len() && layer_fault(layer)->0->expected == width * height
            &&& sized && covered && !colored ==> layer_fault(layer) == Some(
                LayerError::InvalidColor,
            )
            &&& sized && covered && colored && !placed ==> layer_fault(layer) == Some(
                LayerError::OriginOutOfRange,
            )
        }),
{
    let width = layer.bounds.size.width.0 as int;
    let height = layer.bounds.size.height.0 as int;
    let colored = forall|channel: int|
        0 <= channel < 4 ==> (#[trigger] layer.color@[channel]).bits <= 0x3f80_0000
            || layer.color@[channel].bits == 0x8000_0000;
    if crate::glyph_compositor::color_fits(layer.color) {
        assert forall|channel: int| 0 <= channel < 4 implies (#[trigger] layer.color@[channel]).bits
            <= 0x3f80_0000 || layer.color@[channel].bits == 0x8000_0000 by {
            assert(layer.color@[channel].finite());
        }
    }
    if colored {
        assert forall|channel: int| 0 <= channel < 4 implies (
        #[trigger] layer.color@[channel]).finite() && layer.color@[channel].in_unit_interval() by {
            assert(layer.color@[channel].bits <= 0x3f80_0000 || layer.color@[channel].bits
                == 0x8000_0000);
        }
    }
    if 1 <= width <= 16384 && 1 <= height <= 16384 {
        assert(1 <= width * height <= 16384 * 16384) by (nonlinear_arith)
            requires
                1 <= width <= 16384,
                1 <= height <= 16384,
        ;
    }
    assert(layer.coverage.len() == layer.coverage@.len());
}

/// The error of a glyph's layers is that of its bitmap, or else that of the first layer that is
/// refused.
pub proof fn law_the_first_fault_is_reported(
    layers: Seq<ColorGlyphLayer>,
    size: Size<DevicePixels>,
    fault: LayerError,
)
    requires
        layers_fault(layers, size) == Some(fault),
    ensures
        ({
            let sized = 1 <= size.width.0 <= 16384 && 1 <= size.height.0 <= 16384;
            &&& !sized ==> fault == (LayerError::DimensionsOutOfRange {
                width: size.width.0,
                height: size.height.0,
            })
            &&& sized ==> exists|index: int|
                {
                    &&& 0 <= index < layers.len()
                    &&& layer_fault(#[trigger] layers[index]) == Some(fault)
                    &&& forall|earlier: int|
                        0 <= earlier < index ==> layer_fault(#[trigger] layers[earlier]) is None
                }
        }),
{
    if size_fits(size) {
        lemma_first_fault(layers, 0, fault);
    }
}

/// The fault from `start` on is that of the first layer there that is refused.
proof fn lemma_first_fault(layers: Seq<ColorGlyphLayer>, start: int, fault: LayerError)
    requires
        0 <= start,
        fault_from(layers, start) == Some(fault),
    ensures
        exists|index: int|
            {
                &&& start <= index < layers.len()
                &&& layer_fault(#[trigger] layers[index]) == Some(fault)
                &&& forall|earlier: int|
                    start <= earlier < index ==> layer_fault(#[trigger] layers[earlier]) is None
            },
    decreases layers.len() - start,
{
    if layer_fault(layers[start]) is None {
        lemma_first_fault(layers, start + 1, fault);
        let index = choose|index: int|
            {
                &&& start + 1 <= index < layers.len()
                &&& layer_fault(#[trigger] layers[index]) == Some(fault)
                &&& forall|earlier: int|
                    start + 1 <= earlier < index ==> layer_fault(#[trigger] layers[earlier])
                        is None
            };
        assert forall|earlier: int| start <= earlier < index implies layer_fault(
            #[trigger] layers[earlier],
        ) is None by {}
        assert(layer_fault(layers[index]) == Some(fault));
    } else {
        assert(layer_fault(layers[start]) == Some(fault));
    }
}

/// The settings are accepted exactly if the four gamma ratios are finite, and the contrast is and
/// is not negative.
pub proof fn law_settings_are_refused_for_cause(gamma_ratios: [Scalar; 4], contrast: Scalar)
    ensures
        settings_fit(gamma_ratios, contrast) <==> {
            &&& gamma_ratios@[0].bits % 0x8000_0000 < 0x7f80_0000
            &&& gamma_ratios@[1].bits % 0x8000_0000 < 0x7f80_0000
            &&& gamma_ratios@[2].bits % 0x8000_0000 < 0x7f80_0000
            &&& gamma_ratios@[3].bits % 0x8000_0000 < 0x7f80_0000
            &&& contrast.bits < 0x7f80_0000 || contrast.bits == 0x8000_0000
        },
{
    if settings_fit(gamma_ratios, contrast) {
        assert(gamma_ratios@[0].finite() && gamma_ratios@[1].finite() && gamma_ratios@[2].finite()
            && gamma_ratios@[3].finite());
    }
    if gamma_ratios@[0].finite() && gamma_ratios@[1].finite() && gamma_ratios@[2].finite()
        && gamma_ratios@[3].finite() {
        assert forall|ratio: int| 0 <= ratio < 4 implies (
        #[trigger] gamma_ratios@[ratio]).finite() by {
            assert(ratio == 0 || ratio == 1 || ratio == 2 || ratio == 3);
        }
    }
}

/// Nothing is submitted, and nothing changes, on another thread than the owner's, without a
/// device, for layers that are refused and for settings that are. Otherwise the glyph is drawn,
/// and its bitmap is returned.
pub proof fn law_only_valid_glyphs_are_submitted<D: GlyphDevice>(
    before: Option<CompositorState<D>>,
    on_owner_thread: bool,
    layers: Seq<ColorGlyphLayer>,
    size: Size<DevicePixels>,
    gamma_ratios: [Scalar; 4],
    contrast: Scalar,
    after: Option<CompositorState<D>>,
    result: Result<Option<Vec<u8>>, CompositeError<D::Error>>,
)
    requires
        is_glyph_composited(
            before,
            on_owner_thread,
            layers,
            size,
            gamma_ratios,
            contrast,
            after,
            result,
        ),
    ensures
        result == Ok::<Option<Vec<u8>>, CompositeError<D::Error>>(None) <==> !on_owner_thread
            || before is None,
        on_owner_thread && before is Some ==> {
            &&& layers_fault(layers, size) matches Some(fault) ==> result == Err::<
                Option<Vec<u8>>,
                CompositeError<D::Error>,
            >(CompositeError::Layers(fault))
            &&& result is Err && result->Err_0 is Layers ==> layers_fault(layers, size) is Some
            &&& layers_fault(layers, size) is None && !settings_fit(gamma_ratios, contrast)
                <==> result == Err::<Option<Vec<u8>>, CompositeError<D::Error>>(
                CompositeError::InvalidSettings,
            )
        },
        !on_owner_thread || before is None || layers_fault(layers, size) is Some || !settings_fit(
            gamma_ratios,
            contrast,
        ) ==> after == before,
        on_owner_thread && before is Some && layers_fault(layers, size) is None && settings_fit(
            gamma_ratios,
            contrast,
        ) ==> {
            &&& after is Some
            &&& is_state_composited(
                before->0,
                layers,
                size,
                gamma_ratios,
                contrast,
                after->0,
                match result {
                    Ok(pixels) => Ok(pixels->0),
                    Err(error) => Err(error),
                },
            )
            &&& result matches Err(error) ==> error is Device || error is IncompleteRows
        },
{
    if on_owner_thread && before is Some && layers_fault(layers, size) is None && settings_fit(
        gamma_ratios,
        contrast,
    ) {
        if let Err(error) = result {
            lemma_composite_failures(
                before->0,
                layers,
                size,
                gamma_ratios,
                contrast,
                after->0,
                error,
            );
        }
    }
}

/// A glyph that was submitted fails for no other reason than the device.
proof fn lemma_composite_failures<D: GlyphDevice>(
    before: CompositorState<D>,
    layers: Seq<ColorGlyphLayer>,
    size: Size<DevicePixels>,
    gamma_ratios: [Scalar; 4],
    contrast: Scalar,
    after: CompositorState<D>,
    failure: CompositeError<D::Error>,
)
    requires
        is_state_composited(
            before,
            layers,
            size,
            gamma_ratios,
            contrast,
            after,
            Err::<Vec<u8>, CompositeError<D::Error>>(failure),
        ),
    ensures
        failure is Device || failure is IncompleteRows,
{
}

/// A reset is refused on another thread than the owner's. Otherwise it makes a device and starts
/// with it and no target, or is left without one and reports why.
pub proof fn law_resets_replace_the_device<D: GlyphDevice, F: FnOnce() -> Result<D, D::Error>>(
    before: Option<CompositorState<D>>,
    on_owner_thread: bool,
    make: F,
    after: Option<CompositorState<D>>,
    result: Result<(), CompositeError<D::Error>>,
)
    requires
        is_reset(before, on_owner_thread, make, after, result),
    ensures
        !on_owner_thread ==> result == Err::<(), CompositeError<D::Error>>(
            CompositeError::WrongThread,
        ) && after == before,
        on_owner_thread ==> exists|made: Result<D, D::Error>|
            {
                &&& #[trigger] make.ensures((), made)
                &&& made matches Ok(device) ==> result is Ok && after == Some(
                    CompositorState { device, target: None },
                )
                &&& made matches Err(error) ==> result == Err::<(), CompositeError<D::Error>>(
                    CompositeError::Device(error),
                ) && after is None
            },
{
}

/// Every byte of packed rows is that of its own row and column.
proof fn lemma_packed_bytes(
    bytes: Seq<u8>,
    row_pitch: int,
    row_bytes: int,
    height: nat,
    row: int,
    column: int,
)
    requires
        0 <= row_pitch,
        0 <= row_bytes,
        height > 0 ==> (height - 1) * row_pitch + row_bytes <= bytes.len(),
        0 <= row < height ==> 0 <= column < row_bytes,
    ensures
        packed_rows(bytes, row_pitch, row_bytes, height).len() == row_bytes * height,
        0 <= row < height ==> packed_rows(bytes, row_pitch, row_bytes, height)[row * row_bytes
            + column] == bytes[row * row_pitch + column],
    decreases height,
{
    if height > 0 {
        let less = (height - 1) as nat;
        assert(0 <= (height - 1) * row_pitch) by (nonlinear_arith)
            requires
                height > 0,
                0 <= row_pitch,
        ;
        if height > 1 {
            assert((height - 2) * row_pitch <= (height - 1) * row_pitch) by (nonlinear_arith)
                requires
                    height > 1,
                    0 <= row_pitch,
            ;
        }
        lemma_packed_bytes(bytes, row_pitch, row_bytes, less, row, column);
        assert(row_bytes * height == row_bytes * (height - 1) + row_bytes) by (nonlinear_arith);
        if 0 <= row < less {
            assert(0 <= row * row_bytes && row * row_bytes + column < row_bytes * less)
                by (nonlinear_arith)
                requires
                    0 <= row,
                    row + 1 <= less,
                    0 <= column < row_bytes,
            ;
        } else if row == less {
            assert(row * row_bytes == row_bytes * less) by (nonlinear_arith)
                requires
                    row == less,
            ;
        }
    } else {
        assert(row_bytes * 0 == 0) by (nonlinear_arith);
    }
}

/// A channel is divided by its alpha: it is the whole part of its product with 255 over alpha.
pub proof fn law_channels_are_divided_by_alpha<A: Arithmetic>(
    arithmetic: &A,
    by: Computation,
    channel: u8,
    alpha: u8,
    straight: u8,
)
    requires
        computes(arithmetic, by),
        is_unmultiplied(arithmetic, channel, alpha, straight),
    ensures
        straight == (by.product)(
            (by.from_integer)(channel as u32),
            (by.quotient)(Scalar { bits: 0x437f_0000 }, (by.from_integer)(alpha as u32)),
        ).byte(),
{
}

/// Rows that were read in full become a bitmap: the pixel in a row and a column has the alpha
/// that was read there and the colors that were, divided by it; one without alpha is clear. Rows
/// that are short are refused.
pub proof fn law_bitmaps_hold_the_rows_that_were_read<D: GlyphDevice>(
    device: &D,
    rows: MappedRows,
    size: Size<DevicePixels>,
    result: Result<Vec<u8>, CompositeError<D::Error>>,
    row: int,
    column: int,
)
    requires
        1 <= size.width.0 <= 16384,
        1 <= size.height.0 <= 16384,
        0 <= row < size.height.0,
        0 <= column < size.width.0,
        is_unpacked(device, rows, size, result),
    ensures
        ({
            let width = size.width.0;
            let height = size.height.0;
            let complete = (height - 1) * rows.row_pitch + 4 * width <= rows.bytes@.len();
            let read = row * rows.row_pitch + 4 * column;
            let written = 4 * (row * width + column);
            let alpha = rows.bytes@[read + 3];
            &&& !complete ==> result == Err::<Vec<u8>, CompositeError<D::Error>>(
                CompositeError::IncompleteRows,
            )
            &&& complete ==> result is Ok
            &&& result matches Ok(pixels) ==> {
                &&& pixels@.len() == 4 * (width * height)
                &&& pixels@[written + 3] == alpha
                &&& alpha == 0 ==> pixels@[written] == 0 && pixels@[written + 1] == 0
                    && pixels@[written + 2] == 0
                &&& alpha != 0 ==> {
                    &&& is_unmultiplied(device, rows.bytes@[read], alpha, pixels@[written])
                    &&& is_unmultiplied(device, rows.bytes@[read + 1], alpha, pixels@[written + 1])
                    &&& is_unmultiplied(device, rows.bytes@[read + 2], alpha, pixels@[written + 2])
                }
            }
        }),
{
    let width = size.width.0 as int;
    let height = size.height.0 as int;
    let pitch = rows.row_pitch as int;
    let bytes = rows.bytes@;
    let packed = packed_rows(bytes, pitch, width * 4, height as nat);
    let index = row * width + column;
    if rows_complete(rows, width * 4, height) {
        lemma_packed_bytes(bytes, pitch, width * 4, height as nat, row, 4 * column);
        lemma_packed_bytes(bytes, pitch, width * 4, height as nat, row, 4 * column + 1);
        lemma_packed_bytes(bytes, pitch, width * 4, height as nat, row, 4 * column + 2);
        lemma_packed_bytes(bytes, pitch, width * 4, height as nat, row, 4 * column + 3);
        assert(row * (width * 4) + 4 * column == 4 * index) by (nonlinear_arith)
            requires
                index == row * width + column,
        ;
        assert((width * 4) * height == 4 * (width * height)) by (nonlinear_arith);
        assert(0 <= index < width * height) by (nonlinear_arith)
            requires
                index == row * width + column,
                0 <= row < height,
                0 <= column < width,
        ;
        assert(packed.len() / 4 == width * height);
        let pixels = result->Ok_0;
        let before = pixel_at(packed, index);
        let after = pixel_at(pixels@, index);
        assert(is_straight(device, before, after));
    }
}

} // verus!
