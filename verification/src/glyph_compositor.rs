//! Compositing the layers of a color glyph on a graphics device.
//!
//! The host supplies the device. This module validates what is submitted, orders the work, lays
//! out the constants of each draw, and unpacks what is read back.

use crate::geometry::{Bounds, DevicePixels, Point, Size};
use crate::raster::{convert_pixels, pixel_at, pixels_mapped, Pixel};
use crate::scalar::{Arithmetic, Scalar};
use vstd::prelude::*;
use vstd::slice::slice_subrange;

verus! {

/// The largest dimension of a texture, and the largest distance of a viewport.
pub const MAX_TEXTURE_DIMENSION: i32 = 16384;

/// One layer of a color glyph.
#[derive(Debug)]
pub struct ColorGlyphLayer {
    /// Layer placement relative to the complete glyph bitmap's top-left corner.
    pub bounds: Bounds<DevicePixels>,
    /// Red, green, blue and alpha.
    pub color: [Scalar; 4],
    /// One coverage byte per pixel, row by row.
    pub coverage: Vec<u8>,
}

/// Why layers are refused.
#[derive(Clone, Copy, Debug, PartialEq, Eq, Structural)]
pub enum LayerError {
    /// Glyph bitmap dimensions exceed the texture limits.
    DimensionsOutOfRange { width: i32, height: i32 },
    /// A layer has another number of coverage bytes than pixels.
    CoverageLength { actual: usize, expected: usize },
    /// A layer's color is not made of numbers from zero to one.
    InvalidColor,
    /// A layer's origin exceeds the viewport limits.
    OriginOutOfRange,
}

/// Whether a bitmap has dimensions that a texture can have.
pub open spec fn size_fits(size: Size<DevicePixels>) -> bool {
    &&& 1 <= size.width.0 <= MAX_TEXTURE_DIMENSION
    &&& 1 <= size.height.0 <= MAX_TEXTURE_DIMENSION
}

/// The number of pixels of a bitmap.
pub open spec fn pixel_count(size: Size<DevicePixels>) -> int {
    size.width.0 * size.height.0
}

/// The error for a bitmap of the wrong size.
pub open spec fn size_error(size: Size<DevicePixels>) -> LayerError {
    LayerError::DimensionsOutOfRange { width: size.width.0, height: size.height.0 }
}

/// Whether every number of a color is finite and lies between zero and one.
pub open spec fn color_fits(color: [Scalar; 4]) -> bool {
    forall|channel: int|
        0 <= channel < 4 ==> (#[trigger] color@[channel]).finite()
            && color@[channel].in_unit_interval()
}

/// Whether a viewport can start at a point.
pub open spec fn origin_fits(origin: Point<DevicePixels>) -> bool {
    &&& -MAX_TEXTURE_DIMENSION <= origin.x.0 <= MAX_TEXTURE_DIMENSION
    &&& -MAX_TEXTURE_DIMENSION <= origin.y.0 <= MAX_TEXTURE_DIMENSION
}

/// What is wrong with a layer, if anything: the first of its size, its coverage, its color and
/// its origin.
pub open spec fn layer_fault(layer: ColorGlyphLayer) -> Option<LayerError> {
    if !size_fits(layer.bounds.size) {
        Some(size_error(layer.bounds.size))
    } else if layer.coverage@.len() != pixel_count(layer.bounds.size) {
        Some(
            LayerError::CoverageLength {
                actual: layer.coverage@.len() as usize,
                expected: pixel_count(layer.bounds.size) as usize,
            },
        )
    } else if !color_fits(layer.color) {
        Some(LayerError::InvalidColor)
    } else if !origin_fits(layer.bounds.origin) {
        Some(LayerError::OriginOutOfRange)
    } else {
        None
    }
}

/// What is wrong with the layers from `index` on, if anything: the first fault.
pub open spec fn fault_from(layers: Seq<ColorGlyphLayer>, index: int) -> Option<LayerError>
    decreases layers.len() - index,
{
    if index >= layers.len() {
        None
    } else {
        match layer_fault(layers[index]) {
            Some(fault) => Some(fault),
            None => fault_from(layers, index + 1),
        }
    }
}

/// What is wrong with a bitmap and its layers, if anything: the first fault.
pub open spec fn layers_fault(layers: Seq<ColorGlyphLayer>, size: Size<DevicePixels>) -> Option<
    LayerError,
> {
    if !size_fits(size) {
        Some(size_error(size))
    } else {
        fault_from(layers, 0)
    }
}

/// The number of pixels of a bitmap that fits in a texture.
pub fn validate_size(size: Size<DevicePixels>) -> (count: Result<usize, LayerError>)
    ensures
        match count {
            Ok(count) => size_fits(size) && count == pixel_count(size),
            Err(error) => !size_fits(size) && error == size_error(size),
        },
{
    let width: i32 = size.width.0;
    let height: i32 = size.height.0;
    if width < 1 || width > MAX_TEXTURE_DIMENSION || height < 1 || height > MAX_TEXTURE_DIMENSION {
        return Err(LayerError::DimensionsOutOfRange { width, height });
    }
    assert(1 <= width * height <= MAX_TEXTURE_DIMENSION * MAX_TEXTURE_DIMENSION) by (nonlinear_arith)
        requires
            1 <= width <= MAX_TEXTURE_DIMENSION,
            1 <= height <= MAX_TEXTURE_DIMENSION,
    ;
    Ok(width as usize * height as usize)
}

/// Whether every number of a color is finite and lies between zero and one.
fn is_color(color: &[Scalar; 4]) -> (holds: bool)
    ensures
        holds == color_fits(*color),
{
    let holds: bool = color[0].is_in_unit_interval() && color[1].is_in_unit_interval()
        && color[2].is_in_unit_interval() && color[3].is_in_unit_interval();
    proof {
        if color_fits(*color) {
            assert(color@[0].finite() && color@[1].finite() && color@[2].finite()
                && color@[3].finite());
        }
    }
    holds
}

/// Checks the layers of a glyph before any of them is submitted.
pub fn validate_layers(layers: &[ColorGlyphLayer], size: Size<DevicePixels>) -> (result: Result<
    (),
    LayerError,
>)
    ensures
        match result {
            Ok(()) => layers_fault(layers@, size) is None,
            Err(error) => layers_fault(layers@, size) == Some(error),
        },
{
    if let Err(error) = validate_size(size) {
        return Err(error);
    }
    let mut index: usize = 0;
    while index < layers.len()
        invariant
            index <= layers@.len(),
            layers_fault(layers@, size) == fault_from(layers@, index as int),
        decreases layers@.len() - index,
    {
        let layer: &ColorGlyphLayer = &layers[index];
        let expected: usize = match validate_size(layer.bounds.size) {
            Ok(expected) => expected,
            Err(error) => return Err(error),
        };
        let actual: usize = layer.coverage.len();
        if actual != expected {
            return Err(LayerError::CoverageLength { actual, expected });
        }
        if !is_color(&layer.color) {
            return Err(LayerError::InvalidColor);
        }
        let origin: Point<DevicePixels> = layer.bounds.origin;
        if origin.x.0 < -MAX_TEXTURE_DIMENSION || origin.x.0 > MAX_TEXTURE_DIMENSION || origin.y.0
            < -MAX_TEXTURE_DIMENSION || origin.y.0 > MAX_TEXTURE_DIMENSION {
            return Err(LayerError::OriginOutOfRange);
        }
        index += 1;
    }
    Ok(())
}

/// The layers are accepted exactly if the bitmap and every layer are.
pub proof fn law_layers_are_accepted_together(
    layers: Seq<ColorGlyphLayer>,
    size: Size<DevicePixels>,
)
    ensures
        layers_fault(layers, size) is None <==> size_fits(size) && forall|index: int|
            0 <= index < layers.len() ==> layer_fault(#[trigger] layers[index]) is None,
{
    lemma_fault_from(layers, 0);
}

/// No fault is found from `index` on exactly if every layer from there on is accepted.
proof fn lemma_fault_from(layers: Seq<ColorGlyphLayer>, index: int)
    requires
        0 <= index,
    ensures
        fault_from(layers, index) is None <==> forall|later: int|
            index <= later < layers.len() ==> layer_fault(#[trigger] layers[later]) is None,
    decreases layers.len() - index,
{
    if index < layers.len() {
        lemma_fault_from(layers, index + 1);
        if layer_fault(layers[index]) is None && fault_from(layers, index + 1) is None {
            assert forall|later: int| index <= later < layers.len() implies layer_fault(
                #[trigger] layers[later],
            ) is None by {}
        }
    }
}

/// The number of 32-bit words in the constants of a draw. The shader aligns the trailing padding
/// to a new register, so that the constants are longer than their fields.
pub const CONSTANT_WORDS: usize = 20;

/// A signed number as the word that encodes it.
pub open spec fn word_of(value: i32) -> u32 {
    if value < 0 {
        (value + 0x1_0000_0000) as u32
    } else {
        value as u32
    }
}

/// The constants of a layer's draw: its placement, its color, the gamma ratios, the contrast, and
/// padding.
pub open spec fn constants_of(
    layer: ColorGlyphLayer,
    gamma_ratios: [Scalar; 4],
    contrast: Scalar,
) -> Seq<u32> {
    seq![
        word_of(layer.bounds.origin.x.0),
        word_of(layer.bounds.origin.y.0),
        word_of(layer.bounds.size.width.0),
        word_of(layer.bounds.size.height.0),
        layer.color@[0].bits,
        layer.color@[1].bits,
        layer.color@[2].bits,
        layer.color@[3].bits,
        gamma_ratios@[0].bits,
        gamma_ratios@[1].bits,
        gamma_ratios@[2].bits,
        gamma_ratios@[3].bits,
        contrast.bits,
        0u32,
        0u32,
        0u32,
        0u32,
        0u32,
        0u32,
        0u32,
    ]
}

/// A signed number as the word that encodes it.
fn to_word(value: i32) -> (word: u32)
    ensures
        word == word_of(value),
{
    if value < 0 {
        (value as i64 + 0x1_0000_0000) as u32
    } else {
        value as u32
    }
}

/// The constants of a layer's draw.
pub fn layer_constants(layer: &ColorGlyphLayer, gamma_ratios: &[Scalar; 4], contrast: Scalar)
    -> (words: Vec<u32>)
    ensures
        words@ == constants_of(*layer, *gamma_ratios, contrast),
        words@.len() == CONSTANT_WORDS,
{
    let mut words: Vec<u32> = Vec::new();
    words.push(to_word(layer.bounds.origin.x.0));
    words.push(to_word(layer.bounds.origin.y.0));
    words.push(to_word(layer.bounds.size.width.0));
    words.push(to_word(layer.bounds.size.height.0));
    words.push(layer.color[0].bits);
    words.push(layer.color[1].bits);
    words.push(layer.color[2].bits);
    words.push(layer.color[3].bits);
    words.push(gamma_ratios[0].bits);
    words.push(gamma_ratios[1].bits);
    words.push(gamma_ratios[2].bits);
    words.push(gamma_ratios[3].bits);
    words.push(contrast.bits);
    let ghost fields = words@;
    while words.len() < CONSTANT_WORDS
        invariant
            fields.len() == 13,
            13 <= words@.len() <= CONSTANT_WORDS,
            words@ == fields + Seq::new((words@.len() - 13) as nat, |i: int| 0u32),
        decreases CONSTANT_WORDS - words@.len(),
    {
        words.push(0);
        assert(words@ =~= fields + Seq::new((words@.len() - 13) as nat, |i: int| 0u32));
    }
    assert(words@ =~= constants_of(*layer, *gamma_ratios, contrast));
    words
}

/// Rows of bytes as a device maps them: each row starts `row_pitch` bytes behind the previous.
#[derive(Debug)]
pub struct MappedRows {
    /// The distance from row to row.
    pub row_pitch: usize,
    /// The bytes of all rows, and what lies between them.
    pub bytes: Vec<u8>,
}

/// The first `height` rows, one behind the other.
pub open spec fn packed_rows(bytes: Seq<u8>, row_pitch: int, row_bytes: int, height: nat) -> Seq<u8>
    decreases height,
{
    if height == 0 {
        seq![]
    } else {
        packed_rows(bytes, row_pitch, row_bytes, (height - 1) as nat) + bytes.subrange(
            (height - 1) * row_pitch,
            (height - 1) * row_pitch + row_bytes,
        )
    }
}

/// Whether the mapped bytes reach to the end of the last row.
pub open spec fn rows_complete(rows: MappedRows, row_bytes: int, height: int) -> bool {
    (height - 1) * rows.row_pitch + row_bytes <= rows.bytes@.len()
}

/// Whether the mapped bytes reach to the end of the last row.
fn has_rows(rows: &MappedRows, row_bytes: usize, height: usize) -> (complete: bool)
    requires
        height > 0,
    ensures
        complete == rows_complete(*rows, row_bytes as int, height as int),
{
    let len: usize = rows.bytes.len();
    match (height - 1).checked_mul(rows.row_pitch) {
        Some(start) => start <= len && row_bytes <= len - start,
        None => false,
    }
}

/// The rows, one behind the other.
fn pack_rows(rows: &MappedRows, row_bytes: usize, height: usize) -> (pixels: Vec<u8>)
    requires
        height > 0,
        rows_complete(*rows, row_bytes as int, height as int),
    ensures
        pixels@ == packed_rows(rows.bytes@, rows.row_pitch as int, row_bytes as int, height as nat),
        pixels@.len() == row_bytes * height,
{
    let len: usize = rows.bytes.len();
    let mut pixels: Vec<u8> = Vec::new();
    let mut row: usize = 0;
    assert(row_bytes * 0 == 0) by (nonlinear_arith);
    while row < height
        invariant
            row <= height,
            len == rows.bytes@.len(),
            rows_complete(*rows, row_bytes as int, height as int),
            pixels@ == packed_rows(
                rows.bytes@,
                rows.row_pitch as int,
                row_bytes as int,
                row as nat,
            ),
            pixels@.len() == row_bytes * row,
        decreases height - row,
    {
        let pitch: usize = rows.row_pitch;
        assert(0 <= row * pitch <= (height - 1) * pitch) by (nonlinear_arith)
            requires
                0 <= row <= height - 1,
                0 <= pitch,
        ;
        assert(row_bytes * (row + 1) == row_bytes * row + row_bytes) by (nonlinear_arith);
        let start: usize = row * pitch;
        let line: &[u8] = slice_subrange(rows.bytes.as_slice(), start, start + row_bytes);
        pixels.extend_from_slice(line);
        row += 1;
        assert(pixels@ =~= packed_rows(
            rows.bytes@,
            rows.row_pitch as int,
            row_bytes as int,
            row as nat,
        ));
    }
    pixels
}

/// The graphics device that composites layers. The host supplies it.
///
/// Whatever the device does hands it over and gives it back, so that the order in which it is
/// used shows in the devices that were there in turn.
pub trait GlyphDevice: Arithmetic + Sized {
    /// A texture to draw into and to read back.
    type Target;

    /// A layer's coverage on the device.
    type LayerView;

    /// The state that drawing a glyph replaces, and that is put back behind it.
    type SavedState;

    /// Why the device failed.
    type Error;

    /// Makes a target of the given dimensions.
    fn new_target(self, size: Size<DevicePixels>) -> (Self, Result<Self::Target, Self::Error>);

    /// Prepares for drawing into a cleared target.
    fn begin(self, target: &Self::Target) -> (Self, Self::SavedState);

    /// Uploads the coverage of a layer.
    fn upload_layer(self, layer: &ColorGlyphLayer) -> (Self, Result<Self::LayerView, Self::Error>);

    /// Draws a layer over what is in the target.
    fn draw_layer(
        self,
        view: Self::LayerView,
        constants: &Vec<u32>,
        bounds: Bounds<DevicePixels>,
    ) -> (Self, Result<(), Self::Error>);

    /// Copies the target to where it can be read.
    fn resolve(self, target: &Self::Target) -> Self;

    /// Maps the target's rows, which hold premultiplied pixels.
    fn read_rows(self, target: &Self::Target) -> (Self, Result<MappedRows, Self::Error>);

    /// Puts the state back that was replaced.
    fn restore(self, saved: Self::SavedState) -> Self;
}

/// Why a glyph was not composited.
#[derive(Clone, Debug, PartialEq, Eq)]
pub enum CompositeError<E> {
    /// Recovery must run on the compositor's owner thread.
    WrongThread,
    /// The layers are refused.
    Layers(LayerError),
    /// The gamma ratios or the contrast are not finite, or the contrast is negative.
    InvalidSettings,
    /// The device failed.
    Device(E),
    /// The device mapped fewer bytes than the bitmap has.
    IncompleteRows,
}

/// The encoding of the number 255.
pub const BYTE_LIMIT_BITS: u32 = 0x437f_0000;

/// `straight` is a channel divided by the alpha that it is multiplied by: the whole part of its
/// product with 255 over alpha, and at most 255.
pub open spec fn is_unmultiplied<A: Arithmetic>(
    arithmetic: &A,
    channel: u8,
    alpha: u8,
    straight: u8,
) -> bool {
    exists|divisor: Scalar, inverse: Scalar, factor: Scalar, divided: Scalar|
        {
            &&& #[trigger] call_ensures(A::from_integer, (arithmetic, alpha as u32), divisor)
            &&& #[trigger] call_ensures(
                A::quotient,
                (arithmetic, (Scalar { bits: BYTE_LIMIT_BITS }), divisor),
                inverse,
            )
            &&& #[trigger] call_ensures(A::from_integer, (arithmetic, channel as u32), factor)
            &&& #[trigger] call_ensures(A::product, (arithmetic, factor, inverse), divided)
            &&& straight == divided.byte()
        }
}

/// A channel divided by the alpha that it is multiplied by.
fn unmultiply<A: Arithmetic>(arithmetic: &A, channel: u8, alpha: u8) -> (straight: u8)
    ensures
        is_unmultiplied(arithmetic, channel, alpha, straight),
{
    let divisor: Scalar = arithmetic.from_integer(alpha as u32);
    let inverse: Scalar = arithmetic.quotient(Scalar { bits: BYTE_LIMIT_BITS }, divisor);
    let factor: Scalar = arithmetic.from_integer(channel as u32);
    let divided: Scalar = arithmetic.product(factor, inverse);
    divided.to_byte()
}

/// `after` is the straight pixel for a premultiplied one. A pixel without alpha has no color.
pub open spec fn is_straight<D: GlyphDevice>(device: &D, before: Pixel, after: Pixel) -> bool {
    if before.alpha == 0 {
        after == (Pixel { first: 0, second: 0, third: 0, alpha: 0 })
    } else {
        &&& is_unmultiplied(device, before.first, before.alpha, after.first)
        &&& is_unmultiplied(device, before.second, before.alpha, after.second)
        &&& is_unmultiplied(device, before.third, before.alpha, after.third)
        &&& after.alpha == before.alpha
    }
}

/// `result` is the bitmap that rows read back become: packed, with straight pixels.
pub open spec fn is_unpacked<D: GlyphDevice>(
    device: &D,
    rows: MappedRows,
    size: Size<DevicePixels>,
    result: Result<Vec<u8>, CompositeError<D::Error>>,
) -> bool {
    if rows_complete(rows, size.width.0 * 4, size.height.0 as int) {
        result matches Ok(pixels) && pixels_mapped(
            packed_rows(
                rows.bytes@,
                rows.row_pitch as int,
                size.width.0 * 4,
                size.height.0 as nat,
            ),
            pixels@,
            |before: Pixel, after: Pixel| is_straight(device, before, after),
        )
    } else {
        result == Err::<Vec<u8>, CompositeError<D::Error>>(CompositeError::IncompleteRows)
    }
}

/// Turns rows read back into a bitmap. Drawing leaves premultiplied pixels; the atlas accepts
/// straight ones.
pub fn unpack_rows<D: GlyphDevice>(device: &D, rows: &MappedRows, size: Size<DevicePixels>)
    -> (result: Result<Vec<u8>, CompositeError<D::Error>>)
    requires
        size_fits(size),
    ensures
        is_unpacked(device, *rows, size, result),
{
    let row_bytes: usize = size.width.0 as usize * 4;
    let height: usize = size.height.0 as usize;
    if !has_rows(rows, row_bytes, height) {
        return Err(CompositeError::IncompleteRows);
    }
    let mut pixels: Vec<u8> = pack_rows(rows, row_bytes, height);
    let straighten = |pixel: Pixel| -> (straight: Pixel)
        ensures
            is_straight(device, pixel, straight),
        {
            if pixel.alpha == 0 {
                Pixel { first: 0, second: 0, third: 0, alpha: 0 }
            } else {
                Pixel {
                    first: unmultiply(device, pixel.first, pixel.alpha),
                    second: unmultiply(device, pixel.second, pixel.alpha),
                    third: unmultiply(device, pixel.third, pixel.alpha),
                    alpha: pixel.alpha,
                }
            }
        };
    let ghost packed = pixels@;
    convert_pixels(&mut pixels, straighten);
    assert(pixels_mapped(
        packed,
        pixels@,
        |before: Pixel, after: Pixel| is_straight(device, before, after),
    ));
    Ok(pixels)
}

/// A target and its dimensions.
pub struct GlyphTarget<T> {
    /// The dimensions.
    pub size: Size<DevicePixels>,
    /// The texture on the device.
    pub texture: T,
}

/// A device, and the target that the last glyph was drawn into.
pub struct CompositorState<D: GlyphDevice> {
    /// The device.
    pub device: D,
    /// The target, once a glyph was drawn.
    pub target: Option<GlyphTarget<D::Target>>,
}

/// `after` and `outcome` are what drawing the layers from `index` on makes of a device and gives:
/// they are uploaded and drawn in order, each once, until one fails.
pub open spec fn layers_drawn<D: GlyphDevice>(
    before: D,
    layers: Seq<ColorGlyphLayer>,
    gamma_ratios: [Scalar; 4],
    contrast: Scalar,
    index: int,
    after: D,
    outcome: Result<(), D::Error>,
) -> bool
    decreases layers.len() - index,
{
    if index >= layers.len() {
        after == before && outcome == Ok::<(), D::Error>(())
    } else {
        exists|loaded: D, view: Result<D::LayerView, D::Error>|
            {
                &&& #[trigger] call_ensures(
                    D::upload_layer,
                    (before, &layers[index]),
                    (loaded, view),
                )
                &&& match view {
                    Err(error) => after == loaded && outcome == Err::<(), D::Error>(error),
                    Ok(view) => exists|
                        constants: &Vec<u32>,
                        between: D,
                        drawn: Result<(), D::Error>,
                    |
                        {
                            &&& #[trigger] call_ensures(
                                D::draw_layer,
                                (loaded, view, constants, layers[index].bounds),
                                (between, drawn),
                            )
                            &&& constants@ == constants_of(layers[index], gamma_ratios, contrast)
                            &&& match drawn {
                                Err(error) => after == between && outcome == Err::<
                                    (),
                                    D::Error,
                                >(error),
                                Ok(()) => layers_drawn(
                                    between,
                                    layers,
                                    gamma_ratios,
                                    contrast,
                                    index + 1,
                                    after,
                                    outcome,
                                ),
                            }
                        },
                }
            }
    }
}

/// `after` and `result` are what reading a texture back makes of a device and gives. The texture
/// is resolved before its rows are read.
pub open spec fn is_read_back<D: GlyphDevice>(
    before: D,
    texture: D::Target,
    size: Size<DevicePixels>,
    after: D,
    result: Result<Vec<u8>, CompositeError<D::Error>>,
) -> bool {
    exists|resolved: D, rows: Result<MappedRows, D::Error>|
        {
            &&& #[trigger] call_ensures(D::resolve, (before, &texture), resolved)
            &&& #[trigger] call_ensures(D::read_rows, (resolved, &texture), (after, rows))
            &&& match rows {
                Err(error) => result == Err::<Vec<u8>, CompositeError<D::Error>>(
                    CompositeError::Device(error),
                ),
                Ok(rows) => is_unpacked(&after, rows, size, result),
            }
        }
}

/// `after` and `result` are what drawing the layers into a texture that drawing has begun on makes
/// of a device and gives. The texture is read back once all layers are drawn.
pub open spec fn is_drawn_and_read<D: GlyphDevice>(
    before: D,
    texture: D::Target,
    layers: Seq<ColorGlyphLayer>,
    size: Size<DevicePixels>,
    gamma_ratios: [Scalar; 4],
    contrast: Scalar,
    after: D,
    result: Result<Vec<u8>, CompositeError<D::Error>>,
) -> bool {
    exists|drawn: D, outcome: Result<(), D::Error>|
        {
            &&& #[trigger] layers_drawn(
                before,
                layers,
                gamma_ratios,
                contrast,
                0,
                drawn,
                outcome,
            )
            &&& match outcome {
                Err(error) => after == drawn && result == Err::<Vec<u8>, CompositeError<D::Error>>(
                    CompositeError::Device(error),
                ),
                Ok(()) => is_read_back(drawn, texture, size, after, result),
            }
        }
}

/// `after` and `result` are what compositing layers in a texture makes of a device and gives.
///
/// The device is prepared first, and its state is put back last, whether drawing fails or not.
pub open spec fn is_composited<D: GlyphDevice>(
    before: D,
    texture: D::Target,
    layers: Seq<ColorGlyphLayer>,
    size: Size<DevicePixels>,
    gamma_ratios: [Scalar; 4],
    contrast: Scalar,
    after: D,
    result: Result<Vec<u8>, CompositeError<D::Error>>,
) -> bool {
    exists|begun: D, saved: D::SavedState, done: D|
        {
            &&& #[trigger] call_ensures(D::begin, (before, &texture), (begun, saved))
            &&& is_drawn_and_read(
                begun,
                texture,
                layers,
                size,
                gamma_ratios,
                contrast,
                done,
                result,
            )
            &&& #[trigger] call_ensures(D::restore, (done, saved), after)
        }
}

/// Whether there is a target of the given dimensions.
pub open spec fn target_fits<T>(target: Option<GlyphTarget<T>>, size: Size<DevicePixels>) -> bool {
    target matches Some(target) && target.size == size
}

/// `after` and `result` are what compositing a glyph makes of `before` and returns. A target of
/// other dimensions is replaced first, unless that fails.
pub open spec fn is_state_composited<D: GlyphDevice>(
    before: CompositorState<D>,
    layers: Seq<ColorGlyphLayer>,
    size: Size<DevicePixels>,
    gamma_ratios: [Scalar; 4],
    contrast: Scalar,
    after: CompositorState<D>,
    result: Result<Vec<u8>, CompositeError<D::Error>>,
) -> bool {
    if target_fits(before.target, size) {
        &&& after.target == before.target
        &&& is_composited(
            before.device,
            before.target->0.texture,
            layers,
            size,
            gamma_ratios,
            contrast,
            after.device,
            result,
        )
    } else {
        exists|device: D, made: Result<D::Target, D::Error>|
            {
                &&& #[trigger] call_ensures(D::new_target, (before.device, size), (device, made))
                &&& match made {
                    Err(error) => after.device == device && after.target == before.target && result
                        == Err::<Vec<u8>, CompositeError<D::Error>>(CompositeError::Device(error)),
                    Ok(texture) => {
                        &&& after.target == Some(GlyphTarget { size, texture })
                        &&& is_composited(
                            device,
                            texture,
                            layers,
                            size,
                            gamma_ratios,
                            contrast,
                            after.device,
                            result,
                        )
                    },
                }
            }
    }
}

/// Uploads and draws the layers in order.
fn draw_layers<D: GlyphDevice>(
    device: D,
    layers: &[ColorGlyphLayer],
    gamma_ratios: &[Scalar; 4],
    contrast: Scalar,
) -> (drawn: (D, Result<(), D::Error>))
    ensures
        layers_drawn(device, layers@, *gamma_ratios, contrast, 0, drawn.0, drawn.1),
{
    let ghost start = device;
    let mut current: D = device;
    let mut index: usize = 0;
    while index < layers.len()
        invariant
            index <= layers@.len(),
            start == device,
            forall|after: D, outcome: Result<(), D::Error>| #[trigger]
                layers_drawn(
                    current,
                    layers@,
                    *gamma_ratios,
                    contrast,
                    index as int,
                    after,
                    outcome,
                ) ==> layers_drawn(start, layers@, *gamma_ratios, contrast, 0, after, outcome),
        decreases layers@.len() - index,
    {
        let layer: &ColorGlyphLayer = &layers[index];
        let ghost before = current;
        let (loaded, uploaded): (D, Result<D::LayerView, D::Error>) = current.upload_layer(layer);
        assert(call_ensures(D::upload_layer, (before, &layers@[index as int]), (loaded, uploaded)));
        let view: D::LayerView = match uploaded {
            Ok(view) => view,
            Err(error) => {
                assert(layers_drawn(
                    before,
                    layers@,
                    *gamma_ratios,
                    contrast,
                    index as int,
                    loaded,
                    Err(error),
                ));
                return (loaded, Err(error));
            },
        };
        let constants: Vec<u32> = layer_constants(layer, gamma_ratios, contrast);
        let (between, drawn): (D, Result<(), D::Error>) = loaded.draw_layer(
            view,
            &constants,
            layer.bounds,
        );
        if let Err(error) = drawn {
            assert(layers_drawn(
                before,
                layers@,
                *gamma_ratios,
                contrast,
                index as int,
                between,
                Err(error),
            ));
            return (between, Err(error));
        }
        proof {
            assert forall|after: D, outcome: Result<(), D::Error>| #[trigger]
                layers_drawn(
                    between,
                    layers@,
                    *gamma_ratios,
                    contrast,
                    index + 1,
                    after,
                    outcome,
                ) implies layers_drawn(
                start,
                layers@,
                *gamma_ratios,
                contrast,
                0,
                after,
                outcome,
            ) by {
                assert(layers_drawn(
                    before,
                    layers@,
                    *gamma_ratios,
                    contrast,
                    index as int,
                    after,
                    outcome,
                ));
            }
        }
        current = between;
        index += 1;
    }
    assert(layers_drawn(current, layers@, *gamma_ratios, contrast, index as int, current, Ok(())));
    (current, Ok(()))
}

/// Resolves a texture and reads the bitmap back.
fn read_back<D: GlyphDevice>(device: D, texture: &D::Target, size: Size<DevicePixels>) -> (read: (
    D,
    Result<Vec<u8>, CompositeError<D::Error>>,
))
    requires
        size_fits(size),
    ensures
        is_read_back(device, *texture, size, read.0, read.1),
{
    let resolved: D = device.resolve(texture);
    let (after, rows): (D, Result<MappedRows, D::Error>) = resolved.read_rows(texture);
    assert(call_ensures(D::resolve, (device, texture), resolved));
    match rows {
        Err(error) => (after, Err(CompositeError::Device(error))),
        Ok(rows) => {
            let result: Result<Vec<u8>, CompositeError<D::Error>> = unpack_rows(
                &after,
                &rows,
                size,
            );
            (after, result)
        },
    }
}

/// Draws the layers into a texture and reads the bitmap back.
fn composite_into<D: GlyphDevice>(
    device: D,
    texture: &D::Target,
    layers: &[ColorGlyphLayer],
    size: Size<DevicePixels>,
    gamma_ratios: &[Scalar; 4],
    contrast: Scalar,
) -> (composited: (D, Result<Vec<u8>, CompositeError<D::Error>>))
    requires
        size_fits(size),
    ensures
        is_composited(
            device,
            *texture,
            layers@,
            size,
            *gamma_ratios,
            contrast,
            composited.0,
            composited.1,
        ),
{
    let (begun, saved): (D, D::SavedState) = device.begin(texture);
    let ghost start = begun;
    let ghost kept = saved;
    let (drawn, outcome): (D, Result<(), D::Error>) = draw_layers(
        begun,
        layers,
        gamma_ratios,
        contrast,
    );
    let (done, result): (D, Result<Vec<u8>, CompositeError<D::Error>>) = match outcome {
        Err(error) => (drawn, Err(CompositeError::Device(error))),
        Ok(()) => read_back(drawn, texture, size),
    };
    assert(is_drawn_and_read(
        start,
        *texture,
        layers@,
        size,
        *gamma_ratios,
        contrast,
        done,
        result,
    ));
    let after: D = done.restore(saved);
    assert(call_ensures(D::begin, (device, texture), (start, kept)));
    assert(call_ensures(D::restore, (done, kept), after));
    (after, result)
}

impl<D: GlyphDevice> CompositorState<D> {
    /// A device that no glyph was drawn on.
    pub fn new(device: D) -> (state: Self)
        ensures
            state.device == device,
            state.target is None,
    {
        CompositorState { device, target: None }
    }

    /// Draws the layers over each other and returns their bitmap.
    pub fn composite(
        self,
        layers: &[ColorGlyphLayer],
        size: Size<DevicePixels>,
        gamma_ratios: &[Scalar; 4],
        contrast: Scalar,
    ) -> (composited: (Self, Result<Vec<u8>, CompositeError<D::Error>>))
        requires
            size_fits(size),
        ensures
            is_state_composited(
                self,
                layers@,
                size,
                *gamma_ratios,
                contrast,
                composited.0,
                composited.1,
            ),
    {
        let held: Option<GlyphTarget<D::Target>> = self.target;
        let current: bool = match &held {
            Some(target) => target.size.width == size.width && target.size.height == size.height,
            None => false,
        };
        let (device, target): (D, GlyphTarget<D::Target>) = match held {
            Some(target) if current => (self.device, target),
            held => {
                let (device, made): (D, Result<D::Target, D::Error>) = self.device.new_target(size);
                match made {
                    Ok(texture) => (device, GlyphTarget { size, texture }),
                    Err(error) => {
                        let state = CompositorState { device, target: held };
                        return (state, Err(CompositeError::Device(error)));
                    },
                }
            },
        };
        let (after, result): (D, Result<Vec<u8>, CompositeError<D::Error>>) = composite_into(
            device,
            &target.texture,
            layers,
            size,
            gamma_ratios,
            contrast,
        );
        (CompositorState { device: after, target: Some(target) }, result)
    }
}

/// Whether the gamma ratios and the contrast are numbers that a shader can use.
pub open spec fn settings_fit(gamma_ratios: [Scalar; 4], contrast: Scalar) -> bool {
    &&& forall|ratio: int| 0 <= ratio < 4 ==> (#[trigger] gamma_ratios@[ratio]).finite()
    &&& contrast.finite()
    &&& contrast.at_least_zero()
}

/// Whether the gamma ratios and the contrast are numbers that a shader can use.
fn are_settings(gamma_ratios: &[Scalar; 4], contrast: Scalar) -> (fit: bool)
    ensures
        fit == settings_fit(*gamma_ratios, contrast),
{
    let fit: bool = gamma_ratios[0].is_finite() && gamma_ratios[1].is_finite()
        && gamma_ratios[2].is_finite() && gamma_ratios[3].is_finite() && contrast.is_finite()
        && contrast.is_at_least_zero();
    proof {
        if settings_fit(*gamma_ratios, contrast) {
            assert(gamma_ratios@[0].finite() && gamma_ratios@[1].finite()
                && gamma_ratios@[2].finite() && gamma_ratios@[3].finite());
        }
    }
    fit
}

/// Composites color glyphs on the thread that owns the device.
///
/// The renderer and the atlas use the device as well, without taking turns with this. Only their
/// thread may submit work.
pub struct GlyphCompositor<D: GlyphDevice> {
    state: Option<CompositorState<D>>,
}

/// `after` and `result` are what a reset makes of a compositor's state and gives. On another
/// thread than the owner's nothing changes. Otherwise the old device is gone; there is a new one
/// with no target, or none where `make` fails.
pub open spec fn is_reset<D: GlyphDevice, F: FnOnce() -> Result<D, D::Error>>(
    before: Option<CompositorState<D>>,
    on_owner_thread: bool,
    make: F,
    after: Option<CompositorState<D>>,
    result: Result<(), CompositeError<D::Error>>,
) -> bool {
    if !on_owner_thread {
        &&& result == Err::<(), CompositeError<D::Error>>(CompositeError::WrongThread)
        &&& after == before
    } else {
        exists|made: Result<D, D::Error>|
            {
                &&& #[trigger] make.ensures((), made)
                &&& match made {
                    Ok(device) => result == Ok::<(), CompositeError<D::Error>>(()) && after == Some(
                        CompositorState { device, target: None },
                    ),
                    Err(error) => result == Err::<(), CompositeError<D::Error>>(
                        CompositeError::Device(error),
                    ) && after is None,
                }
            }
    }
}

/// `after` and `result` are what compositing a glyph makes of a compositor's state and gives.
/// There is no bitmap on another thread than the owner's, or without a device. Nothing is
/// submitted unless all layers and settings are valid.
pub open spec fn is_glyph_composited<D: GlyphDevice>(
    before: Option<CompositorState<D>>,
    on_owner_thread: bool,
    layers: Seq<ColorGlyphLayer>,
    size: Size<DevicePixels>,
    gamma_ratios: [Scalar; 4],
    contrast: Scalar,
    after: Option<CompositorState<D>>,
    result: Result<Option<Vec<u8>>, CompositeError<D::Error>>,
) -> bool {
    if !on_owner_thread || before is None {
        &&& result == Ok::<Option<Vec<u8>>, CompositeError<D::Error>>(None)
        &&& after == before
    } else if let Some(fault) = layers_fault(layers, size) {
        &&& result == Err::<Option<Vec<u8>>, CompositeError<D::Error>>(
            CompositeError::Layers(fault),
        )
        &&& after == before
    } else if !settings_fit(gamma_ratios, contrast) {
        &&& result == Err::<Option<Vec<u8>>, CompositeError<D::Error>>(
            CompositeError::InvalidSettings,
        )
        &&& after == before
    } else {
        &&& after is Some
        &&& result is Ok ==> result->Ok_0 is Some
        &&& is_state_composited(
            before->0,
            layers,
            size,
            gamma_ratios,
            contrast,
            after->0,
            match result {
                Ok(pixels) => Ok(pixels->0),
                Err(error) => Err(error),
            },
        )
    }
}

impl<D: GlyphDevice> GlyphCompositor<D> {
    /// The device's state, unless recovery failed.
    pub closed spec fn state(&self) -> Option<CompositorState<D>> {
        self.state
    }

    /// A compositor that has not drawn yet.
    pub fn new(device: D) -> (compositor: Self)
        ensures
            compositor.state() == Some(CompositorState { device, target: None }),
    {
        GlyphCompositor { state: Some(CompositorState::new(device)) }
    }

    /// Replaces a lost device by one that `make` makes. The old device is gone even where that
    /// fails.
    pub fn reset<F: FnOnce() -> Result<D, D::Error>>(&mut self, on_owner_thread: bool, make: F)
        -> (result: Result<(), CompositeError<D::Error>>)
        requires
            make.requires(()),
        ensures
            is_reset(old(self).state(), on_owner_thread, make, final(self).state(), result),
    {
        if !on_owner_thread {
            return Err(CompositeError::WrongThread);
        }
        self.state = None;
        let made: Result<D, D::Error> = make();
        match made {
            Ok(device) => {
                self.state = Some(CompositorState::new(device));
                Ok(())
            },
            Err(error) => Err(CompositeError::Device(error)),
        }
    }

    /// Draws the layers of a glyph over each other and returns their bitmap.
    ///
    /// There is none on another thread than the owner's, or without a device. Nothing is
    /// submitted unless all layers and settings are valid.
    pub fn composite(
        &mut self,
        on_owner_thread: bool,
        layers: &[ColorGlyphLayer],
        size: Size<DevicePixels>,
        gamma_ratios: &[Scalar; 4],
        grayscale_enhanced_contrast: Scalar,
    ) -> (result: Result<Option<Vec<u8>>, CompositeError<D::Error>>)
        ensures
            is_glyph_composited(
                old(self).state(),
                on_owner_thread,
                layers@,
                size,
                *gamma_ratios,
                grayscale_enhanced_contrast,
                final(self).state(),
                result,
            ),
    {
        if !on_owner_thread {
            return Ok(None);
        }
        let held: Option<CompositorState<D>> = self.state.take();
        let state: CompositorState<D> = match held {
            Some(state) => state,
            None => return Ok(None),
        };
        if let Err(fault) = validate_layers(layers, size) {
            self.state = Some(state);
            return Err(CompositeError::Layers(fault));
        }
        if !are_settings(gamma_ratios, grayscale_enhanced_contrast) {
            self.state = Some(state);
            return Err(CompositeError::InvalidSettings);
        }
        let (after, result): (CompositorState<D>, Result<Vec<u8>, CompositeError<D::Error>>) =
            state.composite(layers, size, gamma_ratios, grayscale_enhanced_contrast);
        self.state = Some(after);
        match result {
            Ok(pixels) => Ok(Some(pixels)),
            Err(error) => Err(error),
        }
    }
}

/// Packed rows are as long as all rows together.
proof fn lemma_packed_len(bytes: Seq<u8>, row_pitch: int, row_bytes: int, height: nat)
    requires
        0 <= row_pitch,
        0 <= row_bytes,
        height > 0 ==> (height - 1) * row_pitch + row_bytes <= bytes.len(),
    ensures
        packed_rows(bytes, row_pitch, row_bytes, height).len() == row_bytes * height,
    decreases height,
{
    if height > 0 {
        assert(0 <= (height - 1) * row_pitch) by (nonlinear_arith)
            requires
                height > 0,
                0 <= row_pitch,
        ;
        if height > 1 {
            assert((height - 2) * row_pitch <= (height - 1) * row_pitch) by (nonlinear_arith)
                requires
                    height > 1,
                    0 <= row_pitch,
            ;
        }
        lemma_packed_len(bytes, row_pitch, row_bytes, (height - 1) as nat);
        assert(row_bytes * height == row_bytes * (height - 1) + row_bytes) by (nonlinear_arith);
    } else {
        assert(row_bytes * 0 == 0) by (nonlinear_arith);
    }
}

/// A bitmap that was read back has four bytes for each pixel of its dimensions.
pub proof fn law_bitmaps_have_four_bytes_per_pixel<D: GlyphDevice>(
    device: &D,
    rows: MappedRows,
    size: Size<DevicePixels>,
    pixels: Vec<u8>,
)
    requires
        size_fits(size),
        is_unpacked(device, rows, size, Ok::<Vec<u8>, CompositeError<D::Error>>(pixels)),
    ensures
        pixels@.len() == 4 * pixel_count(size),
{
    let width = size.width.0 as int;
    let height = size.height.0 as int;
    lemma_packed_len(rows.bytes@, rows.row_pitch as int, width * 4, height as nat);
    assert((width * 4) * height == 4 * (width * height)) by (nonlinear_arith);
}

/// A pixel of a bitmap that was read back holds a color only if it has alpha.
pub proof fn law_transparent_pixels_hold_no_color<D: GlyphDevice>(
    device: &D,
    rows: MappedRows,
    size: Size<DevicePixels>,
    pixels: Vec<u8>,
    index: int,
)
    requires
        size_fits(size),
        is_unpacked(device, rows, size, Ok::<Vec<u8>, CompositeError<D::Error>>(pixels)),
        0 <= index < pixel_count(size),
        pixel_at(pixels@, index).alpha == 0,
    ensures
        pixel_at(pixels@, index) == (Pixel { first: 0, second: 0, third: 0, alpha: 0 }),
{
    law_bitmaps_have_four_bytes_per_pixel(device, rows, size, pixels);
    let packed = packed_rows(
        rows.bytes@,
        rows.row_pitch as int,
        size.width.0 * 4,
        size.height.0 as nat,
    );
    assert(is_straight(device, pixel_at(packed, index), pixel_at(pixels@, index)));
}

/// Whether a device's own calls keep what `state` reads of it but where they are meant to replace
/// it: making a target keeps it, beginning to draw hands it out as `saved` reads it, and restoring
/// puts what was handed out back.
pub open spec fn saves_state<D: GlyphDevice, S>(
    state: spec_fn(D) -> S,
    saved: spec_fn(D::SavedState) -> S,
) -> bool {
    &&& forall|
        before: D,
        size: Size<DevicePixels>,
        after: D,
        made: Result<D::Target, D::Error>,
    | #[trigger]
        call_ensures(D::new_target, (before, size), (after, made)) ==> state(after) == state(before)
    &&& forall|before: D, target: &D::Target, after: D, kept: D::SavedState| #[trigger]
        call_ensures(D::begin, (before, target), (after, kept)) ==> saved(kept) == state(before)
    &&& forall|before: D, kept: D::SavedState, after: D| #[trigger]
        call_ensures(D::restore, (before, kept), after) ==> state(after) == saved(kept)
}

/// The state of a device that hands it out and takes it back is the same after a glyph was
/// composited as before, whether that failed or not, and whatever drawing did to it.
pub proof fn law_state_is_restored_after_drawing<D: GlyphDevice, S>(
    before: CompositorState<D>,
    layers: Seq<ColorGlyphLayer>,
    size: Size<DevicePixels>,
    gamma_ratios: [Scalar; 4],
    contrast: Scalar,
    after: CompositorState<D>,
    result: Result<Vec<u8>, CompositeError<D::Error>>,
    state: spec_fn(D) -> S,
    saved: spec_fn(D::SavedState) -> S,
)
    requires
        saves_state(state, saved),
        is_state_composited(before, layers, size, gamma_ratios, contrast, after, result),
    ensures
        state(after.device) == state(before.device),
{
}

/// `later` is what compositing some glyph makes of `earlier`.
pub open spec fn state_after_composite<D: GlyphDevice>(
    earlier: Option<CompositorState<D>>,
    later: Option<CompositorState<D>>,
) -> bool {
    exists|
        on_owner_thread: bool,
        layers: Seq<ColorGlyphLayer>,
        size: Size<DevicePixels>,
        gamma_ratios: [Scalar; 4],
        contrast: Scalar,
        result: Result<Option<Vec<u8>>, CompositeError<D::Error>>,
    | #[trigger]
        is_glyph_composited(
            earlier,
            on_owner_thread,
            layers,
            size,
            gamma_ratios,
            contrast,
            later,
            result,
        )
}

/// A compositor without a device gets none from compositing.
proof fn lemma_no_device_stays_none<D: GlyphDevice>(history: Seq<Option<CompositorState<D>>>)
    requires
        history.len() > 0,
        history.first() is None,
        forall|step: int|
            0 <= step < history.len() - 1 ==> state_after_composite(
                #[trigger] history[step],
                history[step + 1],
            ),
    ensures
        history.last() is None,
    decreases history.len(),
{
    if history.len() > 1 {
        lemma_no_device_stays_none(history.drop_last());
        assert(state_after_composite(history[history.len() - 2], history.last()));
    }
}

/// After a reset that failed for want of a device, every later composite gives no bitmap, however
/// many there were in between.
///
/// `history` are the states from the reset to the last of the composites, one by one.
pub proof fn law_failed_resets_leave_nothing_to_composite<
    D: GlyphDevice,
    F: FnOnce() -> Result<D, D::Error>,
>(
    before: Option<CompositorState<D>>,
    make: F,
    failure: CompositeError<D::Error>,
    history: Seq<Option<CompositorState<D>>>,
    on_owner_thread: bool,
    layers: Seq<ColorGlyphLayer>,
    size: Size<DevicePixels>,
    gamma_ratios: [Scalar; 4],
    contrast: Scalar,
    after: Option<CompositorState<D>>,
    result: Result<Option<Vec<u8>>, CompositeError<D::Error>>,
)
    requires
        history.len() > 0,
        is_reset(
            before,
            true,
            make,
            history.first(),
            Err::<(), CompositeError<D::Error>>(failure),
        ),
        forall|step: int|
            0 <= step < history.len() - 1 ==> state_after_composite(
                #[trigger] history[step],
                history[step + 1],
            ),
        is_glyph_composited(
            history.last(),
            on_owner_thread,
            layers,
            size,
            gamma_ratios,
            contrast,
            after,
            result,
        ),
    ensures
        result == Ok::<Option<Vec<u8>>, CompositeError<D::Error>>(None),
        after is None,
{
    lemma_no_device_stays_none(history);
}

/// A reset on another thread than the owner's is refused, and a composite behind it is what it
/// would have been without the reset.
pub proof fn law_refused_resets_change_nothing<
    D: GlyphDevice,
    F: FnOnce() -> Result<D, D::Error>,
>(
    before: Option<CompositorState<D>>,
    make: F,
    between: Option<CompositorState<D>>,
    refusal: Result<(), CompositeError<D::Error>>,
    on_owner_thread: bool,
    layers: Seq<ColorGlyphLayer>,
    size: Size<DevicePixels>,
    gamma_ratios: [Scalar; 4],
    contrast: Scalar,
    after: Option<CompositorState<D>>,
    result: Result<Option<Vec<u8>>, CompositeError<D::Error>>,
)
    requires
        is_reset(before, false, make, between, refusal),
        is_glyph_composited(
            between,
            on_owner_thread,
            layers,
            size,
            gamma_ratios,
            contrast,
            after,
            result,
        ),
    ensures
        refusal == Err::<(), CompositeError<D::Error>>(CompositeError::WrongThread),
        between == before,
        is_glyph_composited(
            before,
            on_owner_thread,
            layers,
            size,
            gamma_ratios,
            contrast,
            after,
            result,
        ),
{
}

/// A composite behind a successful reset draws on a device that was made for it, into a target
/// that is made on that device.
pub proof fn law_successful_resets_start_afresh<
    D: GlyphDevice,
    F: FnOnce() -> Result<D, D::Error>,
>(
    before: Option<CompositorState<D>>,
    make: F,
    between: Option<CompositorState<D>>,
    layers: Seq<ColorGlyphLayer>,
    size: Size<DevicePixels>,
    gamma_ratios: [Scalar; 4],
    contrast: Scalar,
    after: Option<CompositorState<D>>,
    result: Result<Option<Vec<u8>>, CompositeError<D::Error>>,
)
    requires
        is_reset(before, true, make, between, Ok::<(), CompositeError<D::Error>>(())),
        layers_fault(layers, size) is None,
        settings_fit(gamma_ratios, contrast),
        is_glyph_composited(
            between,
            true,
            layers,
            size,
            gamma_ratios,
            contrast,
            after,
            result,
        ),
    ensures
        exists|device: D, made: (D, Result<D::Target, D::Error>)|
            {
                &&& make.ensures((), Ok::<D, D::Error>(device))
                &&& between == Some(CompositorState { device, target: None })
                &&& #[trigger] call_ensures(D::new_target, (device, size), made)
                &&& match made.1 {
                    Ok(texture) => after matches Some(state) && (state.target matches Some(target)
                        && target.texture == texture && target.size == size),
                    Err(error) => result == Err::<Option<Vec<u8>>, CompositeError<D::Error>>(
                        CompositeError::Device(error),
                    ) && after == Some(CompositorState { device: made.0, target: None }),
                }
            },
{
}

} // verus!
