use gpui_text::geometry::{Bounds, DevicePixels, Point, Size};
use gpui_text::glyph_compositor::{
    layer_constants, unpack_rows, validate_layers, validate_size, ColorGlyphLayer, CompositeError,
    GlyphCompositor, GlyphDevice, LayerError, MappedRows,
};
use gpui_text::scalar::{Arithmetic, Scalar};
use std::cell::{Cell, RefCell};
use std::rc::Rc;

fn scalar(value: f32) -> Scalar {
    Scalar { bits: value.to_bits() }
}

fn float(value: Scalar) -> f32 {
    f32::from_bits(value.bits)
}

fn scalars(values: [f32; 4]) -> [Scalar; 4] {
    values.map(scalar)
}

fn size(width: i32, height: i32) -> Size<DevicePixels> {
    Size { width: DevicePixels(width), height: DevicePixels(height) }
}

fn layer(x: i32, y: i32, width: i32, height: i32, color: [f32; 4]) -> ColorGlyphLayer {
    ColorGlyphLayer {
        bounds: Bounds {
            origin: Point { x: DevicePixels(x), y: DevicePixels(y) },
            size: size(width, height),
        },
        color: scalars(color),
        coverage: vec![255; width as usize * height as usize],
    }
}

struct Texture {
    width: usize,
    height: usize,
    pixels: RefCell<Vec<[u8; 4]>>,
}

/// How a scene is rasterized.
#[derive(Clone, Copy, Debug, PartialEq)]
struct RasterizerState {
    culls_front: bool,
    scissors: bool,
    multisamples: bool,
}

const SCENE: RasterizerState =
    RasterizerState { culls_front: true, scissors: true, multisamples: true };

const GLYPHS: RasterizerState =
    RasterizerState { culls_front: false, scissors: false, multisamples: false };

/// What is seen of a device from outside.
#[derive(Clone)]
struct Watch {
    state: Rc<Cell<RasterizerState>>,
    calls: Rc<RefCell<Vec<String>>>,
}

impl Watch {
    fn new() -> Watch {
        Watch { state: Rc::new(Cell::new(SCENE)), calls: Rc::new(RefCell::new(Vec::new())) }
    }

    fn count(&self, call: &str) -> usize {
        self.calls.borrow().iter().filter(|made| made.as_str() == call).count()
    }
}

/// A device that blends in memory. Its rows are longer than their pixels.
struct Canvas {
    serial: u32,
    watch: Watch,
    bound: Option<Rc<Texture>>,
    fails: bool,
    failing_layer: Option<u8>,
    truncates: bool,
}

impl Canvas {
    fn new(serial: u32, watch: &Watch) -> Canvas {
        Canvas {
            serial,
            watch: watch.clone(),
            bound: None,
            fails: false,
            failing_layer: None,
            truncates: false,
        }
    }

    fn log(&self, call: &str) {
        self.watch.calls.borrow_mut().push(call.to_owned());
    }
}

fn unorm(value: f32) -> u8 {
    (value.clamp(0.0, 1.0) * 255.0).round() as u8
}

impl Arithmetic for Canvas {
    fn from_integer(&self, value: u32) -> Scalar {
        scalar(value as f32)
    }
    fn sum(&self, left: Scalar, right: Scalar) -> Scalar {
        scalar(float(left) + float(right))
    }
    fn difference(&self, left: Scalar, right: Scalar) -> Scalar {
        scalar(float(left) - float(right))
    }
    fn product(&self, left: Scalar, right: Scalar) -> Scalar {
        scalar(float(left) * float(right))
    }
    fn quotient(&self, left: Scalar, right: Scalar) -> Scalar {
        scalar(float(left) / float(right))
    }
}

impl GlyphDevice for Canvas {
    type Target = Rc<Texture>;
    type LayerView = Vec<u8>;
    type SavedState = RasterizerState;
    type Error = String;

    fn new_target(self, size: Size<DevicePixels>) -> (Canvas, Result<Rc<Texture>, String>) {
        if self.fails {
            return (self, Err("device removed".to_owned()));
        }
        self.log(&format!("target on {}", self.serial));
        let (width, height) = (size.width.0 as usize, size.height.0 as usize);
        let texture = Texture {
            width,
            height,
            pixels: RefCell::new(vec![[9; 4]; width * height]),
        };
        (self, Ok(Rc::new(texture)))
    }

    fn begin(mut self, target: &Rc<Texture>) -> (Canvas, RasterizerState) {
        self.log("begin");
        target.pixels.borrow_mut().fill([0; 4]);
        self.bound = Some(target.clone());
        let saved = self.watch.state.replace(GLYPHS);
        (self, saved)
    }

    fn upload_layer(self, layer: &ColorGlyphLayer) -> (Canvas, Result<Vec<u8>, String>) {
        let coverage = layer.coverage.clone();
        (self, Ok(coverage))
    }

    fn draw_layer(
        self,
        view: Vec<u8>,
        constants: &Vec<u32>,
        bounds: Bounds<DevicePixels>,
    ) -> (Canvas, Result<(), String>) {
        self.log("draw");
        assert_eq!(self.watch.state.get(), GLYPHS);
        if self.failing_layer == Some(view[0]) {
            return (self, Err("draw failed".to_owned()));
        }
        let target = self.bound.clone().unwrap();
        let mut pixels = target.pixels.borrow_mut();
        let color: Vec<f32> = constants[4..8].iter().map(|bits| f32::from_bits(*bits)).collect();
        for row in 0..bounds.size.height.0 {
            for column in 0..bounds.size.width.0 {
                let (x, y) = (bounds.origin.x.0 + column, bounds.origin.y.0 + row);
                if x < 0 || y < 0 || x >= target.width as i32 || y >= target.height as i32 {
                    continue;
                }
                let coverage = view[(row * bounds.size.width.0 + column) as usize];
                let alpha = color[3] * f32::from(coverage) / 255.0;
                let pixel = &mut pixels[y as usize * target.width + x as usize];
                let source = [color[2] * alpha, color[1] * alpha, color[0] * alpha, alpha];
                for (channel, source) in pixel.iter_mut().zip(source) {
                    *channel = unorm(source + f32::from(*channel) / 255.0 * (1.0 - alpha));
                }
            }
        }
        (self, Ok(()))
    }

    fn resolve(mut self, _target: &Rc<Texture>) -> Canvas {
        self.log("resolve");
        self.bound = None;
        self
    }

    fn read_rows(self, target: &Rc<Texture>) -> (Canvas, Result<MappedRows, String>) {
        self.log("read");
        let row_pitch = target.width * 4 + 12;
        let mut bytes = Vec::new();
        for row in target.pixels.borrow().chunks(target.width) {
            for pixel in row {
                bytes.extend_from_slice(pixel);
            }
            bytes.extend_from_slice(&[77; 12]);
        }
        if self.truncates {
            bytes.truncate(row_pitch);
        }
        (self, Ok(MappedRows { row_pitch, bytes }))
    }

    fn restore(self, saved: RasterizerState) -> Canvas {
        self.log("restore");
        self.watch.state.set(saved);
        self
    }
}

#[test]
fn reused_targets_clear_uncovered_pixels_and_preserve_layer_composition() {
    let watch = Watch::new();
    let mut compositor = GlyphCompositor::new(Canvas::new(1, &watch));
    let gamma = scalars([0.0; 4]);
    let contrast = scalar(0.0);

    let bitmap_size = size(8, 8);
    let poison = layer(0, 0, 8, 8, [1.0, 0.0, 0.0, 1.0]);
    compositor
        .composite(true, &[poison], bitmap_size, &gamma, contrast)
        .unwrap()
        .unwrap();

    let layers = [
        layer(1, 1, 4, 4, [1.0, 0.0, 0.0, 0.5]),
        layer(3, 3, 4, 4, [0.0, 0.0, 1.0, 0.5]),
    ];
    let first = compositor
        .composite(true, &layers, bitmap_size, &gamma, contrast)
        .unwrap()
        .unwrap();
    let pixel = |x: usize, y: usize| &first[(y * 8 + x) * 4..(y * 8 + x + 1) * 4];
    assert_eq!(first.len(), 8 * 8 * 4);
    assert_eq!(pixel(0, 0), &[0, 0, 0, 0]);
    assert_eq!(pixel(7, 7), &[0, 0, 0, 0]);
    assert_eq!(pixel(1, 1), &[0, 0, 255, 128]);
    assert_eq!(pixel(6, 6), &[255, 0, 0, 128]);

    let restored = watch.state.get();
    assert!(restored.culls_front);
    assert!(restored.scissors);
    assert!(restored.multisamples);

    let overlap = pixel(3, 3);
    for (actual, expected) in overlap.iter().zip([170u8, 0, 85, 192]) {
        assert!(
            actual.abs_diff(expected) <= 2,
            "unexpected source-over pixel: {overlap:?}"
        );
    }

    for _iteration in 0..3 {
        let poison = layer(0, 0, 8, 8, [0.0, 1.0, 0.0, 1.0]);
        compositor
            .composite(true, &[poison], bitmap_size, &gamma, contrast)
            .unwrap();
        let repeated = compositor
            .composite(true, &layers, bitmap_size, &gamma, contrast)
            .unwrap()
            .unwrap();
        assert_eq!(first, repeated);
    }
    assert_eq!(watch.count("target on 1"), 1);

    compositor
        .reset(true, || Ok(Canvas::new(2, &watch)))
        .unwrap();
    // No target comes along with the new device.
    assert_eq!(watch.count("target on 2"), 0);
    assert_eq!(
        first,
        compositor
            .composite(true, &layers, bitmap_size, &gamma, contrast)
            .unwrap()
            .unwrap()
    );
    assert_eq!(watch.count("target on 2"), 1);
}

#[test]
fn state_is_restored_behind_the_drawing_whether_it_fails_or_not() {
    let gamma = scalars([0.0; 4]);
    let mut second = layer(0, 0, 1, 1, [1.0; 4]);
    second.coverage = vec![7];
    let layers = [layer(0, 0, 1, 1, [1.0; 4]), second, layer(0, 0, 1, 1, [1.0; 4])];

    let watch = Watch::new();
    let mut compositor = GlyphCompositor::new(Canvas::new(1, &watch));
    assert!(compositor.composite(true, &layers, size(1, 1), &gamma, scalar(0.0)).is_ok());
    assert_eq!(watch.state.get(), SCENE);
    assert_eq!(
        *watch.calls.borrow(),
        ["target on 1", "begin", "draw", "draw", "draw", "resolve", "read", "restore"]
    );

    let watch = Watch::new();
    let mut failing = Canvas::new(1, &watch);
    failing.failing_layer = Some(7);
    let mut compositor = GlyphCompositor::new(failing);
    assert_eq!(
        compositor.composite(true, &layers, size(1, 1), &gamma, scalar(0.0)),
        Err(CompositeError::Device("draw failed".to_owned()))
    );
    assert_eq!(watch.state.get(), SCENE);
    assert_eq!(
        *watch.calls.borrow(),
        ["target on 1", "begin", "draw", "draw", "restore"]
    );
}

#[test]
fn malformed_layers_are_rejected_before_gpu_submission() {
    let bitmap_size = size(8, 8);
    let mut invalid = layer(0, 0, 4, 4, [1.0; 4]);
    invalid.coverage.pop();
    assert!(validate_layers(&[invalid], bitmap_size).is_err());
    assert!(validate_layers(&[], size(0, 8)).is_err());
    assert!(validate_layers(&[], size(16385, 8)).is_err());

    let mut invalid = layer(0, 0, 4, 4, [1.0; 4]);
    invalid.color[0] = scalar(f32::NAN);
    assert!(validate_layers(&[invalid], bitmap_size).is_err());
}

#[test]
fn refused_layers_say_why() {
    let bitmap_size = size(8, 8);
    let mut short = layer(0, 0, 4, 4, [1.0; 4]);
    short.coverage.pop();
    assert_eq!(
        validate_layers(&[layer(0, 0, 1, 1, [0.0; 4]), short], bitmap_size),
        Err(LayerError::CoverageLength { actual: 15, expected: 16 })
    );
    assert_eq!(
        validate_layers(&[layer(0, 0, 4, 4, [1.0, 1.5, 0.0, 1.0])], bitmap_size),
        Err(LayerError::InvalidColor)
    );
    assert_eq!(
        validate_layers(&[layer(0, 0, 4, 4, [1.0, -0.5, 0.0, 1.0])], bitmap_size),
        Err(LayerError::InvalidColor)
    );
    assert_eq!(
        validate_layers(&[layer(-16385, 0, 4, 4, [1.0; 4])], bitmap_size),
        Err(LayerError::OriginOutOfRange)
    );
    assert_eq!(
        validate_layers(&[layer(0, 16385, 4, 4, [1.0; 4])], bitmap_size),
        Err(LayerError::OriginOutOfRange)
    );
    assert_eq!(
        validate_layers(&[layer(-16384, 16384, 4, 4, [1.0; 4])], bitmap_size),
        Ok(())
    );
    assert_eq!(validate_size(size(16384, 2)), Ok(32768));
    assert_eq!(
        validate_size(size(8, -1)),
        Err(LayerError::DimensionsOutOfRange { width: 8, height: -1 })
    );
}

#[test]
fn composition_fails_with_its_cause() {
    let watch = Watch::new();
    let gamma = scalars([0.0; 4]);
    let layers = [layer(0, 0, 2, 2, [1.0; 4])];

    let mut compositor = GlyphCompositor::new(Canvas::new(1, &watch));
    assert_eq!(
        compositor.composite(true, &layers, size(0, 2), &gamma, scalar(0.0)),
        Err(CompositeError::Layers(LayerError::DimensionsOutOfRange { width: 0, height: 2 }))
    );
    for contrast in [-1.0, f32::NAN, f32::INFINITY] {
        assert_eq!(
            compositor.composite(true, &layers, size(2, 2), &gamma, scalar(contrast)),
            Err(CompositeError::InvalidSettings)
        );
    }
    let unbounded = scalars([0.0, f32::INFINITY, 0.0, 0.0]);
    assert_eq!(
        compositor.composite(true, &layers, size(2, 2), &unbounded, scalar(0.0)),
        Err(CompositeError::InvalidSettings)
    );
    assert_eq!(
        compositor.reset(false, || Ok(Canvas::new(2, &watch))),
        Err(CompositeError::WrongThread)
    );

    let mut broken = Canvas::new(3, &watch);
    broken.fails = true;
    let mut compositor = GlyphCompositor::new(broken);
    assert_eq!(
        compositor.composite(true, &layers, size(2, 2), &gamma, scalar(0.0)),
        Err(CompositeError::Device("device removed".to_owned()))
    );

    let mut truncating = Canvas::new(4, &watch);
    truncating.truncates = true;
    let mut compositor = GlyphCompositor::new(truncating);
    assert_eq!(
        compositor.composite(true, &layers, size(2, 2), &gamma, scalar(0.0)),
        Err(CompositeError::IncompleteRows)
    );
}

#[test]
fn resets_replace_the_device_or_leave_none() {
    let watch = Watch::new();
    let gamma = scalars([0.0; 4]);
    let layers = [layer(0, 0, 2, 2, [1.0; 4])];
    let mut compositor = GlyphCompositor::new(Canvas::new(1, &watch));
    let draw = |compositor: &mut GlyphCompositor<Canvas>| {
        compositor.composite(true, &layers, size(2, 2), &gamma, scalar(0.0))
    };
    let first = draw(&mut compositor).unwrap().unwrap();

    // Refused on another thread, without a trace.
    assert_eq!(
        compositor.reset(false, || Err("device removed".to_owned())),
        Err(CompositeError::WrongThread)
    );
    assert_eq!(draw(&mut compositor).unwrap().unwrap(), first);
    assert_eq!(watch.count("target on 1"), 1);

    // Nothing is drawn after a failure, until a reset succeeds.
    assert_eq!(
        compositor.reset(true, || Err("device removed".to_owned())),
        Err(CompositeError::Device("device removed".to_owned()))
    );
    for _ in 0..3 {
        assert_eq!(draw(&mut compositor), Ok(None));
    }
    assert_eq!(compositor.reset(true, || Ok(Canvas::new(2, &watch))), Ok(()));
    assert_eq!(draw(&mut compositor).unwrap().unwrap(), first);
    assert_eq!(watch.count("target on 2"), 1);
}

#[test]
fn rows_are_packed_without_their_padding() {
    let device = Canvas::new(1, &Watch::new());
    let rows = MappedRows {
        row_pitch: 6,
        bytes: vec![0, 64, 128, 128, 1, 1, 5, 6, 7, 0],
    };
    assert_eq!(
        unpack_rows(&device, &rows, size(1, 2)).unwrap(),
        [0, 127, 255, 128, 0, 0, 0, 0]
    );
    assert_eq!(device.serial, 1);
}

#[test]
fn layer_constants_are_laid_out_for_the_shader() {
    let words = layer_constants(
        &layer(-1, 2, 3, 4, [1.0, 0.5, 0.25, 0.0]),
        &scalars([2.0, 3.0, 4.0, 5.0]),
        scalar(0.75),
    );
    let mut expected: Vec<u32> = vec![u32::MAX, 2, 3, 4];
    for value in [1.0f32, 0.5, 0.25, 0.0, 2.0, 3.0, 4.0, 5.0, 0.75] {
        expected.push(value.to_bits());
    }
    expected.extend_from_slice(&[0; 7]);
    assert_eq!(words, expected);
}

#[test]
fn every_channel_is_divided_by_its_alpha() {
    let device = Canvas::new(1, &Watch::new());
    for alpha in 1..=255u8 {
        for channel in 0..=255u8 {
            let rows = MappedRows { row_pitch: 4, bytes: vec![channel, 0, channel, alpha] };
            let inverse_alpha = 255.0 / f32::from(alpha);
            let expected = (f32::from(channel) * inverse_alpha).clamp(0.0, 255.0) as u8;
            assert_eq!(
                unpack_rows(&device, &rows, size(1, 1)).unwrap(),
                [expected, 0, expected, alpha]
            );
        }
    }
}
