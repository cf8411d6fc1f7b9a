use vstd::prelude::*;

verus! {

/// Width and height of the canvas at startup, in pixels.
pub const DEFAULT_CANVAS_SIZE: usize = 800;

/// Iteration cap at startup; also the length of the palette.
pub const DEFAULT_MAX_ITERATIONS: usize = 60;

/// Pixels per unit of the complex plane at startup.
pub const DEFAULT_MAGNIFICATION: u64 = 800;

/// Zoom level at startup.
pub const DEFAULT_ZOOM_LEVEL: u64 = 1;

/// What one zoom step adds to or takes from the magnification.
pub const MAGNIFICATION_STEP: u64 = 100;

/// Plane coordinates are fixed-point numbers: this many units make one.
pub const UNITS_PER_ONE: i64 = 1_000_000_000_000;

/// The pan step at zoom level 1, in units: a twentieth of one.
pub const PAN_STEP: i64 = 50_000_000_000;

/// Pause between two frames, in nanoseconds: a sixtieth of a second.
pub const FRAME_INTERVAL_NANOS: u32 = 1_000_000_000 / 60;

/// The current view of the plane.
///
/// `pan_x` and `pan_y` are in units of the plane (see [`UNITS_PER_ONE`]);
/// `magnification` is in pixels per one.
#[derive(Clone, Copy, Debug, PartialEq, Eq, Structural)]
pub struct Viewport {
    pub canvas_size: usize,
    pub max_iterations: usize,
    pub magnification: u64,
    pub pan_x: i64,
    pub pan_y: i64,
    pub zoom_level: u64,
}

/// The plane coordinate, in units, that a pixel coordinate maps to along one
/// axis: the pixel divided by the magnification, less the pan.
pub open spec fn plane_coordinate(pixel: int, magnification: int, pan: int) -> int {
    pixel * UNITS_PER_ONE / magnification - pan
}

impl Viewport {
    /// The view at startup.
    pub open spec fn startup() -> Viewport {
        Viewport {
            canvas_size: 800,
            max_iterations: 60,
            magnification: 800,
            pan_x: 0,
            pan_y: 0,
            zoom_level: 1,
        }
    }

    /// A view is valid when its magnification is positive and its zoom level
    /// is at least 1.
    pub open spec fn valid(self) -> bool {
        self.magnification > 0 && self.zoom_level >= 1
    }

    /// Whether the view is valid.
    pub fn is_valid(&self) -> (b: bool)
        ensures
            b == self.valid(),
    {
        self.magnification > 0 && self.zoom_level >= 1
    }

    /// The number of pixels on the canvas, where a `usize` can hold it.
    pub fn pixel_count(&self) -> (n: Option<usize>)
        ensures
            match n {
                Some(n) => n == self.canvas_size * self.canvas_size,
                None => self.canvas_size * self.canvas_size > usize::MAX,
            },
    {
        self.canvas_size.checked_mul(self.canvas_size)
    }

    /// The point of the plane, in units, that the pixel `(x, y)` shows.
    pub fn plane_point(&self, x: usize, y: usize) -> (p: (i128, i128))
        requires
            self.magnification > 0,
        ensures
            p.0 == plane_coordinate(x as int, self.magnification as int, self.pan_x as int),
            p.1 == plane_coordinate(y as int, self.magnification as int, self.pan_y as int),
    {
        (
            plane_axis(x, self.magnification, self.pan_x),
            plane_axis(y, self.magnification, self.pan_y),
        )
    }
}

impl Default for Viewport {
    /// The view at startup.
    fn default() -> (v: Viewport)
        ensures
            v == Viewport::startup(),
    {
        Viewport {
            canvas_size: DEFAULT_CANVAS_SIZE,
            max_iterations: DEFAULT_MAX_ITERATIONS,
            magnification: DEFAULT_MAGNIFICATION,
            pan_x: 0,
            pan_y: 0,
            zoom_level: DEFAULT_ZOOM_LEVEL,
        }
    }
}

/// One axis of the pixel-to-plane mapping.
fn plane_axis(pixel: usize, magnification: u64, pan: i64) -> (c: i128)
    requires
        magnification > 0,
    ensures
        c == plane_coordinate(pixel as int, magnification as int, pan as int),
{
    let scaled: i128 = (pixel as i128) * (UNITS_PER_ONE as i128);
    let quotient: i128 = scaled / (magnification as i128);
    assert(0 <= quotient <= scaled) by (nonlinear_arith)
        requires
            0 <= scaled,
            magnification > 0,
            quotient == (scaled as int) / (magnification as int),
    ;
    quotient - (pan as i128)
}

} // verus!
