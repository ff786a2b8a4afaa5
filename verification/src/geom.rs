//! Shared geometry types: pixel sizes, points, fit margins, crop rectangles.
//!
//! Window space and image space are two distinct coordinate systems related
//! by the view transform; both use [`Point2`] with exact fraction
//! coordinates, and the unit is implied by context.

use vstd::prelude::*;

use crate::rat::{rat_of_int, Frac, RatV};

verus! {

/// Largest pixel dimension the engine accepts, per axis.
pub const DIM_MAX: u32 = 0x100_0000;

/// Error kinds produced by the coordinate engine.
///
/// `InvalidImageSize` is fatal: no transform can be computed without a
/// positive-area image. `NonInvertible` is transient: the window collapsed
/// to zero size, and the in-flight selection is dropped, never the process.
#[derive(Clone, Copy, Debug, PartialEq, Eq, Structural)]
pub enum CropError {
    InvalidImageSize,
    NonInvertible,
}

/// Ghost model of a pixel size.
pub ghost struct SizeV {
    pub width: int,
    pub height: int,
}

/// Pixel dimensions of an image or a window.
#[derive(Clone, Copy, Debug, PartialEq, Eq, Structural)]
pub struct Size2D {
    pub width: u32,
    pub height: u32,
}

impl View for Size2D {
    type V = SizeV;

    open spec fn view(&self) -> SizeV {
        SizeV { width: self.width as int, height: self.height as int }
    }
}

impl Size2D {
    /// Both dimensions are within the engine's limit.
    pub open spec fn bounded(self) -> bool {
        self.width <= DIM_MAX && self.height <= DIM_MAX
    }

    /// Both dimensions are non-zero, as a valid image requires.
    pub open spec fn positive(self) -> bool {
        self.width > 0 && self.height > 0
    }

    pub fn new(width: u32, height: u32) -> (r: Size2D)
        ensures
            r.width == width,
            r.height == height,
    {
        Size2D { width, height }
    }
}

/// Ghost model of a point: a pair of rationals.
pub ghost struct Pt2V {
    pub x: RatV,
    pub y: RatV,
}

/// A point with exact fraction coordinates.
#[derive(Clone, Copy, Debug, PartialEq, Eq, Structural)]
pub struct Point2 {
    pub x: Frac,
    pub y: Frac,
}

impl View for Point2 {
    type V = Pt2V;

    open spec fn view(&self) -> Pt2V {
        Pt2V { x: self.x@, y: self.y@ }
    }
}

impl Point2 {
    /// Both coordinates have positive denominators.
    pub open spec fn wf(self) -> bool {
        self.x.wf() && self.y.wf()
    }

    /// Both coordinates are small enough for the transform arithmetic.
    pub open spec fn bounded(self) -> bool {
        self.x.bounded() && self.y.bounded()
    }

    pub fn new(x: Frac, y: Frac) -> (r: Point2)
        ensures
            r.x == x,
            r.y == y,
    {
        Point2 { x, y }
    }

    /// The point with integer coordinates `(x, y)`.
    pub fn from_ints(x: i32, y: i32) -> (r: Point2)
        ensures
            r@.x == rat_of_int(x as int),
            r@.y == rat_of_int(y as int),
            r.bounded(),
    {
        Point2 { x: Frac::new(x as i128, 1), y: Frac::new(y as i128, 1) }
    }
}

/// The configurable fit margin, a ratio in `(0, 1]` applied to the
/// fit-to-window scale.
#[derive(Clone, Copy, Debug, PartialEq, Eq, Structural)]
pub struct FitMargin {
    pub num: u32,
    pub den: u32,
}

impl View for FitMargin {
    type V = RatV;

    open spec fn view(&self) -> RatV {
        RatV { num: self.num as int, den: self.den as int }
    }
}

impl FitMargin {
    /// A valid margin is a ratio in `(0, 1]` with a denominator within the
    /// engine's limit.
    pub open spec fn wf(self) -> bool {
        0 < self.num <= self.den && self.den <= DIM_MAX
    }

    /// The margin `num / den`, when that is a ratio in `(0, 1]` within the
    /// engine's limit.
    pub fn new(num: u32, den: u32) -> (r: Option<FitMargin>)
        ensures
            r is Some <==> (0 < num <= den && den <= DIM_MAX),
            r matches Some(m) ==> m.num == num && m.den == den && m.wf(),
    {
        if 0 < num && num <= den && den <= DIM_MAX {
            Some(FitMargin { num, den })
        } else {
            None
        }
    }

    /// The whole fit-to-window scale, with no margin taken off.
    pub fn whole() -> (r: FitMargin)
        ensures
            r.num == 1,
            r.den == 1,
            r.wf(),
    {
        FitMargin { num: 1, den: 1 }
    }
}

/// A completed drag gesture: the two corner points in window space, in the
/// order they were captured.
#[derive(Clone, Copy, Debug, PartialEq, Eq, Structural)]
pub struct RawSelection {
    pub a: Point2,
    pub b: Point2,
}

impl RawSelection {
    /// Both corners are small enough for the transform arithmetic.
    pub open spec fn bounded(self) -> bool {
        self.a.bounded() && self.b.bounded()
    }

    pub fn new(a: Point2, b: Point2) -> (r: RawSelection)
        ensures
            r.a == a,
            r.b == b,
    {
        RawSelection { a, b }
    }
}

/// An integer-normalized crop rectangle: top-left origin and size, both in
/// image pixels.
#[derive(Clone, Copy, Debug, PartialEq, Eq, Structural)]
pub struct CropRect {
    pub x: u32,
    pub y: u32,
    pub width: u32,
    pub height: u32,
}

impl CropRect {
    /// The rectangle lies within an image of the given size.
    pub open spec fn within(self, image: SizeV) -> bool {
        self.x + self.width <= image.width && self.y + self.height <= image.height
    }

    /// A zero-area rectangle is a no-op, not an error.
    pub open spec fn degenerate(self) -> bool {
        self.width == 0 || self.height == 0
    }
}

} // verus!
