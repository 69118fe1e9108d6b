//! Points, sizes and rectangles.

use crate::scalar::Scalar;
use vstd::prelude::*;

verus! {

/// A number of device pixels.
#[derive(Clone, Copy, Debug, PartialEq, Eq, Hash, Structural)]
pub struct DevicePixels(pub i32);

/// A number of logical pixels.
#[derive(Clone, Copy, Debug, PartialEq)]
pub struct Pixels(pub Scalar);

/// A position on a plane.
#[derive(Clone, Copy, Debug, PartialEq, Eq, Hash)]
pub struct Point<T> {
    /// The horizontal coordinate.
    pub x: T,
    /// The vertical coordinate.
    pub y: T,
}

/// The extent of a rectangle.
#[derive(Clone, Copy, Debug, PartialEq, Eq, Hash)]
pub struct Size<T> {
    /// The horizontal extent.
    pub width: T,
    /// The vertical extent.
    pub height: T,
}

/// A rectangle.
#[derive(Clone, Copy, Debug, PartialEq, Eq, Hash)]
pub struct Bounds<T> {
    /// The corner with the smallest coordinates.
    pub origin: Point<T>,
    /// The extent from that corner.
    pub size: Size<T>,
}

} // verus!
