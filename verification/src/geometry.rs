//! Plain geometric quantities used throughout the library.
//!
//! All logical quantities are carried in thousandths of a logical pixel, so
//! that sizes derived from a physical resolution and a fractional scale
//! factor stay exact: no rounding happens inside the library. Turning these
//! fixed-point values into whatever a windowing backend expects is the
//! caller's business.

use vstd::prelude::*;

verus! {

/// Thousandths of a logical pixel per logical pixel.
pub const MILLIS_PER_PIXEL: u64 = 1000;

/// The size of a monitor in physical pixels.
#[derive(Debug, Clone, Copy, PartialEq, Eq, Structural)]
pub struct PhysicalSize {
    pub width: u32,
    pub height: u32,
}

/// The ratio converting physical to logical pixel dimensions for one
/// display, in thousandths: `per_mille == 1500` stands for a 1.5 ratio.
#[derive(Debug, Clone, Copy, PartialEq, Eq, Structural)]
pub struct ScaleFactor {
    pub per_mille: u32,
}

/// A size in logical pixels, in thousandths of a pixel: `width_milli ==
/// 1_500_000` stands for a width of 1500 logical pixels.
#[derive(Debug, Clone, Copy, PartialEq, Eq, Structural)]
pub struct LogicalSize {
    pub width_milli: u64,
    pub height_milli: u64,
}

/// A point in logical coordinates, in thousandths of a pixel, measured from
/// some monitor's origin.
#[derive(Debug, Clone, Copy, PartialEq, Eq, Structural, Default)]
pub struct Point {
    pub x_milli: i64,
    pub y_milli: i64,
}

impl LogicalSize {
    /// A size of exactly `width` by `height` whole logical pixels.
    pub fn from_pixels(width: u32, height: u32) -> (r: LogicalSize)
        ensures
            r.width_milli == width * MILLIS_PER_PIXEL,
            r.height_milli == height * MILLIS_PER_PIXEL,
    {
        LogicalSize {
            width_milli: width as u64 * MILLIS_PER_PIXEL,
            height_milli: height as u64 * MILLIS_PER_PIXEL,
        }
    }
}

impl Point {
    /// A point at exactly `x`, `y` whole logical pixels.
    pub fn from_pixels(x: i32, y: i32) -> (r: Point)
        ensures
            r.x_milli == x * MILLIS_PER_PIXEL,
            r.y_milli == y * MILLIS_PER_PIXEL,
    {
        Point { x_milli: x as i64 * MILLIS_PER_PIXEL as i64, y_milli: y as i64 * MILLIS_PER_PIXEL as i64 }
    }
}

} // verus!
