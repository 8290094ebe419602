//! Conversion between normalized project space and output pixel space.
//!
//! Spatial segment parameters are normalized to the interval `[0, 1]` and
//! stored in fixed-point form: a value of [`NORM_SCALE`] stands for `1.0`.
//! Resolving such a value against an output dimension is a single exact
//! multiplication, so resolved pixel values are held in millionths of a
//! pixel and never lose precision.

use vstd::prelude::*;

verus! {

/// Fixed-point scale of normalized values: this many units stand for `1.0`.
pub const NORM_SCALE: u32 = 1_000_000;

/// Resolves a normalized fixed-point value against a pixel dimension.
///
/// The result is in millionths of a pixel: `norm * dim` where `norm` is in
/// millionths of the unit interval and `dim` is in whole pixels.
pub fn to_pixels(norm: u32, dim: u32) -> (r: u64)
    ensures
        r == norm * dim,
{
    let n: u64 = norm as u64;
    let d: u64 = dim as u64;
    proof {
        assert(n * d <= 0xFFFF_FFFFu64 * 0xFFFF_FFFFu64) by (nonlinear_arith)
            requires
                n <= 0xFFFF_FFFFu64,
                d <= 0xFFFF_FFFFu64,
        ;
    }
    n * d
}

/// The smaller of an output's two dimensions, the reference for radii so
/// that a radius parameter behaves the same at every aspect ratio.
pub fn min_dim(width: u32, height: u32) -> (r: u32)
    ensures
        r == vstd::math::min(width as int, height as int),
{
    if width <= height {
        width
    } else {
        height
    }
}

/// A point inside a monitor's half-open pixel bounds.
pub open spec fn point_in_bounds(x: int, y: int, left: int, top: int, right: int, bottom: int) -> bool {
    left <= x && x < right && top <= y && y < bottom
}

/// Whether a window intersects a monitor: some corner of the window's
/// rectangle lies inside the monitor's bounds. Bounds and position are in
/// pixels, already scaled by the caller.
pub fn monitor_intersects(
    left: i32,
    top: i32,
    right: i32,
    bottom: i32,
    pos_x: i32,
    pos_y: i32,
    width: u32,
    height: u32,
) -> (r: bool)
    requires
        width <= i32::MAX,
        height <= i32::MAX,
        pos_x + width <= i32::MAX,
        pos_y + height <= i32::MAX,
    ensures
        r == (point_in_bounds(pos_x as int, pos_y as int, left as int, top as int, right as int, bottom as int)
            || point_in_bounds(pos_x + width, pos_y as int, left as int, top as int, right as int, bottom as int)
            || point_in_bounds(pos_x as int, pos_y + height, left as int, top as int, right as int, bottom as int)
            || point_in_bounds(pos_x + width, pos_y + height, left as int, top as int, right as int, bottom as int)),
{
    let x2 = pos_x + width as i32;
    let y2 = pos_y + height as i32;
    point_in(pos_x, pos_y, left, top, right, bottom) || point_in(x2, pos_y, left, top, right, bottom)
        || point_in(pos_x, y2, left, top, right, bottom) || point_in(x2, y2, left, top, right, bottom)
}

/// Runtime test for [`point_in_bounds`].
fn point_in(x: i32, y: i32, left: i32, top: i32, right: i32, bottom: i32) -> (r: bool)
    ensures
        r == point_in_bounds(x as int, y as int, left as int, top as int, right as int, bottom as int),
{
    left <= x && x < right && top <= y && y < bottom
}

} // verus!
