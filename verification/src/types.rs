//! Fixed-point screen positions and the arithmetic the agents need on them.

use vstd::prelude::*;

verus! {

/// Sub-pixel units that make one screen pixel.
pub const UNITS_PER_PIXEL: i64 = 1000;

/// How far, in sub-pixel units along one axis, two positions may be apart
/// and still count as the same place: one pixel.
pub const VISIBILITY_THRESHOLD: i64 = 1000;

/// A screen location in sub-pixel units. The difference of two locations is
/// a displacement and has the same type.
#[derive(Clone, Copy, Debug, PartialEq, Eq, Structural)]
pub struct Position {
    pub x: i64,
    pub y: i64,
}

/// `v` brought into the range of `i64`.
pub open spec fn clamp_i64(v: int) -> i64 {
    if v > i64::MAX {
        i64::MAX
    } else if v < i64::MIN {
        i64::MIN
    } else {
        v as i64
    }
}

/// `v` brought into the range of `i32`.
pub open spec fn clamp_i32(v: int) -> i32 {
    if v > i32::MAX {
        i32::MAX
    } else if v < i32::MIN {
        i32::MIN
    } else {
        v as i32
    }
}

/// The distance between two coordinates on one axis.
pub open spec fn axis_gap(a: i64, b: i64) -> int {
    if a >= b {
        a - b
    } else {
        b - a
    }
}

/// `v` with its fraction of a pixel cut off, towards zero.
pub open spec fn whole_pixels(v: i64) -> int {
    if v >= 0 {
        v as int / UNITS_PER_PIXEL as int
    } else {
        -((-(v as int)) / UNITS_PER_PIXEL as int)
    }
}

/// The sum of two coordinates, held at the nearest end of the range where
/// it would leave it.
pub fn saturating_sum(a: i64, b: i64) -> (r: i64)
    ensures
        r == clamp_i64(a + b),
{
    match a.checked_add(b) {
        Some(s) => s,
        None => if b > 0 {
            i64::MAX
        } else {
            i64::MIN
        },
    }
}

/// Whether two coordinates lie more than the visibility threshold apart.
pub fn axis_exceeds(a: i64, b: i64) -> (r: bool)
    ensures
        r == (axis_gap(a, b) > VISIBILITY_THRESHOLD),
{
    if a >= b {
        match a.checked_sub(b) {
            Some(d) => d > VISIBILITY_THRESHOLD,
            None => true,
        }
    } else {
        match b.checked_sub(a) {
            Some(d) => d > VISIBILITY_THRESHOLD,
            None => true,
        }
    }
}

impl Position {
    /// The position with the given coordinates.
    pub fn new(x: i64, y: i64) -> (p: Position)
        ensures
            p == (Position { x, y }),
    {
        Position { x, y }
    }

    /// The position of a whole pixel.
    pub fn from_pixels(px: i32, py: i32) -> (p: Position)
        ensures
            p.x == px * UNITS_PER_PIXEL,
            p.y == py * UNITS_PER_PIXEL,
    {
        let x: i64 = px as i64 * UNITS_PER_PIXEL;
        let y: i64 = py as i64 * UNITS_PER_PIXEL;
        Position { x, y }
    }

    /// The pixel this position lies in: each coordinate loses its fraction,
    /// towards zero, and is held at the nearest end of `i32` where it would
    /// not fit.
    pub fn to_pixels(&self) -> (r: (i32, i32))
        ensures
            r.0 == clamp_i32(whole_pixels(self.x)),
            r.1 == clamp_i32(whole_pixels(self.y)),
    {
        (axis_to_pixel(self.x), axis_to_pixel(self.y))
    }

    /// This position moved by `step`, each coordinate saturating.
    pub open spec fn offset_spec(self, step: Position) -> Position {
        Position { x: clamp_i64(self.x + step.x), y: clamp_i64(self.y + step.y) }
    }

    /// This position moved by `step`. A coordinate that would leave the
    /// range of `i64` stays at the end it reached.
    pub fn offset(self, step: Position) -> (p: Position)
        ensures
            p == self.offset_spec(step),
    {
        Position { x: saturating_sum(self.x, step.x), y: saturating_sum(self.y, step.y) }
    }

    /// Whether `self` lies more than the visibility threshold from `other`
    /// on either axis.
    pub open spec fn diverges_from_spec(self, other: Position) -> bool {
        axis_gap(self.x, other.x) > VISIBILITY_THRESHOLD || axis_gap(self.y, other.y)
            > VISIBILITY_THRESHOLD
    }

    /// Whether `self` lies more than the visibility threshold from `other`
    /// on either axis.
    pub fn diverges_from(self, other: Position) -> (r: bool)
        ensures
            r == self.diverges_from_spec(other),
    {
        axis_exceeds(self.x, other.x) || axis_exceeds(self.y, other.y)
    }
}

/// One coordinate in whole pixels, as `to_pixels` gives it.
pub fn axis_to_pixel(v: i64) -> (r: i32)
    ensures
        r == clamp_i32(whole_pixels(v)),
{
    if v >= 0 {
        let whole: i64 = v / UNITS_PER_PIXEL;
        if whole > i32::MAX as i64 {
            i32::MAX
        } else {
            whole as i32
        }
    } else if v == i64::MIN {
        i32::MIN
    } else {
        let whole: i64 = (-v) / UNITS_PER_PIXEL;
        if whole > i32::MAX as i64 {
            i32::MIN
        } else {
            (-whole) as i32
        }
    }
}

} // verus!
