//! Fixed-point scalars and vectors, and exact comparisons of Euclidean lengths.

use vstd::prelude::*;

verus! {

/// One whole unit of the library's fixed-point quantities. Scents, distances,
/// velocities, forces, impulses and rates are all held in millionths.
pub const UNIT: u32 = 1_000_000;

/// Squared Euclidean length of `(x, y)`.
pub open spec fn norm_sq(x: int, y: int) -> int {
    x * x + y * y
}

/// A 2D vector in fixed point (millionths on each axis).
#[derive(Clone, Copy, Debug, PartialEq, Eq)]
pub struct Vector {
    pub x: i32,
    pub y: i32,
}

/// Squared distance between two points, computed exactly.
fn dist_sq_exec(ax: i32, ay: i32, bx: i32, by: i32) -> (r: u128)
    ensures
        r as int == norm_sq(ax - bx, ay - by),
{
    let dx: i64 = ax as i64 - bx as i64;
    let dy: i64 = ay as i64 - by as i64;
    assert(0 <= dx * dx <= 0x1_0000_0000_0000_0000) by (nonlinear_arith)
        requires
            -0x1_0000_0000 <= dx <= 0x1_0000_0000,
    ;
    assert(0 <= dy * dy <= 0x1_0000_0000_0000_0000) by (nonlinear_arith)
        requires
            -0x1_0000_0000 <= dy <= 0x1_0000_0000,
    ;
    let sx: i128 = (dx as i128) * (dx as i128);
    let sy: i128 = (dy as i128) * (dy as i128);
    (sx as u128) + (sy as u128)
}

/// `b * b`, computed exactly.
fn square_exec(b: u64) -> (r: u128)
    ensures
        r as int == b * b,
{
    assert(b * b <= 0xffff_ffff_ffff_ffff * 0xffff_ffff_ffff_ffff) by (nonlinear_arith)
        requires
            b <= 0xffff_ffff_ffff_ffff,
    ;
    (b as u128) * (b as u128)
}

impl Vector {
    /// Squared length.
    pub open spec fn len_sq(self) -> int {
        norm_sq(self.x as int, self.y as int)
    }

    /// Squared distance to `o`.
    pub open spec fn dist_sq(self, o: Vector) -> int {
        norm_sq(self.x - o.x, self.y - o.y)
    }

    pub fn new(x: i32, y: i32) -> (r: Vector)
        ensures
            r.x == x,
            r.y == y,
    {
        Vector { x, y }
    }

    /// Whether the distance to `other` is strictly below `bound`.
    pub fn closer_than(&self, other: &Vector, bound: u64) -> (r: bool)
        ensures
            r == (self.dist_sq(*other) < bound * bound),
    {
        dist_sq_exec(self.x, self.y, other.x, other.y) < square_exec(bound)
    }

    /// Whether the distance to `other` lies in `[lo, hi]`.
    pub fn distance_within(&self, other: &Vector, lo: u64, hi: u64) -> (r: bool)
        ensures
            r == (lo * lo <= self.dist_sq(*other) && self.dist_sq(*other) <= hi * hi),
    {
        let d = dist_sq_exec(self.x, self.y, other.x, other.y);
        square_exec(lo) <= d && d <= square_exec(hi)
    }

    /// Whether the length is strictly above `bound`.
    pub fn longer_than(&self, bound: u64) -> (r: bool)
        ensures
            r == (self.len_sq() > bound * bound),
    {
        dist_sq_exec(self.x, self.y, 0, 0) > square_exec(bound)
    }

    /// Whether this vector is strictly longer than `other`.
    pub fn faster_than(&self, other: &Vector) -> (r: bool)
        ensures
            r == (self.len_sq() > other.len_sq()),
    {
        dist_sq_exec(self.x, self.y, 0, 0) > dist_sq_exec(other.x, other.y, 0, 0)
    }
}

} // verus!
