//! Fixed-point scalars and vectors.
//!
//! Geometry is carried in whole milli-units (one unit of world space is
//! 1000), so positions, radii and picking distances are plain `i64`
//! values and every computation on them can be reasoned about exactly.

use vstd::prelude::*;

verus! {

/// A 3-vector in fixed-point milli-units.
#[derive(Clone, Copy, Debug, PartialEq, Eq, Structural)]
pub struct Vec3i {
    pub x: i64,
    pub y: i64,
    pub z: i64,
}

impl Vec3i {
    pub fn new(x: i64, y: i64, z: i64) -> (r: Vec3i)
        ensures
            r == (Vec3i { x, y, z }),
    {
        Vec3i { x, y, z }
    }

    pub fn zero() -> (r: Vec3i)
        ensures
            r == (Vec3i { x: 0, y: 0, z: 0 }),
    {
        Vec3i { x: 0, y: 0, z: 0 }
    }
}

/// The point halfway between two fixed-point coordinates, rounded toward
/// the first one: `a + (b - a) / 2` with division truncating toward zero.
pub open spec fn mid_coord(a: int, b: int) -> int {
    if b >= a {
        a + (b - a) / 2
    } else {
        a - (a - b) / 2
    }
}

/// The componentwise midpoint of two fixed-point vectors.
pub open spec fn mid_vec(a: Vec3i, b: Vec3i) -> Vec3i {
    Vec3i {
        x: mid_coord(a.x as int, b.x as int) as i64,
        y: mid_coord(a.y as int, b.y as int) as i64,
        z: mid_coord(a.z as int, b.z as int) as i64,
    }
}

/// `a + (b - a) / 2` for one coordinate, computed without overflow.
pub fn mid_coord_exec(a: i64, b: i64) -> (r: i64)
    ensures
        r as int == mid_coord(a as int, b as int),
{
    if b >= a {
        let d: u64 = ((b as i128) - (a as i128)) as u64;
        let h: u64 = d / 2;
        proof {
            assert(0 <= h <= b - a);
        }
        ((a as i128) + (h as i128)) as i64
    } else {
        let d: u64 = ((a as i128) - (b as i128)) as u64;
        let h: u64 = d / 2;
        proof {
            assert(0 <= h <= a - b);
        }
        ((a as i128) - (h as i128)) as i64
    }
}

/// The componentwise midpoint of two fixed-point vectors.
pub fn midpoint(a: Vec3i, b: Vec3i) -> (r: Vec3i)
    ensures
        r == mid_vec(a, b),
{
    Vec3i {
        x: mid_coord_exec(a.x, b.x),
        y: mid_coord_exec(a.y, b.y),
        z: mid_coord_exec(a.z, b.z),
    }
}

} // verus!
