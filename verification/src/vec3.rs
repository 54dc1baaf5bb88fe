//! Three-dimensional vectors: the executable fixed-point `Vec3` and its
//! mathematical view `V3` over unbounded integers.

use vstd::prelude::*;

verus! {

/// Mathematical 3-vector over unbounded integers; the view of `Vec3`.
pub struct V3 {
    pub x: int,
    pub y: int,
    pub z: int,
}

/// The zero vector, also the world origin.
pub open spec fn v3_zero() -> V3 {
    V3 { x: 0, y: 0, z: 0 }
}

/// Componentwise sum.
pub open spec fn v3_add(a: V3, b: V3) -> V3 {
    V3 { x: a.x + b.x, y: a.y + b.y, z: a.z + b.z }
}

/// Componentwise difference.
pub open spec fn v3_sub(a: V3, b: V3) -> V3 {
    V3 { x: a.x - b.x, y: a.y - b.y, z: a.z - b.z }
}

/// Squared Euclidean length.
pub open spec fn norm2(a: V3) -> int {
    a.x * a.x + a.y * a.y + a.z * a.z
}

/// Squared distance from `a` to `b`.
pub open spec fn dist2(a: V3, b: V3) -> int {
    norm2(v3_sub(b, a))
}

/// A position or direction in fixed-point world coordinates, 1000 sub-units
/// per world unit.
#[derive(Clone, Copy, Debug, PartialEq, Eq, Structural)]
pub struct Vec3 {
    pub x: i64,
    pub y: i64,
    pub z: i64,
}

impl View for Vec3 {
    type V = V3;

    open spec fn view(&self) -> V3 {
        V3 { x: self.x as int, y: self.y as int, z: self.z as int }
    }
}

impl Vec3 {
    /// Builds the vector with the given fixed-point components.
    pub fn new(x: i64, y: i64, z: i64) -> (v: Vec3)
        ensures
            v@ == (V3 { x: x as int, y: y as int, z: z as int }),
    {
        Vec3 { x, y, z }
    }

    /// The world origin.
    pub fn origin() -> (v: Vec3)
        ensures
            v@ == v3_zero(),
    {
        Vec3 { x: 0, y: 0, z: 0 }
    }
}

} // verus!
