//! Integer lattice coordinates.

use vstd::prelude::*;

verus! {

/// A 3D lattice coordinate with unsigned components.
#[derive(Clone, Copy, PartialEq, Eq, Structural, Debug)]
pub struct UVec3 {
    pub x: u32,
    pub y: u32,
    pub z: u32,
}

impl UVec3 {
    /// Builds the coordinate `(x, y, z)`.
    pub fn new(x: u32, y: u32, z: u32) -> (r: UVec3)
        ensures
            r == (UVec3 { x, y, z }),
    {
        UVec3 { x, y, z }
    }

    /// The origin coordinate `(0, 0, 0)`.
    pub fn zero() -> (r: UVec3)
        ensures
            r == (UVec3 { x: 0u32, y: 0u32, z: 0u32 }),
    {
        UVec3 { x: 0, y: 0, z: 0 }
    }
}

} // verus!
