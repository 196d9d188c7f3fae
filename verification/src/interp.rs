//! Vertex selection for edge interpolation.
//!
//! Placing a vertex on a crossed cube edge is a guarded choice: the vertex
//! is the first endpoint when the isolevel (numerically) meets the first
//! sample, the second endpoint when it meets the second sample, the first
//! endpoint again when the two samples (numerically) coincide — the
//! degenerate-gradient guard that avoids dividing by almost zero — and the
//! linearly interpolated point otherwise. The three guard results and the
//! interpolated point are produced by the caller's floating-point kernel;
//! which of the four candidates is emitted is fixed here, so that whatever
//! the kernel reports, the selection is the guarded choice above.

use vstd::prelude::*;

use crate::mesh::Vec3Bits;

verus! {

/// The vertex that the guarded choice emits: `p1` under the first or third
/// guard, `p2` under the second, the interpolated point when no guard
/// holds.
pub open spec fn spec_select_vertex(
    near1: bool,
    near2: bool,
    flat: bool,
    p1: Vec3Bits,
    p2: Vec3Bits,
    lerped: Vec3Bits,
) -> Vec3Bits {
    if near1 {
        p1
    } else if near2 {
        p2
    } else if flat {
        p1
    } else {
        lerped
    }
}

/// Emits the vertex of one crossed edge from the kernel's guard results:
/// `near1` and `near2` report that the isolevel meets the first or second
/// sample, `flat` that the two samples coincide, and `lerped` is the
/// kernel's linearly interpolated point.
pub fn select_vertex(
    near1: bool,
    near2: bool,
    flat: bool,
    p1: Vec3Bits,
    p2: Vec3Bits,
    lerped: Vec3Bits,
) -> (r: Vec3Bits)
    ensures
        r == spec_select_vertex(near1, near2, flat, p1, p2, lerped),
{
    if near1 {
        p1
    } else if near2 {
        p2
    } else if flat {
        p1
    } else {
        lerped
    }
}

/// Exactness at the boundary: whenever the kernel's first guard holds — in
/// particular whenever the first sample equals the isolevel exactly — the
/// emitted vertex is the first endpoint itself, not an interpolated point.
pub proof fn lemma_select_exact_at_boundary(
    near2: bool,
    flat: bool,
    p1: Vec3Bits,
    p2: Vec3Bits,
    lerped: Vec3Bits,
)
    ensures
        spec_select_vertex(true, near2, flat, p1, p2, lerped) == p1,
{
}

} // verus!
