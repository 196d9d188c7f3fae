//! Per-cell Marching Cubes evaluation.
//!
//! A [`GridCell`] carries the 8 corner coordinates of one unit lattice cell
//! and the 8 samples stored for them. [`march_cube`] classifies the cell
//! against an isolevel, looks the resulting sign pattern up in the topology
//! tables, and returns the cell's triangles. Each triangle vertex is
//! returned as an [`EdgeSpan`]: the two corners of the crossed cube edge and
//! their samples, which is everything the caller's interpolation kernel
//! needs to place the vertex on that edge.

use vstd::prelude::*;

use crate::chunk::Chunk;
use crate::coord::UVec3;
use crate::scalar::{sc_lt, scalar_lt};
use crate::tables::{
    EDGE_CONNECTION, edge_connection, edge_mask, lemma_edge_connection_bounds,
    lemma_edge_mask_uniform, lemma_single_corner_rows, lemma_tri_entry_bounds,
    lemma_tri_triples_whole, pow2_8, spec_edge_mask, spec_tri_entry, tri_entry,
};

verus! {

/// One unit lattice cell: 8 corner coordinates in the fixed corner order of
/// the topology tables, and the 8 samples stored for those corners.
#[derive(Clone, Copy)]
pub struct GridCell {
    /// Corner coordinates, in table corner order.
    pub vertex_position: [UVec3; 8],
    /// Samples for the corners, in the same order.
    pub value: [u32; 8],
}

/// Corner `i` of the unit cell whose origin is `pos`, in the fixed corner
/// order of the topology tables: corners 0-3 ring the bottom face, corners
/// 4-7 the top face.
pub open spec fn spec_corner_pos(pos: UVec3, i: int) -> UVec3
    recommends
        0 <= i < 8,
        pos.x + 1 <= u32::MAX,
        pos.y + 1 <= u32::MAX,
        pos.z + 1 <= u32::MAX,
{
    let dx: int = if i == 1 || i == 2 || i == 5 || i == 6 {
        1
    } else {
        0
    };
    let dy: int = if i >= 4 {
        1
    } else {
        0
    };
    let dz: int = if i == 2 || i == 3 || i == 6 || i == 7 {
        1
    } else {
        0
    };
    UVec3 { x: (pos.x + dx) as u32, y: (pos.y + dy) as u32, z: (pos.z + dz) as u32 }
}

/// The 8-bit sign pattern of a cell: bit `i` is set exactly when sample `i`
/// is below the isolevel.
pub open spec fn spec_cube_index(values: Seq<u32>, isolevel: u32) -> int
    recommends
        values.len() == 8,
{
    (if sc_lt(values[0], isolevel) { 1int } else { 0int })
    + (if sc_lt(values[1], isolevel) { 2int } else { 0int })
    + (if sc_lt(values[2], isolevel) { 4int } else { 0int })
    + (if sc_lt(values[3], isolevel) { 8int } else { 0int })
    + (if sc_lt(values[4], isolevel) { 16int } else { 0int })
    + (if sc_lt(values[5], isolevel) { 32int } else { 0int })
    + (if sc_lt(values[6], isolevel) { 64int } else { 0int })
    + (if sc_lt(values[7], isolevel) { 128int } else { 0int })
}

impl GridCell {
    /// Builds the cell at origin `pos` with every sample zero.
    pub fn new(pos: UVec3) -> (r: GridCell)
        requires
            pos.x < u32::MAX,
            pos.y < u32::MAX,
            pos.z < u32::MAX,
        ensures
            forall|i: int| 0 <= i < 8 ==> r.vertex_position@[i] == spec_corner_pos(pos, i),
            forall|i: int| 0 <= i < 8 ==> r.value@[i] == 0u32,
    {
        let x1: u32 = pos.x + 1;
        let y1: u32 = pos.y + 1;
        let z1: u32 = pos.z + 1;
        GridCell {
            vertex_position: [
                pos,
                UVec3 { x: x1, y: pos.y, z: pos.z },
                UVec3 { x: x1, y: pos.y, z: z1 },
                UVec3 { x: pos.x, y: pos.y, z: z1 },
                UVec3 { x: pos.x, y: y1, z: pos.z },
                UVec3 { x: x1, y: y1, z: pos.z },
                UVec3 { x: x1, y: y1, z: z1 },
                UVec3 { x: pos.x, y: y1, z: z1 },
            ],
            value: [0u32;8],
        }
    }

    /// Every corner of the cell addresses a lattice point of `chunk`.
    pub open spec fn corners_in(self, chunk: Chunk) -> bool {
        forall|i: int| 0 <= i < 8 ==> chunk.in_bounds(self.vertex_position@[i])
    }

    /// Overwrites the 8 samples with the chunk's samples at the cell's
    /// corner coordinates.
    pub fn sample_values(&mut self, chunk: &Chunk)
        requires
            chunk.wf(),
            old(self).corners_in(*chunk),
        ensures
            final(self).vertex_position == old(self).vertex_position,
            forall|i: int|
                0 <= i < 8 ==> final(self).value@[i] == chunk.spec_get(
                    old(self).vertex_position@[i],
                ),
    {
        self.value = [
            chunk.sample(self.vertex_position[0]),
            chunk.sample(self.vertex_position[1]),
            chunk.sample(self.vertex_position[2]),
            chunk.sample(self.vertex_position[3]),
            chunk.sample(self.vertex_position[4]),
            chunk.sample(self.vertex_position[5]),
            chunk.sample(self.vertex_position[6]),
            chunk.sample(self.vertex_position[7]),
        ];
    }
}

/// Interpolation inputs for one triangle vertex: the two corners of the
/// crossed cube edge, with their coordinates and samples.
#[derive(Clone, Copy, PartialEq, Eq, Structural, Debug)]
pub struct EdgeSpan {
    /// Coordinate of the edge's first corner.
    pub p1: UVec3,
    /// Coordinate of the edge's second corner.
    pub p2: UVec3,
    /// Sample at the first corner.
    pub valp1: u32,
    /// Sample at the second corner.
    pub valp2: u32,
}

/// One triangle of a marched cell. The three vertices are already in
/// emission order (the reverse of the table's edge order, for outward
/// winding); each lies on the cube edge its span describes.
#[derive(Clone, Copy, PartialEq, Eq, Structural, Debug)]
pub struct TriSpan {
    /// Span of the first emitted vertex.
    pub v0: EdgeSpan,
    /// Span of the second emitted vertex.
    pub v1: EdgeSpan,
    /// Span of the third emitted vertex.
    pub v2: EdgeSpan,
}

/// The interpolation inputs that cube edge `e` of a cell with corner
/// coordinates `positions` and corner samples `values` hands to the vertex
/// kernel.
pub open spec fn spec_edge_span(positions: Seq<UVec3>, values: Seq<u32>, e: int) -> EdgeSpan
    recommends
        positions.len() == 8,
        values.len() == 8,
        0 <= e < 12,
{
    EdgeSpan {
        p1: positions[EDGE_CONNECTION[e].0 as int],
        p2: positions[EDGE_CONNECTION[e].1 as int],
        valp1: values[EDGE_CONNECTION[e].0 as int],
        valp2: values[EDGE_CONNECTION[e].1 as int],
    }
}

/// Number of triangles listed from slot `k` on in the triangle-table row of
/// sign pattern `ci`: triples are counted until the -1 sentinel or the end
/// of the row.
pub open spec fn spec_tri_count_from(ci: int, k: int) -> int
    recommends
        0 <= ci < 256,
        0 <= k,
    decreases 16 - k,
{
    if k + 2 >= 16 {
        0
    } else if spec_tri_entry(ci, k) < 0 {
        0
    } else {
        1 + spec_tri_count_from(ci, k + 3)
    }
}

/// Number of triangles in the triangle-table row of sign pattern `ci`.
pub open spec fn spec_tri_count(ci: int) -> int
    recommends
        0 <= ci < 256,
{
    spec_tri_count_from(ci, 0)
}

/// Triangle `t` of a cell under sign pattern `ci`: the table's edge triple
/// at slots `3t`, `3t+1`, `3t+2`, emitted in reverse order.
pub open spec fn spec_cell_triangle(
    positions: Seq<UVec3>,
    values: Seq<u32>,
    ci: int,
    t: int,
) -> TriSpan
    recommends
        positions.len() == 8,
        values.len() == 8,
        0 <= ci < 256,
        0 <= t < spec_tri_count(ci),
{
    TriSpan {
        v0: spec_edge_span(positions, values, spec_tri_entry(ci, 3 * t + 2) as int),
        v1: spec_edge_span(positions, values, spec_tri_entry(ci, 3 * t + 1) as int),
        v2: spec_edge_span(positions, values, spec_tri_entry(ci, 3 * t) as int),
    }
}

/// Result of marching one cell against `isolevel`: nothing when the cell's
/// sign pattern crosses no edge (the cell lies entirely on one side of the
/// surface), otherwise the cell's triangles in table order.
pub open spec fn spec_march_cube(
    positions: Seq<UVec3>,
    values: Seq<u32>,
    isolevel: u32,
) -> Option<Seq<TriSpan>> {
    let ci = spec_cube_index(values, isolevel);
    if spec_edge_mask(ci) == 0 {
        None
    } else {
        Some(
            Seq::new(
                spec_tri_count(ci) as nat,
                |t: int| spec_cell_triangle(positions, values, ci, t),
            ),
        )
    }
}

/// Computes the cell's 8-bit sign pattern: bit `i` set exactly when sample
/// `i` is below the isolevel.
pub fn compute_cube_index(cell: &GridCell, isolevel: u32) -> (ci: usize)
    ensures
        ci == spec_cube_index(cell.value@, isolevel),
        ci < 256,
{
    let mut ci: usize = 0;
    if scalar_lt(cell.value[0], isolevel) {
        ci = ci + 1;
    }
    if scalar_lt(cell.value[1], isolevel) {
        ci = ci + 2;
    }
    if scalar_lt(cell.value[2], isolevel) {
        ci = ci + 4;
    }
    if scalar_lt(cell.value[3], isolevel) {
        ci = ci + 8;
    }
    if scalar_lt(cell.value[4], isolevel) {
        ci = ci + 16;
    }
    if scalar_lt(cell.value[5], isolevel) {
        ci = ci + 32;
    }
    if scalar_lt(cell.value[6], isolevel) {
        ci = ci + 64;
    }
    if scalar_lt(cell.value[7], isolevel) {
        ci = ci + 128;
    }
    ci
}

/// Marches a single cell: classifies it against `isolevel` and returns its
/// triangles, or nothing when the cell is entirely inside or entirely
/// outside the surface.
pub fn march_cube(cell: &GridCell, isolevel: u32) -> (r: Option<Vec<TriSpan>>)
    ensures
        match r {
            None => spec_march_cube(cell.vertex_position@, cell.value@, isolevel) is None,
            Some(v) => spec_march_cube(cell.vertex_position@, cell.value@, isolevel) == Some(v@),
        },
{
    let ci: usize = compute_cube_index(cell, isolevel);
    let edge: u16 = edge_mask(ci);
    if edge == 0 {
        return None;
    }
    let mut tris: Vec<TriSpan> = Vec::new();
    let mut k: usize = 0;
    loop
        invariant
            ci < 256,
            ci == spec_cube_index(cell.value@, isolevel),
            spec_edge_mask(ci as int) != 0,
            k == 3 * tris@.len(),
            k <= 15,
            forall|t: int|
                0 <= t < tris@.len() ==> tris@[t] == spec_cell_triangle(
                    cell.vertex_position@,
                    cell.value@,
                    ci as int,
                    t,
                ),
            spec_tri_count(ci as int) == tris@.len() + spec_tri_count_from(ci as int, k as int),
        ensures
            tris@.len() == spec_tri_count(ci as int),
            forall|t: int|
                0 <= t < tris@.len() ==> tris@[t] == spec_cell_triangle(
                    cell.vertex_position@,
                    cell.value@,
                    ci as int,
                    t,
                ),
        decreases 16 - k,
    {
        if k + 2 >= 16 {
            break;
        }
        let t0: i8 = tri_entry(ci, k);
        if t0 < 0 {
            break;
        }
        proof {
            lemma_tri_entry_bounds(ci as int, k as int);
            lemma_tri_entry_bounds(ci as int, k as int + 1);
            lemma_tri_entry_bounds(ci as int, k as int + 2);
            lemma_tri_triples_whole(ci as int, k as int);
        }
        let t1: i8 = tri_entry(ci, k + 1);
        let t2: i8 = tri_entry(ci, k + 2);
        let s0 = cell_edge_span(cell, t2 as usize);
        let s1 = cell_edge_span(cell, t1 as usize);
        let s2 = cell_edge_span(cell, t0 as usize);
        tris.push(TriSpan { v0: s0, v1: s1, v2: s2 });
        k = k + 3;
    }
    proof {
        assert(tris@ =~= Seq::new(
            spec_tri_count(ci as int) as nat,
            |t: int| spec_cell_triangle(cell.vertex_position@, cell.value@, ci as int, t),
        ));
    }
    Some(tris)
}

/// A cell entirely on one side of the surface yields no triangles: when
/// every sample is below the isolevel, or none is, the march returns
/// nothing.
pub proof fn lemma_uniform_cell_marches_empty(
    positions: Seq<UVec3>,
    values: Seq<u32>,
    isolevel: u32,
)
    requires
        values.len() == 8,
        (forall|i: int| 0 <= i < 8 ==> sc_lt(#[trigger] values[i], isolevel)) || (forall|i: int|
            0 <= i < 8 ==> !sc_lt(#[trigger] values[i], isolevel)),
    ensures
        spec_march_cube(positions, values, isolevel) is None,
{
    lemma_edge_mask_uniform();
    if forall|i: int| 0 <= i < 8 ==> sc_lt(#[trigger] values[i], isolevel) {
        assert(spec_cube_index(values, isolevel) == 255);
    } else {
        assert(spec_cube_index(values, isolevel) == 0);
    }
}

/// Every vertex of the triangle lies on a cube edge that has `p` as one of
/// its two corners.
pub open spec fn spec_tri_touches(t: TriSpan, p: UVec3) -> bool {
    &&& t.v0.p1 == p || t.v0.p2 == p
    &&& t.v1.p1 == p || t.v1.p2 == p
    &&& t.v2.p1 == p || t.v2.p2 == p
}

/// The canonical single-corner case: when exactly one sample lies below
/// the isolevel, the march yields exactly one triangle, and each of its
/// three vertices lies on a cube edge incident to that corner.
pub proof fn lemma_single_corner_one_triangle(
    positions: Seq<UVec3>,
    values: Seq<u32>,
    isolevel: u32,
    corner: int,
)
    requires
        positions.len() == 8,
        values.len() == 8,
        0 <= corner < 8,
        sc_lt(values[corner], isolevel),
        forall|i: int| 0 <= i < 8 && i != corner ==> !sc_lt(#[trigger] values[i], isolevel),
    ensures
        spec_march_cube(positions, values, isolevel) is Some,
        spec_march_cube(positions, values, isolevel)->Some_0.len() == 1,
        spec_tri_touches(
            spec_march_cube(positions, values, isolevel)->Some_0[0],
            positions[corner],
        ),
{
    lemma_single_corner_rows();
    let ci = spec_cube_index(values, isolevel);
    if corner == 0 {
        assert(ci == 1);
    } else if corner == 1 {
        assert(ci == 2);
    } else if corner == 2 {
        assert(ci == 4);
    } else if corner == 3 {
        assert(ci == 8);
    } else if corner == 4 {
        assert(ci == 16);
    } else if corner == 5 {
        assert(ci == 32);
    } else if corner == 6 {
        assert(ci == 64);
    } else {
        assert(ci == 128);
    }
    assert(ci == pow2_8(corner));
    assert(spec_edge_mask(ci) != 0);
    assert(spec_tri_entry(ci, 0) >= 0);
    assert(spec_tri_entry(ci, 3) == -1);
    assert(spec_tri_count_from(ci, 3) == 0);
    assert(spec_tri_count(ci) == 1);
    let m = spec_march_cube(positions, values, isolevel);
    assert(m->Some_0[0] == spec_cell_triangle(positions, values, ci, 0));
    let e0 = spec_tri_entry(ci, 2) as int;
    let e1 = spec_tri_entry(ci, 1) as int;
    let e2 = spec_tri_entry(ci, 0) as int;
    assert(EDGE_CONNECTION[e0].0 == corner || EDGE_CONNECTION[e0].1 == corner);
    assert(EDGE_CONNECTION[e1].0 == corner || EDGE_CONNECTION[e1].1 == corner);
    assert(EDGE_CONNECTION[e2].0 == corner || EDGE_CONNECTION[e2].1 == corner);
}

/// Reads the interpolation inputs of cube edge `e` out of the cell.
fn cell_edge_span(cell: &GridCell, e: usize) -> (r: EdgeSpan)
    requires
        e < 12,
    ensures
        r == spec_edge_span(cell.vertex_position@, cell.value@, e as int),
{
    proof {
        lemma_edge_connection_bounds(e as int);
    }
    let (u, v) = edge_connection(e);
    EdgeSpan {
        p1: cell.vertex_position[u],
        p2: cell.vertex_position[v],
        valp1: cell.value[u],
        valp2: cell.value[v],
    }
}

} // verus!
