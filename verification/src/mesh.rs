//! Triangle accumulation and indexed-mesh assembly.
//!
//! A [`ChunkMesh`] is the triangle soup that a full chunk sweep produces:
//! one entry per triangle, each vertex a coordinate triple of
//! single-precision bit patterns. [`build_indexed`] converts the soup into
//! an indexed mesh for flat shading: every triangle vertex is paired with
//! its triangle's face normal, and a vertex is shared exactly when an
//! earlier `(position, normal)` pair equals it under the encoded-value
//! equality of [`crate::scalar::sc_eq`]. Vertices of coplanar neighbouring
//! faces therefore collapse to one entry while vertices on creases stay
//! duplicated, which preserves per-face lighting with the smallest vertex
//! count.
//!
//! Face normals are a numeric function of the triangle's corner values, so
//! the caller computes them with its floating-point kernel and passes one
//! normal per triangle; everything else about the assembly is pinned down
//! here.

use vstd::prelude::*;

use crate::scalar::{sc_eq, scalar_eq};

verus! {

/// A 3D vector whose components are single-precision bit patterns.
#[derive(Clone, Copy, PartialEq, Eq, Structural, Debug)]
pub struct Vec3Bits {
    /// Bit pattern of the x component.
    pub x: u32,
    /// Bit pattern of the y component.
    pub y: u32,
    /// Bit pattern of the z component.
    pub z: u32,
}

/// A texture coordinate pair of single-precision bit patterns.
#[derive(Clone, Copy, PartialEq, Eq, Structural, Debug)]
pub struct UvBits {
    /// Bit pattern of the u component.
    pub u: u32,
    /// Bit pattern of the v component.
    pub v: u32,
}

/// One triangle of the accumulated soup.
#[derive(Clone, Copy, PartialEq, Eq, Structural, Debug)]
pub struct Triangle {
    /// First corner.
    pub a: Vec3Bits,
    /// Second corner.
    pub b: Vec3Bits,
    /// Third corner.
    pub c: Vec3Bits,
}

/// The encoded values of two vectors are equal component by component.
pub open spec fn spec_vec3_eq(a: Vec3Bits, b: Vec3Bits) -> bool {
    sc_eq(a.x, b.x) && sc_eq(a.y, b.y) && sc_eq(a.z, b.z)
}

/// Compares two vectors under the encoded-value equality.
pub fn vec3_eq(a: Vec3Bits, b: Vec3Bits) -> (r: bool)
    ensures
        r == spec_vec3_eq(a, b),
{
    scalar_eq(a.x, b.x) && scalar_eq(a.y, b.y) && scalar_eq(a.z, b.z)
}

/// The ordered triangle soup accumulated by a chunk sweep, cleared at the
/// start of every sweep.
#[derive(Clone, Default)]
pub struct ChunkMesh {
    /// The accumulated triangles, in emission order.
    pub triangles: Vec<Triangle>,
}

impl ChunkMesh {
    /// Builds an empty accumulation buffer.
    pub fn new() -> (r: ChunkMesh)
        ensures
            r.triangles@ == Seq::<Triangle>::empty(),
    {
        let r = ChunkMesh { triangles: Vec::new() };
        proof {
            assert(r.triangles@ =~= Seq::<Triangle>::empty());
        }
        r
    }

    /// Empties the accumulation buffer.
    pub fn clear(&mut self)
        ensures
            final(self).triangles@ == Seq::<Triangle>::empty(),
    {
        self.triangles = Vec::new();
        proof {
            assert(self.triangles@ =~= Seq::<Triangle>::empty());
        }
    }
}

/// The indexed triangle mesh that a sweep hands to rendering: parallel
/// position, normal and texture-coordinate arrays, and a triangle index
/// list.
pub struct IndexedMesh {
    /// Deduplicated vertex positions.
    pub positions: Vec<Vec3Bits>,
    /// Face normal stored with each position.
    pub normals: Vec<Vec3Bits>,
    /// Placeholder texture coordinates, all zero.
    pub uvs: Vec<UvBits>,
    /// Three vertex indices per triangle, in emission order.
    pub indices: Vec<u32>,
}

/// First entry of `pairs` equal to `(v, n)` under the encoded-value
/// equality, scanning from position `i`.
pub open spec fn spec_find_pair_from(
    pairs: Seq<(Vec3Bits, Vec3Bits)>,
    v: Vec3Bits,
    n: Vec3Bits,
    i: int,
) -> Option<int>
    decreases pairs.len() - i,
{
    if i < 0 || i >= pairs.len() {
        None
    } else if spec_vec3_eq(pairs[i].0, v) && spec_vec3_eq(pairs[i].1, n) {
        Some(i)
    } else {
        spec_find_pair_from(pairs, v, n, i + 1)
    }
}

/// First entry of `pairs` equal to `(v, n)` under the encoded-value
/// equality.
pub open spec fn spec_find_pair(
    pairs: Seq<(Vec3Bits, Vec3Bits)>,
    v: Vec3Bits,
    n: Vec3Bits,
) -> Option<int> {
    spec_find_pair_from(pairs, v, n, 0)
}

/// One deduplication step: reuse the index of the first matching
/// `(position, normal)` pair, or append the pair and use its new index.
pub open spec fn spec_dedup_step(
    st: (Seq<(Vec3Bits, Vec3Bits)>, Seq<u32>),
    v: Vec3Bits,
    n: Vec3Bits,
) -> (Seq<(Vec3Bits, Vec3Bits)>, Seq<u32>) {
    match spec_find_pair(st.0, v, n) {
        Some(i) => (st.0, st.1.push(i as u32)),
        None => (st.0.push((v, n)), st.1.push(st.0.len() as u32)),
    }
}

/// Deduplication state after the first `t` triangles: each triangle
/// contributes its three corners in order, every corner paired with the
/// triangle's face normal.
pub open spec fn spec_build_tris(
    tris: Seq<Triangle>,
    normals: Seq<Vec3Bits>,
    t: int,
) -> (Seq<(Vec3Bits, Vec3Bits)>, Seq<u32>)
    decreases t,
{
    if t <= 0 {
        (Seq::empty(), Seq::empty())
    } else {
        let st = spec_build_tris(tris, normals, t - 1);
        let tri = tris[t - 1];
        let n = normals[t - 1];
        spec_dedup_step(spec_dedup_step(spec_dedup_step(st, tri.a, n), tri.b, n), tri.c, n)
    }
}

/// `r` is the indexed mesh that deduplication builds from the soup `tris`
/// with face normals `normals`.
pub open spec fn spec_built(
    tris: Seq<Triangle>,
    normals: Seq<Vec3Bits>,
    r: IndexedMesh,
) -> bool {
    let (pairs, ix) = spec_build_tris(tris, normals, tris.len() as int);
    &&& r.indices@ == ix
    &&& r.positions@.len() == pairs.len()
    &&& r.normals@.len() == pairs.len()
    &&& r.uvs@.len() == pairs.len()
    &&& forall|i: int|
        0 <= i < pairs.len() ==> r.positions@[i] == pairs[i].0 && r.normals@[i] == pairs[i].1
    &&& forall|i: int| 0 <= i < pairs.len() ==> r.uvs@[i] == (UvBits { u: 0u32, v: 0u32 })
}

/// Appends one vertex to the deduplication state: the index of the first
/// matching `(position, normal)` pair, or a fresh pair.
fn dedup_push(
    pairs: &mut Vec<(Vec3Bits, Vec3Bits)>,
    indices: &mut Vec<u32>,
    v: Vec3Bits,
    n: Vec3Bits,
)
    requires
        old(pairs)@.len() < u32::MAX,
    ensures
        (final(pairs)@, final(indices)@) == spec_dedup_step(
            (old(pairs)@, old(indices)@),
            v,
            n,
        ),
        final(pairs)@.len() <= old(pairs)@.len() + 1,
        old(pairs)@.is_prefix_of(final(pairs)@),
        final(indices)@ == old(indices)@.push(final(indices)@.last()),
        final(indices)@.last() < final(pairs)@.len(),
{
    let len: usize = pairs.len();
    let mut j: usize = 0;
    loop
        invariant
            j <= len,
            len == pairs@.len(),
            pairs@.len() < u32::MAX,
            spec_find_pair(pairs@, v, n) == spec_find_pair_from(pairs@, v, n, j as int),
        ensures
            match spec_find_pair(pairs@, v, n) {
                Some(i) => j < len && i == j && spec_vec3_eq(pairs@[j as int].0, v)
                    && spec_vec3_eq(pairs@[j as int].1, n),
                None => j == len,
            },
            len == pairs@.len(),
        decreases len - j,
    {
        if j >= len {
            break;
        }
        let (pv, pn) = pairs[j];
        if vec3_eq(pv, v) && vec3_eq(pn, n) {
            break;
        }
        j = j + 1;
    }
    if j < len {
        indices.push(j as u32);
    } else {
        pairs.push((v, n));
        indices.push(len as u32);
    }
}

/// Converts the accumulated triangle soup into an indexed mesh, reusing a
/// vertex exactly when an earlier vertex has an equal `(position, normal)`
/// pair. `normals` holds one face normal per triangle of the soup.
pub fn build_indexed(mesh: &ChunkMesh, normals: &Vec<Vec3Bits>) -> (r: IndexedMesh)
    requires
        normals@.len() == mesh.triangles@.len(),
        3 * mesh.triangles@.len() < u32::MAX,
    ensures
        spec_built(mesh.triangles@, normals@, r),
        r.indices@.len() == 3 * mesh.triangles@.len(),
        r.positions@.len() == r.normals@.len(),
        r.positions@.len() == r.uvs@.len(),
        forall|i: int| 0 <= i < r.indices@.len() ==> r.indices@[i] < r.positions@.len(),
{
    let n_tris: usize = mesh.triangles.len();
    let mut pairs: Vec<(Vec3Bits, Vec3Bits)> = Vec::new();
    let mut indices: Vec<u32> = Vec::new();
    let mut t: usize = 0;
    while t < n_tris
        invariant
            t <= n_tris,
            n_tris == mesh.triangles@.len(),
            normals@.len() == mesh.triangles@.len(),
            3 * mesh.triangles@.len() < u32::MAX,
            pairs@.len() <= 3 * t,
            indices@.len() == 3 * t,
            (pairs@, indices@) == spec_build_tris(mesh.triangles@, normals@, t as int),
            forall|i: int| 0 <= i < indices@.len() ==> indices@[i] < pairs@.len(),
        decreases n_tris - t,
    {
        let tri = mesh.triangles[t];
        let nrm = normals[t];
        dedup_push(&mut pairs, &mut indices, tri.a, nrm);
        dedup_push(&mut pairs, &mut indices, tri.b, nrm);
        dedup_push(&mut pairs, &mut indices, tri.c, nrm);
        t = t + 1;
    }
    let mut positions: Vec<Vec3Bits> = Vec::new();
    let mut normals_out: Vec<Vec3Bits> = Vec::new();
    let mut uvs: Vec<UvBits> = Vec::new();
    let n_pairs: usize = pairs.len();
    let mut i: usize = 0;
    while i < n_pairs
        invariant
            i <= n_pairs,
            n_pairs == pairs@.len(),
            positions@.len() == i,
            normals_out@.len() == i,
            uvs@.len() == i,
            forall|q: int|
                0 <= q < i ==> positions@[q] == pairs@[q].0 && normals_out@[q] == pairs@[q].1,
            forall|q: int| 0 <= q < i ==> uvs@[q] == (UvBits { u: 0u32, v: 0u32 }),
        decreases n_pairs - i,
    {
        let (pv, pn) = pairs[i];
        positions.push(pv);
        normals_out.push(pn);
        uvs.push(UvBits { u: 0, v: 0 });
        i = i + 1;
    }
    IndexedMesh { positions, normals: normals_out, uvs, indices }
}

/// The deduplication result is a function of the soup and the face normals
/// alone: building the same triangle list twice yields identical index,
/// position, normal and texture-coordinate arrays.
pub proof fn lemma_build_deterministic(
    tris: Seq<Triangle>,
    normals: Seq<Vec3Bits>,
    r1: IndexedMesh,
    r2: IndexedMesh,
)
    requires
        spec_built(tris, normals, r1),
        spec_built(tris, normals, r2),
    ensures
        r1.positions@ == r2.positions@,
        r1.normals@ == r2.normals@,
        r1.uvs@ == r2.uvs@,
        r1.indices@ == r2.indices@,
{
    let (pairs, ix) = spec_build_tris(tris, normals, tris.len() as int);
    assert(r1.positions@ =~= r2.positions@);
    assert(r1.normals@ =~= r2.normals@);
    assert(r1.uvs@ =~= r2.uvs@);
}

} // verus!
