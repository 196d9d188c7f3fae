//! Voxel chunk storage and addressing.
//!
//! A [`Chunk`] owns the scalar field of one cubic region: a dense sequence
//! of samples (single-precision bit patterns), one per lattice point of a
//! cube with `size` points along each edge. The flat storage index of the
//! lattice point `(x, y, z)` is `z * size^2 + y * size + x`, which maps the
//! coordinate cube `[0, size)^3` one-to-one onto `[0, size^3)`.

use vstd::prelude::*;

use crate::coord::UVec3;
use crate::iters::Iter3d;

verus! {

use vstd::arithmetic::div_mod::{
    lemma_fundamental_div_mod_converse_div,
    lemma_fundamental_div_mod_converse_mod,
    lemma_div_denominator,
};

/// Failure of a bounds-checked chunk access.
#[derive(Clone, Copy, PartialEq, Eq, Structural, Debug)]
pub enum ChunkError {
    /// A coordinate component fell outside `[0, size)`.
    IndexOutOfRange,
}

/// Flat storage index of the lattice point `(x, y, z)` in a chunk of edge
/// length `size`.
pub open spec fn spec_index(size: int, x: int, y: int, z: int) -> int {
    z * size * size + y * size + x
}

/// Lattice coordinate stored at flat index `i` in a chunk of edge length
/// `size`: the inverse of [`spec_index`].
pub open spec fn spec_coords_of(size: int, i: int) -> (int, int, int) {
    (i % size, (i / size) % size, i / (size * size))
}

/// A cubic voxel chunk: the scalar field samples and the edge length in
/// lattice points.
#[derive(Clone)]
pub struct Chunk {
    /// One sample per lattice point, indexed by [`spec_index`].
    pub points: Vec<u32>,
    /// Edge length of the chunk in lattice points.
    pub size: usize,
    /// Whether a sample was overwritten since the flag was last polled.
    pub changed: bool,
}

impl Chunk {
    /// Well-formed chunk: at least two lattice points per edge, and one
    /// stored sample for every lattice point.
    pub open spec fn wf(self) -> bool {
        &&& self.size >= 2
        &&& self.points@.len() == self.size * self.size * self.size
    }

    /// The coordinate addresses a lattice point of this chunk.
    pub open spec fn in_bounds(self, pos: UVec3) -> bool {
        pos.x < self.size && pos.y < self.size && pos.z < self.size
    }

    /// The sample stored for the lattice point `pos`.
    pub open spec fn spec_get(self, pos: UVec3) -> u32
        recommends
            self.wf(),
            self.in_bounds(pos),
    {
        self.points@[spec_index(self.size as int, pos.x as int, pos.y as int, pos.z as int)]
    }

    /// A flat index built from in-range coordinates addresses a stored
    /// sample.
    pub proof fn lemma_index_in_range(size: int, x: int, y: int, z: int)
        requires
            0 < size,
            0 <= x < size,
            0 <= y < size,
            0 <= z < size,
        ensures
            0 <= spec_index(size, x, y, z) < size * size * size,
            z * size * size <= (size - 1) * size * size,
            y * size <= (size - 1) * size,
    {
        assert(0 <= z * size * size + y * size + x < size * size * size && z * size * size <= (size
            - 1) * size * size && y * size <= (size - 1) * size) by (nonlinear_arith)
            requires
                0 < size && 0 <= x < size && 0 <= y < size && 0 <= z < size,
        ;
    }

    /// Inverting the flat index recovers the coordinates: together with
    /// [`Chunk::lemma_index_of_coords`] this makes the addressing a
    /// bijection between `[0, size)^3` and `[0, size^3)`.
    pub proof fn lemma_coords_of_index(size: int, x: int, y: int, z: int)
        requires
            0 < size,
            0 <= x < size,
            0 <= y < size,
            0 <= z < size,
        ensures
            spec_coords_of(size, spec_index(size, x, y, z)) == (x, y, z),
    {
        let i = spec_index(size, x, y, z);
        assert(z * size * size + y * size + x == (z * size + y) * size + x) by (nonlinear_arith);
        lemma_fundamental_div_mod_converse_mod(i, size, z * size + y, x);
        lemma_fundamental_div_mod_converse_div(i, size, z * size + y, x);
        lemma_fundamental_div_mod_converse_mod(z * size + y, size, z, y);
        lemma_fundamental_div_mod_converse_div(z * size + y, size, z, y);
        Self::lemma_index_in_range(size, x, y, z);
        lemma_div_denominator(i, size, size);
    }

    /// Every flat index below `size^3` is the address of exactly the lattice
    /// point that [`spec_coords_of`] recovers from it.
    pub proof fn lemma_index_of_coords(size: int, i: int)
        requires
            0 < size,
            0 <= i < size * size * size,
        ensures
            ({
                let (x, y, z) = spec_coords_of(size, i);
                &&& 0 <= x < size
                &&& 0 <= y < size
                &&& 0 <= z < size
                &&& spec_index(size, x, y, z) == i
            }),
    {
        let x = i % size;
        let y = (i / size) % size;
        let z = i / (size * size);
        assert(0 <= x < size && 0 <= y < size) by (nonlinear_arith)
            requires
                0 < size && x == i % size && y == (i / size) % size,
        ;
        assert(i == (i / size) * size + i % size) by (nonlinear_arith)
            requires
                0 < size,
        ;
        assert(i / size == (i / size / size) * size + (i / size) % size) by (nonlinear_arith)
            requires
                0 < size,
        ;
        lemma_div_denominator(i, size, size);
        assert(z == i / size / size);
        assert(0 <= z < size) by (nonlinear_arith)
            requires
                0 < size && 0 <= i < size * size * size && z == i / (size * size),
        ;
        assert(spec_index(size, x, y, z) == (z * size + y) * size + x) by (nonlinear_arith);
        assert((z * size + y) * size + x == i) by (nonlinear_arith)
            requires
                i == (i / size) * size + x,
                i / size == z * size + y,
        ;
    }

    /// Distinct in-range coordinates never share a flat index.
    pub proof fn lemma_index_injective(size: int, x1: int, y1: int, z1: int, x2: int, y2: int, z2: int)
        requires
            0 < size,
            0 <= x1 < size,
            0 <= y1 < size,
            0 <= z1 < size,
            0 <= x2 < size,
            0 <= y2 < size,
            0 <= z2 < size,
            spec_index(size, x1, y1, z1) == spec_index(size, x2, y2, z2),
        ensures
            x1 == x2 && y1 == y2 && z1 == z2,
    {
        Self::lemma_coords_of_index(size, x1, y1, z1);
        Self::lemma_coords_of_index(size, x2, y2, z2);
    }

    /// Wraps an existing sample buffer as a chunk.
    pub fn new(points: Vec<u32>, size: usize) -> (r: Chunk)
        requires
            size >= 2,
            points@.len() == size * size * size,
        ensures
            r.points == points,
            r.size == size,
            r.changed == false,
            r.wf(),
    {
        Chunk { points, size, changed: false }
    }

    /// Builds a chunk of edge length `size` with an all-zero field (every
    /// sample the zero bit pattern).
    pub fn new_empty(size: usize) -> (r: Chunk)
        requires
            size >= 2,
            size * size * size <= usize::MAX,
        ensures
            r.size == size,
            r.changed == false,
            r.wf(),
            forall|i: int| 0 <= i < r.points@.len() ==> r.points@[i] == 0u32,
    {
        proof {
            assert(size * size <= size * size * size && size <= size * size) by (nonlinear_arith)
                requires
                    size >= 2,
            ;
        }
        let n: usize = size * size * size;
        let mut points: Vec<u32> = Vec::new();
        while points.len() < n
            invariant
                points@.len() <= n,
                forall|i: int| 0 <= i < points@.len() ==> points@[i] == 0u32,
            decreases n - points@.len(),
        {
            points.push(0u32);
        }
        Chunk { points, size, changed: false }
    }

    /// Flat storage index of the lattice point `pos`.
    pub fn index(&self, pos: UVec3) -> (r: usize)
        requires
            self.wf(),
            self.in_bounds(pos),
        ensures
            r == spec_index(self.size as int, pos.x as int, pos.y as int, pos.z as int),
            r < self.points@.len(),
    {
        let n: usize = self.points.len();
        proof {
            let s = self.size as int;
            assert(pos.z * s * s + pos.y * s + pos.x < s * s * s && pos.z * s <= (s - 1) * s
                && (pos.z * s) * s <= ((s - 1) * s) * s && (s - 1) * s <= s * s && ((s - 1) * s) * s
                <= (s * s) * s && pos.y * s <= (s - 1) * s && s * s * s == (s * s) * s && s * s
                <= s * s * s)
                by (nonlinear_arith)
                requires
                    2 <= s && pos.x < s && pos.y < s && pos.z < s,
            ;
            assert(n == s * s * s);
        }
        (pos.z as usize) * self.size * self.size + (pos.y as usize) * self.size + (pos.x as usize)
    }

    /// Reads the sample at a lattice point already known to be in range.
    pub fn sample(&self, pos: UVec3) -> (r: u32)
        requires
            self.wf(),
            self.in_bounds(pos),
        ensures
            r == self.spec_get(pos),
    {
        let i = self.index(pos);
        self.points[i]
    }

    /// Reads the sample at `pos`, or reports `IndexOutOfRange` when any
    /// component of `pos` is outside `[0, size)`.
    pub fn get(&self, pos: UVec3) -> (r: Result<u32, ChunkError>)
        requires
            self.wf(),
        ensures
            self.in_bounds(pos) ==> r == Ok::<u32, ChunkError>(self.spec_get(pos)),
            !self.in_bounds(pos) ==> r == Err::<u32, ChunkError>(ChunkError::IndexOutOfRange),
    {
        if (pos.x as usize) < self.size && (pos.y as usize) < self.size && (pos.z as usize)
            < self.size {
            let i = self.index(pos);
            Ok(self.points[i])
        } else {
            Err(ChunkError::IndexOutOfRange)
        }
    }

    /// Overwrites the sample at `pos` and marks the chunk as changed, or
    /// reports `IndexOutOfRange`, leaving the chunk untouched, when any
    /// component of `pos` is outside `[0, size)`.
    pub fn set(&mut self, pos: UVec3, value: u32) -> (r: Result<(), ChunkError>)
        requires
            old(self).wf(),
        ensures
            final(self).wf(),
            final(self).size == old(self).size,
            old(self).in_bounds(pos) ==> {
                &&& r == Ok::<(), ChunkError>(())
                &&& final(self).points@ == old(self).points@.update(
                    spec_index(old(self).size as int, pos.x as int, pos.y as int, pos.z as int),
                    value,
                )
                &&& final(self).changed == true
            },
            !old(self).in_bounds(pos) ==> r == Err::<(), ChunkError>(ChunkError::IndexOutOfRange)
                && *final(self) == *old(self),
    {
        if (pos.x as usize) < self.size && (pos.y as usize) < self.size && (pos.z as usize)
            < self.size {
            let i = self.index(pos);
            self.points.set(i, value);
            self.changed = true;
            Ok(())
        } else {
            Err(ChunkError::IndexOutOfRange)
        }
    }

    /// Reports whether a sample was overwritten since the last poll, and
    /// clears the flag.
    pub fn poll_changed(&mut self) -> (r: bool)
        ensures
            r == old(self).changed,
            final(self).changed == false,
            final(self).points == old(self).points,
            final(self).size == old(self).size,
    {
        let r = self.changed;
        self.changed = false;
        r
    }

    /// Iterator over every lattice point of a chunk with `size` points per
    /// edge: the inclusive box from `(0,0,0)` to `(size-1, size-1, size-1)`.
    pub fn new_iter_3d(size: u32) -> (r: Iter3d)
        requires
            size >= 1,
        ensures
            r.min == (UVec3 { x: 0u32, y: 0u32, z: 0u32 }),
            r.max == (UVec3 { x: (size - 1) as u32, y: (size - 1) as u32, z: (size - 1) as u32 }),
            r.wf(),
            r.pos() == 0,
    {
        let m: u32 = size - 1;
        Iter3d::new(UVec3::new(0, 0, 0), UVec3::new(m, m, m))
    }

    /// After `set(pos, v)` succeeds, `get(pos)` reads back exactly `v`, and
    /// every other lattice point still holds its previous sample.
    pub proof fn lemma_set_then_get(pre: Chunk, post: Chunk, pos: UVec3, v: u32)
        requires
            pre.wf(),
            pre.in_bounds(pos),
            post.size == pre.size,
            post.points@ == pre.points@.update(
                spec_index(pre.size as int, pos.x as int, pos.y as int, pos.z as int),
                v,
            ),
        ensures
            post.spec_get(pos) == v,
            forall|q: UVec3|
                pre.in_bounds(q) && q != pos ==> post.spec_get(q) == pre.spec_get(q),
    {
        let size = pre.size as int;
        Self::lemma_index_in_range(size, pos.x as int, pos.y as int, pos.z as int);
        assert forall|q: UVec3| pre.in_bounds(q) && q != pos implies post.spec_get(q)
            == pre.spec_get(q) by {
            Self::lemma_index_in_range(size, q.x as int, q.y as int, q.z as int);
            if spec_index(size, q.x as int, q.y as int, q.z as int) == spec_index(
                size,
                pos.x as int,
                pos.y as int,
                pos.z as int,
            ) {
                Self::lemma_index_injective(
                    size,
                    q.x as int,
                    q.y as int,
                    q.z as int,
                    pos.x as int,
                    pos.y as int,
                    pos.z as int,
                );
            }
        }
    }
}

} // verus!
