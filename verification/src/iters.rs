//! Linear iterator across a 3D coordinate space.
//!
//! [`Iter3d`] walks an axis-aligned inclusive box of lattice coordinates in
//! row-major order: x varies fastest, then y, then z varies slowest. The
//! iterator is restartable through [`Iter3d::reset`] and its behaviour is
//! pinned down by an enumeration index: after `k` calls that produced a
//! coordinate, the iterator stands at position `k`, and the coordinate it
//! produces next is [`Iter3d::coord_at`]`(k)`.

use vstd::prelude::*;

use crate::coord::UVec3;

verus! {

use vstd::arithmetic::div_mod::{
    lemma_fundamental_div_mod_converse_div,
    lemma_fundamental_div_mod_converse_mod,
    lemma_div_denominator,
    lemma_div_pos_is_pos,
    lemma_mod_division_less_than_divisor,
};

/// Linear iterator across a 3D coordinate space, inclusive of its minimum
/// and maximum coordinates.
#[derive(Clone, Copy)]
pub struct Iter3d {
    /// The next coordinate to produce, or the resting coordinate
    /// `(min.x, min.y, max.z + 1)` once the box is exhausted.
    pub track: UVec3,
    /// Smallest corner of the box, inclusive.
    pub min: UVec3,
    /// Largest corner of the box, inclusive.
    pub max: UVec3,
}

impl Iter3d {
    /// Number of distinct x coordinates in the box.
    pub open spec fn nx(self) -> int {
        self.max.x - self.min.x + 1
    }

    /// Number of distinct y coordinates in the box.
    pub open spec fn ny(self) -> int {
        self.max.y - self.min.y + 1
    }

    /// Number of distinct z coordinates in the box.
    pub open spec fn nz(self) -> int {
        self.max.z - self.min.z + 1
    }

    /// Number of coordinates the iterator produces in a full walk.
    pub open spec fn total(self) -> int {
        self.nz() * self.ny() * self.nx()
    }

    /// The bounds describe a non-empty box whose successor states stay
    /// within the coordinate type.
    pub open spec fn wf_bounds(self) -> bool {
        &&& self.min.x <= self.max.x
        &&& self.min.y <= self.max.y
        &&& self.min.z <= self.max.z
        &&& self.max.y < u32::MAX
        &&& self.max.z < u32::MAX
    }

    /// The tracked coordinate lies inside the box.
    pub open spec fn in_box(self) -> bool {
        &&& self.min.x <= self.track.x <= self.max.x
        &&& self.min.y <= self.track.y <= self.max.y
        &&& self.min.z <= self.track.z <= self.max.z
    }

    /// The tracked coordinate is the resting state reached after the walk
    /// has produced every coordinate of the box.
    pub open spec fn at_rest(self) -> bool {
        &&& self.track.x == self.min.x
        &&& self.track.y == self.min.y
        &&& self.track.z == self.max.z + 1
    }

    /// Well-formed iterator state: sound bounds, and a tracked coordinate
    /// that is either inside the box or at rest.
    pub open spec fn wf(self) -> bool {
        self.wf_bounds() && (self.in_box() || self.at_rest())
    }

    /// Enumeration index of the box coordinate `c`: how many coordinates a
    /// row-major walk produces before it.
    pub open spec fn index_of(self, c: UVec3) -> int
        recommends
            self.wf_bounds(),
    {
        ((c.z - self.min.z) * self.ny() + (c.y - self.min.y)) * self.nx() + (c.x - self.min.x)
    }

    /// Enumeration index of the tracked coordinate: how many coordinates a
    /// walk from `min` has already produced when it stands here.
    pub open spec fn pos(self) -> int {
        if self.in_box() {
            self.index_of(self.track)
        } else {
            self.total()
        }
    }

    /// The coordinate produced at enumeration index `k` of a full walk:
    /// row-major order, x fastest, z slowest.
    pub open spec fn coord_at(self, k: int) -> UVec3
        recommends
            0 <= k < self.total(),
    {
        UVec3 {
            x: (self.min.x + k % self.nx()) as u32,
            y: (self.min.y + (k / self.nx()) % self.ny()) as u32,
            z: (self.min.z + k / (self.ny() * self.nx())) as u32,
        }
    }

    /// A coordinate inside the box has an enumeration index below the walk's
    /// total length.
    pub proof fn lemma_pos_in_range(self)
        requires
            self.wf(),
        ensures
            0 <= self.pos() <= self.total(),
            self.in_box() <==> self.pos() < self.total(),
    {
        if self.in_box() {
            let tx = self.track.x - self.min.x;
            let ty = self.track.y - self.min.y;
            let tz = self.track.z - self.min.z;
            assert(0 <= tx < self.nx() && 0 <= ty < self.ny() && 0 <= tz < self.nz());
            assert((tz * self.ny() + ty) * self.nx() + tx < self.nz() * self.ny() * self.nx())
                by (nonlinear_arith)
                requires
                    0 <= tx < self.nx() && 0 <= ty < self.ny() && 0 <= tz < self.nz(),
            ;
            assert((tz * self.ny() + ty) * self.nx() + tx >= 0) by (nonlinear_arith)
                requires
                    0 <= tx && 0 <= ty && 0 <= tz && 0 < self.nx() && 0 < self.ny(),
            ;
        }
    }

    /// The enumeration index of a box coordinate is in range, and the
    /// enumeration returns that coordinate at it.
    pub proof fn lemma_coord_at_of_index_of(self, c: UVec3)
        requires
            self.wf_bounds(),
            self.min.x <= c.x <= self.max.x,
            self.min.y <= c.y <= self.max.y,
            self.min.z <= c.z <= self.max.z,
        ensures
            0 <= self.index_of(c) < self.total(),
            self.coord_at(self.index_of(c)) == c,
    {
        let nx = self.nx();
        let ny = self.ny();
        let nz = self.nz();
        let tx = c.x - self.min.x;
        let ty = c.y - self.min.y;
        let tz = c.z - self.min.z;
        let k = self.index_of(c);
        assert(0 <= k < nz * ny * nx) by (nonlinear_arith)
            requires
                0 <= tx < nx && 0 <= ty < ny && 0 <= tz < nz && k == (tz * ny + ty) * nx + tx,
        ;
        assert(k == (tz * ny + ty) * nx + tx);
        lemma_fundamental_div_mod_converse_mod(k, nx, tz * ny + ty, tx);
        lemma_fundamental_div_mod_converse_div(k, nx, tz * ny + ty, tx);
        assert(k % nx == tx);
        assert(k / nx == tz * ny + ty);
        lemma_fundamental_div_mod_converse_mod(tz * ny + ty, ny, tz, ty);
        lemma_fundamental_div_mod_converse_div(tz * ny + ty, ny, tz, ty);
        assert((k / nx) % ny == ty);
        lemma_div_denominator(k, nx, ny);
        assert(k / (nx * ny) == tz);
        assert(nx * ny == ny * nx) by (nonlinear_arith);
    }

    /// While the walk is inside the box, the tracked coordinate is exactly
    /// the one the enumeration index denotes.
    pub proof fn lemma_track_is_coord_at_pos(self)
        requires
            self.wf(),
            self.in_box(),
        ensures
            self.coord_at(self.pos()) == self.track,
    {
        self.lemma_coord_at_of_index_of(self.track);
    }

    /// Inverting the enumeration recovers the index: together with
    /// [`Iter3d::lemma_coord_at_of_index_of`] this makes the enumeration a
    /// bijection between `[0, total)` and the box.
    pub proof fn lemma_index_of_coord_at(self, k: int)
        requires
            self.wf_bounds(),
            0 <= k < self.total(),
        ensures
            self.index_of(self.coord_at(k)) == k,
    {
        let nx = self.nx();
        let ny = self.ny();
        let nz = self.nz();
        lemma_mod_division_less_than_divisor(k, nx);
        lemma_mod_division_less_than_divisor(k / nx, ny);
        lemma_div_pos_is_pos(k, nx);
        assert(0 <= k / (ny * nx) < nz) by (nonlinear_arith)
            requires
                0 < nx && 0 < ny && 0 < nz && 0 <= k < nz * ny * nx,
        ;
        assert(self.min.x + k % nx <= self.max.x);
        assert(self.min.y + (k / nx) % ny <= self.max.y);
        assert(self.min.z + k / (ny * nx) <= self.max.z);
        assert(self.index_of(self.coord_at(k)) == ((k / (ny * nx)) * ny + (k / nx) % ny) * nx + k
            % nx);
        lemma_div_denominator(k, nx, ny);
        assert(nx * ny == ny * nx) by (nonlinear_arith);
        assert(k / nx == ny * (k / nx / ny) + (k / nx) % ny) by {
            vstd::arithmetic::div_mod::lemma_fundamental_div_mod(k / nx, ny);
        }
        assert(k == nx * (k / nx) + k % nx) by {
            vstd::arithmetic::div_mod::lemma_fundamental_div_mod(k, nx);
        }
        assert(((k / nx / ny) * ny + (k / nx) % ny) * nx + k % nx == (ny * (k / nx / ny) + (k / nx)
            % ny) * nx + k % nx) by (nonlinear_arith);
        assert((k / nx) * nx + k % nx == nx * (k / nx) + k % nx) by (nonlinear_arith);
    }

    /// A full walk produces every coordinate of the box exactly once:
    /// distinct enumeration indices denote distinct coordinates, and every
    /// box coordinate is denoted by some index.
    pub proof fn lemma_enumeration_bijective(self)
        requires
            self.wf_bounds(),
        ensures
            forall|k1: int, k2: int|
                0 <= k1 < self.total() && 0 <= k2 < self.total() && k1 != k2
                    ==> self.coord_at(k1) != self.coord_at(k2),
            forall|c: UVec3|
                self.min.x <= c.x <= self.max.x && self.min.y <= c.y <= self.max.y && self.min.z
                    <= c.z <= self.max.z ==> 0 <= #[trigger] self.index_of(c) < self.total()
                    && self.coord_at(self.index_of(c)) == c,
    {
        assert forall|k1: int, k2: int|
            0 <= k1 < self.total() && 0 <= k2 < self.total() && k1 != k2 implies self.coord_at(k1)
            != self.coord_at(k2) by {
            self.lemma_index_of_coord_at(k1);
            self.lemma_index_of_coord_at(k2);
        }
        assert forall|c: UVec3|
            self.min.x <= c.x <= self.max.x && self.min.y <= c.y <= self.max.y && self.min.z <= c.z
                <= self.max.z implies 0 <= #[trigger] self.index_of(c) < self.total()
            && self.coord_at(self.index_of(c)) == c by {
            self.lemma_coord_at_of_index_of(c);
        }
    }

    /// Every coordinate the enumeration denotes lies inside the box.
    pub proof fn lemma_coord_at_in_box(self, k: int)
        requires
            self.wf_bounds(),
            0 <= k < self.total(),
        ensures
            self.min.x <= self.coord_at(k).x <= self.max.x,
            self.min.y <= self.coord_at(k).y <= self.max.y,
            self.min.z <= self.coord_at(k).z <= self.max.z,
    {
        let nx = self.nx();
        let ny = self.ny();
        let nz = self.nz();
        lemma_mod_division_less_than_divisor(k, nx);
        lemma_mod_division_less_than_divisor(k / nx, ny);
        lemma_div_pos_is_pos(k, nx);
        assert(0 <= k / (ny * nx) < nz) by (nonlinear_arith)
            requires
                0 < nx && 0 < ny && 0 < nz && 0 <= k < nz * ny * nx,
        ;
    }

    /// Builds an iterator over the inclusive box `[min, max]`, standing at
    /// its first coordinate.
    pub fn new(min: UVec3, max: UVec3) -> (r: Iter3d)
        requires
            min.x <= max.x,
            min.y <= max.y,
            min.z <= max.z,
            max.y < u32::MAX,
            max.z < u32::MAX,
        ensures
            r.min == min,
            r.max == max,
            r.track == min,
            r.wf(),
            r.pos() == 0,
    {
        let r = Iter3d { track: min, min, max };
        proof {
            assert(r.pos() == 0) by (nonlinear_arith)
                requires
                    r.in_box(),
                    r.track == r.min,
                    r.pos() == ((r.track.z - r.min.z) * r.ny() + (r.track.y - r.min.y)) * r.nx()
                        + (r.track.x - r.min.x),
            ;
        }
        r
    }

    /// Restarts the walk at the smallest corner of the box.
    pub fn reset(&mut self)
        requires
            old(self).wf_bounds(),
        ensures
            final(self).min == old(self).min,
            final(self).max == old(self).max,
            final(self).track == old(self).min,
            final(self).wf(),
            final(self).pos() == 0,
    {
        self.track = self.min;
        proof {
            assert(self.pos() == 0) by (nonlinear_arith)
                requires
                    self.in_box(),
                    self.track == self.min,
                    self.pos() == ((self.track.z - self.min.z) * self.ny() + (self.track.y
                        - self.min.y)) * self.nx() + (self.track.x - self.min.x),
            ;
        }
    }

    /// Produces the next coordinate of the walk, or nothing once the box is
    /// exhausted. Producing the coordinate advances the enumeration index by
    /// one; an exhausted iterator is left unchanged.
    pub fn next(&mut self) -> (r: Option<UVec3>)
        requires
            old(self).wf(),
        ensures
            final(self).wf(),
            final(self).min == old(self).min,
            final(self).max == old(self).max,
            old(self).pos() == old(self).total() ==> r == None::<UVec3> && *final(self) == *old(
                self,
            ),
            old(self).pos() < old(self).total() ==> {
                &&& r == Some(old(self).coord_at(old(self).pos()))
                &&& final(self).pos() == old(self).pos() + 1
            },
    {
        proof {
            old(self).lemma_pos_in_range();
        }
        let ret = self.track;

        if self.track.z > self.max.z {
            return None;
        }

        proof {
            assert(old(self).in_box());
            old(self).lemma_track_is_coord_at_pos();
        }

        if self.track.x >= self.max.x {
            self.track.y = self.track.y + 1;
            self.track.x = self.min.x;
        } else {
            self.track.x = self.track.x + 1;
            proof {
                Self::lemma_pos_step(*old(self), *self);
            }
            return Some(ret);
        }

        if self.track.y > self.max.y {
            self.track.z = self.track.z + 1;
            self.track.y = self.min.y;
        }

        proof {
            Self::lemma_pos_step(*old(self), *self);
        }
        Some(ret)
    }

    /// One advance of the tracked coordinate raises the enumeration index by
    /// one, for each of the three carry shapes of the row-major successor.
    proof fn lemma_pos_step(pre: Iter3d, post: Iter3d)
        requires
            pre.wf(),
            pre.in_box(),
            post.min == pre.min,
            post.max == pre.max,
            if pre.track.x < pre.max.x {
                post.track == (UVec3 { x: (pre.track.x + 1) as u32, ..pre.track })
            } else if pre.track.y < pre.max.y {
                post.track == (UVec3 { x: pre.min.x, y: (pre.track.y + 1) as u32, ..pre.track })
            } else {
                post.track == (UVec3 { x: pre.min.x, y: pre.min.y, z: (pre.track.z + 1) as u32 })
            },
        ensures
            post.wf(),
            post.pos() == pre.pos() + 1,
    {
        let nx = pre.nx();
        let ny = pre.ny();
        let nz = pre.nz();
        let tx = pre.track.x - pre.min.x;
        let ty = pre.track.y - pre.min.y;
        let tz = pre.track.z - pre.min.z;
        if pre.track.x < pre.max.x {
            assert(post.pos() == pre.pos() + 1);
        } else if pre.track.y < pre.max.y {
            assert(tx == nx - 1);
            assert(((tz * ny + ty + 1) * nx) == (tz * ny + ty) * nx + nx) by (nonlinear_arith);
        } else if pre.track.z < pre.max.z {
            assert(tx == nx - 1 && ty == ny - 1);
            assert(((tz + 1) * ny) * nx == (tz * ny + ny - 1) * nx + nx) by (nonlinear_arith);
        } else {
            assert(tx == nx - 1 && ty == ny - 1 && tz == nz - 1);
            assert(post.at_rest());
            assert(!post.in_box());
            assert(nz * ny * nx == ((nz - 1) * ny + ny - 1) * nx + nx) by (nonlinear_arith);
        }
    }
}

} // verus!
