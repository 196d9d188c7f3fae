//! Full-chunk sweep.
//!
//! A sweep walks every interior cell of a chunk in the row-major order of
//! [`Iter3d`], marches each cell against the isolevel, and accumulates the
//! resulting triangle spans. [`SweepRun`] is the sweep lifecycle:
//! [`SweepRun::begin`] is the remesh trigger (the iterator starts at the
//! first cell and the accumulation buffer is empty), and each
//! [`SweepRun::step`] call evaluates one cell, so a driver may either run
//! the sweep eagerly or pace it one cell per external tick; both leave the
//! same accumulated spans, stated by the one [`spec_sweep`] both are held
//! to. [`sweep_chunk`] is the eager form.

use vstd::prelude::*;

use crate::chunk::Chunk;
use crate::coord::UVec3;
use crate::iters::Iter3d;
use crate::march::{
    GridCell, TriSpan, lemma_uniform_cell_marches_empty, march_cube, spec_corner_pos,
    spec_march_cube,
};
use crate::scalar::sc_lt;

verus! {

/// The inclusive box of cell origins of `chunk`, at its starting position:
/// a cell needs its `+1` neighbour on every axis, so origins run from
/// `(0,0,0)` to `(size-2, size-2, size-2)`.
pub open spec fn spec_cell_box(chunk: Chunk) -> Iter3d
    recommends
        chunk.wf(),
        chunk.size <= u32::MAX,
{
    Iter3d {
        track: UVec3 { x: 0u32, y: 0u32, z: 0u32 },
        min: UVec3 { x: 0u32, y: 0u32, z: 0u32 },
        max: UVec3 {
            x: (chunk.size - 2) as u32,
            y: (chunk.size - 2) as u32,
            z: (chunk.size - 2) as u32,
        },
    }
}

/// Number of cells a full sweep of `chunk` evaluates: `(size - 1)^3`.
pub open spec fn spec_cell_count(chunk: Chunk) -> int {
    spec_cell_box(chunk).total()
}

/// The 8 corner coordinates of the cell at origin `pos`, in table corner
/// order.
pub open spec fn spec_cell_positions(pos: UVec3) -> Seq<UVec3> {
    Seq::new(8, |i: int| spec_corner_pos(pos, i))
}

/// The 8 samples of `chunk` at the corners of the cell at origin `pos`.
pub open spec fn spec_cell_values(chunk: Chunk, pos: UVec3) -> Seq<u32> {
    Seq::new(8, |i: int| chunk.spec_get(spec_corner_pos(pos, i)))
}

/// Triangle spans that the cell at origin `pos` contributes to a sweep of
/// `chunk` at `isolevel`: the marched triangles, or nothing for a cell
/// entirely on one side of the surface.
pub open spec fn spec_march_at(chunk: Chunk, isolevel: u32, pos: UVec3) -> Seq<TriSpan> {
    match spec_march_cube(spec_cell_positions(pos), spec_cell_values(chunk, pos), isolevel) {
        None => Seq::empty(),
        Some(s) => s,
    }
}

/// Spans accumulated after the first `k` cells of a sweep of `chunk` at
/// `isolevel`, in cell order.
pub open spec fn spec_sweep(chunk: Chunk, isolevel: u32, k: int) -> Seq<TriSpan>
    decreases k,
{
    if k <= 0 {
        Seq::empty()
    } else {
        spec_sweep(chunk, isolevel, k - 1) + spec_march_at(
            chunk,
            isolevel,
            spec_cell_box(chunk).coord_at(k - 1),
        )
    }
}

/// One sweep in progress: the cell iterator and the spans accumulated so
/// far. Between steps the run rests; a driver that performs one step per
/// external tick paces the same sweep that [`sweep_chunk`] runs eagerly.
pub struct SweepRun {
    /// The isolevel the sweep was triggered with.
    pub isolevel: u32,
    /// Walks the chunk's cell origins; its position counts the cells
    /// already evaluated.
    pub iter: Iter3d,
    /// Triangle spans of the cells evaluated so far.
    pub spans: Vec<TriSpan>,
}

impl SweepRun {
    /// The run is a faithful partial sweep of `chunk`: the iterator walks
    /// exactly the chunk's cell box and the buffer holds the spans of the
    /// cells walked so far.
    pub open spec fn wf(self, chunk: Chunk) -> bool {
        &&& chunk.wf()
        &&& chunk.size <= u32::MAX
        &&& self.iter.min == spec_cell_box(chunk).min
        &&& self.iter.max == spec_cell_box(chunk).max
        &&& self.iter.wf()
        &&& self.spans@ == spec_sweep(chunk, self.isolevel, self.iter.pos())
    }

    /// Every cell has been evaluated.
    pub open spec fn done(self) -> bool {
        self.iter.pos() == self.iter.total()
    }

    /// Triggers a sweep of `chunk` at `isolevel`: the iterator stands at
    /// the first cell and the accumulation buffer is empty.
    pub fn begin(chunk: &Chunk, isolevel: u32) -> (r: SweepRun)
        requires
            chunk.wf(),
            chunk.size <= u32::MAX,
        ensures
            r.wf(*chunk),
            r.isolevel == isolevel,
            r.iter.pos() == 0,
    {
        let m: u32 = (chunk.size - 2) as u32;
        let iter = Iter3d::new(UVec3::new(0, 0, 0), UVec3::new(m, m, m));
        let spans: Vec<TriSpan> = Vec::new();
        proof {
            assert(spans@ =~= spec_sweep(*chunk, isolevel, 0));
        }
        SweepRun { isolevel, iter, spans }
    }

    /// Evaluates the next cell and appends its triangle spans. Returns
    /// whether a cell was evaluated; once every cell is done the run is
    /// left unchanged and `false` comes back.
    pub fn step(&mut self, chunk: &Chunk) -> (more: bool)
        requires
            old(self).wf(*chunk),
        ensures
            final(self).wf(*chunk),
            final(self).isolevel == old(self).isolevel,
            more == !old(self).done(),
            old(self).done() ==> *final(self) == *old(self),
            !old(self).done() ==> final(self).iter.pos() == old(self).iter.pos() + 1,
    {
        proof {
            self.iter.lemma_pos_in_range();
        }
        let next = self.iter.next();
        match next {
            None => false,
            Some(pos) => {
                proof {
                    old(self).iter.lemma_coord_at_in_box(old(self).iter.pos());
                }
                let mut cell = GridCell::new(pos);
                proof {
                    assert forall|i: int| 0 <= i < 8 implies chunk.in_bounds(
                        cell.vertex_position@[i],
                    ) by {
                        assert(cell.vertex_position@[i] == spec_corner_pos(pos, i));
                    }
                }
                cell.sample_values(chunk);
                proof {
                    assert(cell.vertex_position@ =~= spec_cell_positions(pos));
                    assert(cell.value@ =~= spec_cell_values(*chunk, pos));
                }
                match march_cube(&cell, self.isolevel) {
                    Some(mut tris) => {
                        self.spans.append(&mut tris);
                    },
                    None => {
                        proof {
                            assert(self.spans@ =~= self.spans@ + spec_march_at(
                                *chunk,
                                self.isolevel,
                                pos,
                            ));
                        }
                    },
                }
                true
            },
        }
    }
}

/// A field entirely on one side of the surface sweeps to nothing: when
/// every sample of the chunk is below the isolevel, or none is, every cell
/// is uniform and the first `k` cells contribute no triangle.
pub proof fn lemma_uniform_chunk_sweeps_empty(chunk: Chunk, isolevel: u32, k: int)
    requires
        chunk.wf(),
        chunk.size <= u32::MAX,
        0 <= k <= spec_cell_count(chunk),
        (forall|p: UVec3|
            chunk.in_bounds(p) ==> sc_lt(#[trigger] chunk.spec_get(p), isolevel)) || (forall|
            p: UVec3,
        |
            chunk.in_bounds(p) ==> !sc_lt(#[trigger] chunk.spec_get(p), isolevel)),
    ensures
        spec_sweep(chunk, isolevel, k) == Seq::<TriSpan>::empty(),
    decreases k,
{
    if k > 0 {
        lemma_uniform_chunk_sweeps_empty(chunk, isolevel, k - 1);
        let box_iter = spec_cell_box(chunk);
        let pos = box_iter.coord_at(k - 1);
        box_iter.lemma_coord_at_in_box(k - 1);
        assert forall|i: int| 0 <= i < 8 implies chunk.in_bounds(spec_corner_pos(pos, i)) by {
            assert(pos.x <= chunk.size - 2 && pos.y <= chunk.size - 2 && pos.z <= chunk.size - 2);
        }
        let values = spec_cell_values(chunk, pos);
        assert forall|i: int| 0 <= i < 8 implies #[trigger] values[i] == chunk.spec_get(
            spec_corner_pos(pos, i),
        ) by {}
        lemma_uniform_cell_marches_empty(spec_cell_positions(pos), values, isolevel);
        assert(spec_sweep(chunk, isolevel, k) =~= Seq::<TriSpan>::empty());
    } else {
        assert(spec_sweep(chunk, isolevel, k) =~= Seq::<TriSpan>::empty());
    }
}

/// Sweeps every interior cell of `chunk` eagerly and returns the
/// accumulated triangle spans, in cell order.
pub fn sweep_chunk(chunk: &Chunk, isolevel: u32) -> (r: Vec<TriSpan>)
    requires
        chunk.wf(),
        chunk.size <= u32::MAX,
    ensures
        r@ == spec_sweep(*chunk, isolevel, spec_cell_count(*chunk)),
{
    let mut run = SweepRun::begin(chunk, isolevel);
    loop
        invariant
            run.wf(*chunk),
            run.isolevel == isolevel,
        ensures
            run.wf(*chunk),
            run.isolevel == isolevel,
            run.done(),
        decreases run.iter.total() - run.iter.pos(),
    {
        proof {
            run.iter.lemma_pos_in_range();
        }
        if !run.step(chunk) {
            break;
        }
    }
    run.spans
}

} // verus!
