use marching_cubes::chunk::Chunk;
use marching_cubes::coord::UVec3;
use marching_cubes::interp::select_vertex;
use marching_cubes::march::EdgeSpan;
use marching_cubes::march::TriSpan;
use marching_cubes::mesh::{build_indexed, ChunkMesh, Triangle, Vec3Bits};
use marching_cubes::sweep::{sweep_chunk, SweepRun};

fn bits(v: f32) -> u32 {
    v.to_bits()
}

fn vb(v: [f32; 3]) -> Vec3Bits {
    Vec3Bits { x: v[0].to_bits(), y: v[1].to_bits(), z: v[2].to_bits() }
}

fn fv(p: UVec3) -> [f32; 3] {
    [p.x as f32, p.y as f32, p.z as f32]
}

/// The numeric interpolation kernel: the guarded placement of a vertex on
/// one crossed edge, with the selection done by the library.
fn vertex_interp(isolevel: f32, span: &EdgeSpan) -> Vec3Bits {
    let p1 = fv(span.p1);
    let p2 = fv(span.p2);
    let valp1 = f32::from_bits(span.valp1);
    let valp2 = f32::from_bits(span.valp2);
    let near1 = (isolevel - valp1).abs() < 0.00001;
    let near2 = (isolevel - valp2).abs() < 0.00001;
    let flat = (valp1 - valp2).abs() < 0.00001;
    let mu = (isolevel - valp1) / (valp2 - valp1);
    let lerped = [
        p1[0] + mu * (p2[0] - p1[0]),
        p1[1] + mu * (p2[1] - p1[1]),
        p1[2] + mu * (p2[2] - p1[2]),
    ];
    select_vertex(near1, near2, flat, vb(p1), vb(p2), vb(lerped))
}

fn realize(spans: &[TriSpan], isolevel: f32) -> ChunkMesh {
    let mut soup = ChunkMesh::new();
    for span in spans {
        soup.triangles.push(Triangle {
            a: vertex_interp(isolevel, &span.v0),
            b: vertex_interp(isolevel, &span.v1),
            c: vertex_interp(isolevel, &span.v2),
        });
    }
    soup
}

fn face_normal(t: &Triangle) -> Vec3Bits {
    let a = [
        f32::from_bits(t.a.x),
        f32::from_bits(t.a.y),
        f32::from_bits(t.a.z),
    ];
    let b = [
        f32::from_bits(t.b.x),
        f32::from_bits(t.b.y),
        f32::from_bits(t.b.z),
    ];
    let c = [
        f32::from_bits(t.c.x),
        f32::from_bits(t.c.y),
        f32::from_bits(t.c.z),
    ];
    let ab = [b[0] - a[0], b[1] - a[1], b[2] - a[2]];
    let ac = [c[0] - a[0], c[1] - a[1], c[2] - a[2]];
    let n = [
        ab[1] * ac[2] - ab[2] * ac[1],
        ab[2] * ac[0] - ab[0] * ac[2],
        ab[0] * ac[1] - ab[1] * ac[0],
    ];
    let len = (n[0] * n[0] + n[1] * n[1] + n[2] * n[2]).sqrt();
    vb([n[0] / len, n[1] / len, n[2] / len])
}

fn key(v: &Vec3Bits) -> (u32, u32, u32) {
    (v.x, v.y, v.z)
}

#[test]
fn single_interior_point_gives_a_closed_surface() {
    let mut chunk = Chunk::new_empty(4);
    chunk.set(UVec3::new(1, 1, 1), bits(1.0)).unwrap();
    let spans = sweep_chunk(&chunk, bits(0.5));
    assert!(!spans.is_empty());
    // The 8 cells sharing the raised lattice point each contribute one
    // triangle of the surrounding surface.
    assert_eq!(spans.len(), 8);

    let soup = realize(&spans, 0.5);
    // Closedness: every undirected triangle edge is shared by exactly two
    // triangles.
    let mut edges: Vec<((u32, u32, u32), (u32, u32, u32))> = Vec::new();
    let mut counts: Vec<usize> = Vec::new();
    for t in &soup.triangles {
        for (u, v) in [(&t.a, &t.b), (&t.b, &t.c), (&t.c, &t.a)] {
            let (ku, kv) = (key(u), key(v));
            let e = if ku <= kv { (ku, kv) } else { (kv, ku) };
            match edges.iter().position(|x| *x == e) {
                Some(i) => counts[i] += 1,
                None => {
                    edges.push(e);
                    counts.push(1);
                }
            }
        }
    }
    assert_eq!(edges.len(), 12);
    assert!(counts.iter().all(|&c| c == 2));

    // An isolevel above every sample crosses nothing.
    let empty = sweep_chunk(&chunk, bits(1.5));
    assert!(empty.is_empty());

    // The indexed mesh keeps three indices per triangle, all in range.
    let normals: Vec<Vec3Bits> = soup.triangles.iter().map(face_normal).collect();
    let mesh = build_indexed(&soup, &normals);
    assert_eq!(mesh.indices.len(), 24);
    assert!(mesh.indices.iter().all(|&i| (i as usize) < mesh.positions.len()));
    assert_eq!(mesh.positions.len(), mesh.normals.len());
    assert_eq!(mesh.positions.len(), mesh.uvs.len());
}

#[test]
fn uniform_field_sweeps_to_nothing() {
    let chunk = Chunk::new_empty(4);
    assert!(sweep_chunk(&chunk, bits(0.5)).is_empty());
}

#[test]
fn stepped_sweep_matches_the_eager_sweep() {
    let mut chunk = Chunk::new_empty(4);
    chunk.set(UVec3::new(1, 2, 1), bits(0.9)).unwrap();
    chunk.set(UVec3::new(2, 1, 2), bits(0.8)).unwrap();
    let eager = sweep_chunk(&chunk, bits(0.5));

    let mut run = SweepRun::begin(&chunk, bits(0.5));
    let mut ticks = 0;
    while run.step(&chunk) {
        ticks += 1;
    }
    assert_eq!(ticks, 27);
    assert_eq!(run.spans, eager);
}

#[test]
fn interpolation_lands_midway_between_opposite_samples() {
    let mut chunk = Chunk::new_empty(2);
    chunk.set(UVec3::new(0, 0, 0), bits(1.0)).unwrap();
    // Corner (0,0,0) holds 1.0, the rest 0.0: with isolevel 0.5 each vertex
    // sits exactly halfway along an edge out of that corner.
    let spans = sweep_chunk(&chunk, bits(0.5));
    assert_eq!(spans.len(), 1);
    let soup = realize(&spans, 0.5);
    let t = &soup.triangles[0];
    let mut vertices = [key(&t.a), key(&t.b), key(&t.c)];
    vertices.sort();
    let mut expected = [
        key(&vb([0.5, 0.0, 0.0])),
        key(&vb([0.0, 0.5, 0.0])),
        key(&vb([0.0, 0.0, 0.5])),
    ];
    expected.sort();
    assert_eq!(vertices, expected);
}
