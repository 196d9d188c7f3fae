use marching_cubes::interp::select_vertex;
use marching_cubes::mesh::{build_indexed, vec3_eq, ChunkMesh, Triangle, Vec3Bits};

fn v3(x: f32, y: f32, z: f32) -> Vec3Bits {
    Vec3Bits { x: x.to_bits(), y: y.to_bits(), z: z.to_bits() }
}

#[test]
fn vector_equality_follows_the_encoded_values() {
    assert!(vec3_eq(v3(1.0, 2.0, 3.0), v3(1.0, 2.0, 3.0)));
    assert!(vec3_eq(v3(0.0, 0.0, 0.0), v3(-0.0, -0.0, 0.0)));
    assert!(!vec3_eq(v3(1.0, 2.0, 3.0), v3(1.0, 2.0, 4.0)));
    assert!(!vec3_eq(v3(f32::NAN, 0.0, 0.0), v3(f32::NAN, 0.0, 0.0)));
}

#[test]
fn shared_vertices_collapse_only_under_an_equal_normal() {
    // Two triangles of one square, coplanar: same face normal, shared edge.
    let a = v3(0.0, 0.0, 0.0);
    let b = v3(1.0, 0.0, 0.0);
    let c = v3(1.0, 1.0, 0.0);
    let d = v3(0.0, 1.0, 0.0);
    let soup = ChunkMesh { triangles: vec![Triangle { a, b, c }, Triangle { a: a, b: c, c: d }] };
    let up = v3(0.0, 0.0, 1.0);
    let normals = vec![up, up];
    let mesh = build_indexed(&soup, &normals);
    assert_eq!(mesh.positions.len(), 4);
    assert_eq!(mesh.normals.len(), 4);
    assert_eq!(mesh.uvs.len(), 4);
    assert_eq!(mesh.indices, vec![0, 1, 2, 0, 2, 3]);
    for uv in &mesh.uvs {
        assert_eq!(uv.u, 0);
        assert_eq!(uv.v, 0);
    }
    for n in &mesh.normals {
        assert!(vec3_eq(*n, up));
    }

    // The same two triangles with different normals share nothing.
    let tilted = v3(0.0, 1.0, 0.0);
    let normals2 = vec![up, tilted];
    let mesh2 = build_indexed(&soup, &normals2);
    assert_eq!(mesh2.positions.len(), 6);
    assert_eq!(mesh2.indices, vec![0, 1, 2, 3, 4, 5]);
}

#[test]
fn rebuilding_the_same_soup_gives_identical_arrays() {
    let soup = ChunkMesh {
        triangles: vec![
            Triangle { a: v3(0.0, 0.0, 0.0), b: v3(1.0, 0.0, 0.0), c: v3(0.0, 1.0, 0.0) },
            Triangle { a: v3(1.0, 0.0, 0.0), b: v3(1.0, 1.0, 0.0), c: v3(0.0, 1.0, 0.0) },
            Triangle { a: v3(0.0, 0.0, 0.0), b: v3(0.0, 0.0, 1.0), c: v3(1.0, 0.0, 0.0) },
        ],
    };
    let normals = vec![v3(0.0, 0.0, 1.0), v3(0.0, 0.0, 1.0), v3(0.0, -1.0, 0.0)];
    let first = build_indexed(&soup, &normals);
    let second = build_indexed(&soup, &normals);
    assert_eq!(first.indices, second.indices);
    assert_eq!(first.positions, second.positions);
    assert_eq!(first.normals, second.normals);
    assert_eq!(first.uvs.len(), second.uvs.len());
}

#[test]
fn empty_soup_builds_an_empty_mesh() {
    let soup = ChunkMesh::new();
    let mesh = build_indexed(&soup, &Vec::new());
    assert!(mesh.positions.is_empty());
    assert!(mesh.indices.is_empty());
}

#[test]
fn selection_is_exact_at_the_boundary() {
    let p1 = v3(1.0, 2.0, 3.0);
    let p2 = v3(1.0, 2.0, 4.0);
    let lerped = v3(1.0, 2.0, 3.5);
    // First guard: the isolevel meets the first sample exactly.
    let isolevel = 0.5f32;
    let valp1 = 0.5f32;
    let valp2 = 1.0f32;
    let near1 = (isolevel - valp1).abs() < 0.00001;
    let near2 = (isolevel - valp2).abs() < 0.00001;
    let flat = (valp1 - valp2).abs() < 0.00001;
    assert!(near1 && !near2 && !flat);
    assert_eq!(select_vertex(near1, near2, flat, p1, p2, lerped), p1);
    // Second guard: the isolevel meets the second sample exactly.
    assert_eq!(select_vertex(false, true, false, p1, p2, lerped), p2);
    // Degenerate gradient: equal samples pick the first endpoint.
    assert_eq!(select_vertex(false, false, true, p1, p2, lerped), p1);
    // No guard: the interpolated point is emitted.
    assert_eq!(select_vertex(false, false, false, p1, p2, lerped), lerped);
}
