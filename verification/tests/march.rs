use marching_cubes::coord::UVec3;
use marching_cubes::march::{compute_cube_index, march_cube, GridCell};
use marching_cubes::scalar::{scalar_eq, scalar_lt};

fn bits(v: f32) -> u32 {
    v.to_bits()
}

fn cell_with_values(origin: UVec3, values: [f32; 8]) -> GridCell {
    let mut cell = GridCell::new(origin);
    let mut i = 0;
    while i < 8 {
        cell.value[i] = bits(values[i]);
        i += 1;
    }
    cell
}

#[test]
fn scalar_order_matches_the_encoded_values() {
    assert!(scalar_lt(bits(0.25), bits(0.5)));
    assert!(!scalar_lt(bits(0.5), bits(0.25)));
    assert!(!scalar_lt(bits(0.5), bits(0.5)));
    assert!(scalar_lt(bits(-1.0), bits(-0.5)));
    assert!(scalar_lt(bits(-0.5), bits(0.25)));
    assert!(!scalar_lt(bits(-0.0), bits(0.0)));
    assert!(!scalar_lt(bits(f32::NAN), bits(0.5)));
    assert!(!scalar_lt(bits(0.5), bits(f32::NAN)));
    assert!(scalar_lt(bits(f32::NEG_INFINITY), bits(f32::INFINITY)));
}

#[test]
fn scalar_equality_matches_the_encoded_values() {
    assert!(scalar_eq(bits(0.5), bits(0.5)));
    assert!(scalar_eq(bits(-0.0), bits(0.0)));
    assert!(!scalar_eq(bits(0.5), bits(0.25)));
    assert!(!scalar_eq(bits(f32::NAN), bits(f32::NAN)));
}

#[test]
fn cube_index_sets_one_bit_per_corner_below() {
    let cell = cell_with_values(
        UVec3::new(0, 0, 0),
        [0.0, 1.0, 1.0, 0.0, 1.0, 1.0, 1.0, 1.0],
    );
    assert_eq!(compute_cube_index(&cell, bits(0.5)), 0b0000_1001);
    let all_below = cell_with_values(UVec3::new(0, 0, 0), [0.0; 8]);
    assert_eq!(compute_cube_index(&all_below, bits(0.5)), 255);
    assert_eq!(compute_cube_index(&all_below, bits(-1.0)), 0);
}

#[test]
fn uniform_cells_produce_no_triangles() {
    let below = cell_with_values(UVec3::new(0, 0, 0), [0.0; 8]);
    assert!(march_cube(&below, bits(0.5)).is_none());
    let above = cell_with_values(UVec3::new(0, 0, 0), [1.0; 8]);
    assert!(march_cube(&above, bits(0.5)).is_none());
}

#[test]
fn single_corner_below_yields_one_triangle_on_its_edges() {
    let origin = UVec3::new(2, 3, 4);
    let mut values = [1.0f32; 8];
    values[0] = 0.0;
    let cell = cell_with_values(origin, values);
    let tris = march_cube(&cell, bits(0.5)).expect("one corner below must cross the surface");
    assert_eq!(tris.len(), 1);
    let corner0 = origin;
    let tri = &tris[0];
    for span in [&tri.v0, &tri.v1, &tri.v2] {
        assert!(span.p1 == corner0 || span.p2 == corner0);
    }
    // The corner-0 row connects edges 0, 8 and 3, emitted in reverse order.
    assert_eq!(tri.v0.p1, UVec3::new(2, 3, 5));
    assert_eq!(tri.v0.p2, origin);
    assert_eq!(tri.v1.p1, origin);
    assert_eq!(tri.v1.p2, UVec3::new(2, 4, 4));
    assert_eq!(tri.v2.p1, origin);
    assert_eq!(tri.v2.p2, UVec3::new(3, 3, 4));
    assert_eq!(tri.v1.valp1, bits(0.0));
    assert_eq!(tri.v1.valp2, bits(1.0));
}

#[test]
fn each_single_corner_case_touches_its_corner() {
    for corner in 0..8 {
        let origin = UVec3::new(0, 0, 0);
        let mut values = [1.0f32; 8];
        values[corner] = 0.0;
        let cell = cell_with_values(origin, values);
        let corner_pos = cell.vertex_position[corner];
        let tris = march_cube(&cell, bits(0.5)).expect("one corner below crosses the surface");
        assert_eq!(tris.len(), 1);
        let tri = &tris[0];
        for span in [&tri.v0, &tri.v1, &tri.v2] {
            assert!(span.p1 == corner_pos || span.p2 == corner_pos);
        }
    }
}

#[test]
fn grid_cell_corners_follow_the_table_order() {
    let cell = GridCell::new(UVec3::new(1, 1, 1));
    let expected = [
        (1, 1, 1),
        (2, 1, 1),
        (2, 1, 2),
        (1, 1, 2),
        (1, 2, 1),
        (2, 2, 1),
        (2, 2, 2),
        (1, 2, 2),
    ];
    for (i, &(x, y, z)) in expected.iter().enumerate() {
        assert_eq!(cell.vertex_position[i], UVec3::new(x, y, z));
        assert_eq!(cell.value[i], 0);
    }
}
