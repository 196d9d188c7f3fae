use marching_cubes::chunk::{Chunk, ChunkError};
use marching_cubes::coord::UVec3;

fn bits(v: f32) -> u32 {
    v.to_bits()
}

#[test]
fn set_then_get_round_trips_every_point() {
    let mut chunk = Chunk::new_empty(3);
    for x in 0..3 {
        for y in 0..3 {
            for z in 0..3 {
                let pos = UVec3::new(x, y, z);
                let v = bits((x * 9 + y * 3 + z) as f32 / 27.0);
                assert_eq!(chunk.set(pos, v), Ok(()));
                assert_eq!(chunk.get(pos), Ok(v));
            }
        }
    }
}

#[test]
fn set_leaves_every_other_point_alone() {
    let mut chunk = Chunk::new_empty(3);
    assert_eq!(chunk.set(UVec3::new(1, 2, 0), bits(0.75)), Ok(()));
    for x in 0..3 {
        for y in 0..3 {
            for z in 0..3 {
                let expected = if (x, y, z) == (1, 2, 0) { bits(0.75) } else { 0 };
                assert_eq!(chunk.get(UVec3::new(x, y, z)), Ok(expected));
            }
        }
    }
}

#[test]
fn out_of_range_get_and_set_report_the_error() {
    let mut chunk = Chunk::new_empty(4);
    assert_eq!(chunk.get(UVec3::new(4, 0, 0)), Err(ChunkError::IndexOutOfRange));
    assert_eq!(chunk.get(UVec3::new(0, 4, 0)), Err(ChunkError::IndexOutOfRange));
    assert_eq!(chunk.get(UVec3::new(0, 0, 4)), Err(ChunkError::IndexOutOfRange));
    assert_eq!(chunk.set(UVec3::new(0, 9, 0), bits(1.0)), Err(ChunkError::IndexOutOfRange));
    assert_eq!(chunk.get(UVec3::new(3, 3, 3)), Ok(0));
}

#[test]
fn index_is_z_major_and_collision_free() {
    let chunk = Chunk::new_empty(4);
    assert_eq!(chunk.index(UVec3::new(0, 0, 0)), 0);
    assert_eq!(chunk.index(UVec3::new(1, 0, 0)), 1);
    assert_eq!(chunk.index(UVec3::new(0, 1, 0)), 4);
    assert_eq!(chunk.index(UVec3::new(0, 0, 1)), 16);
    assert_eq!(chunk.index(UVec3::new(3, 3, 3)), 63);
    let mut seen = vec![false; 64];
    for x in 0..4 {
        for y in 0..4 {
            for z in 0..4 {
                let i = chunk.index(UVec3::new(x, y, z));
                assert!(i < 64);
                assert!(!seen[i]);
                seen[i] = true;
            }
        }
    }
}

#[test]
fn new_wraps_an_existing_field() {
    let points = vec![bits(0.25); 8];
    let chunk = Chunk::new(points, 2);
    assert_eq!(chunk.get(UVec3::new(1, 1, 1)), Ok(bits(0.25)));
    assert_eq!(chunk.size, 2);
}

#[test]
fn poll_changed_reports_and_clears_the_flag() {
    let mut chunk = Chunk::new_empty(2);
    assert!(!chunk.poll_changed());
    chunk.set(UVec3::new(0, 0, 0), bits(1.0)).unwrap();
    assert!(chunk.poll_changed());
    assert!(!chunk.poll_changed());
    assert_eq!(chunk.set(UVec3::new(5, 0, 0), bits(1.0)), Err(ChunkError::IndexOutOfRange));
    assert!(!chunk.poll_changed());
}
