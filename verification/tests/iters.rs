use marching_cubes::coord::UVec3;
use marching_cubes::iters::Iter3d;

#[test]
fn test() {
    let mut iter = Iter3d::new(UVec3::new(0, 0, 0), UVec3::new(2, 2, 2));
    assert_eq!(iter.next(), Some(UVec3::new(0, 0, 0)));
}

#[test]
fn single_cell_box_yields_eight_corners_in_row_major_order() {
    let mut iter = Iter3d::new(UVec3::new(0, 0, 0), UVec3::new(1, 1, 1));
    let expected = [
        (0, 0, 0),
        (1, 0, 0),
        (0, 1, 0),
        (1, 1, 0),
        (0, 0, 1),
        (1, 0, 1),
        (0, 1, 1),
        (1, 1, 1),
    ];
    for &(x, y, z) in expected.iter() {
        assert_eq!(iter.next(), Some(UVec3::new(x, y, z)));
    }
    assert_eq!(iter.next(), None);
    assert_eq!(iter.next(), None);
}

#[test]
fn walk_covers_every_coordinate_exactly_once() {
    let mut iter = Iter3d::new(UVec3::new(1, 2, 3), UVec3::new(3, 4, 5));
    let mut seen = Vec::new();
    while let Some(c) = iter.next() {
        assert!(!seen.contains(&(c.x, c.y, c.z)));
        seen.push((c.x, c.y, c.z));
    }
    assert_eq!(seen.len(), 27);
    for x in 1..=3 {
        for y in 2..=4 {
            for z in 3..=5 {
                assert!(seen.contains(&(x, y, z)));
            }
        }
    }
}

#[test]
fn reset_restarts_the_same_walk() {
    let mut iter = Iter3d::new(UVec3::new(0, 0, 0), UVec3::new(2, 1, 1));
    let mut first = Vec::new();
    while let Some(c) = iter.next() {
        first.push(c);
    }
    iter.reset();
    let mut second = Vec::new();
    while let Some(c) = iter.next() {
        second.push(c);
    }
    assert_eq!(first, second);
    assert_eq!(first.len(), 12);
}

#[test]
fn degenerate_single_point_box() {
    let mut iter = Iter3d::new(UVec3::new(7, 8, 9), UVec3::new(7, 8, 9));
    assert_eq!(iter.next(), Some(UVec3::new(7, 8, 9)));
    assert_eq!(iter.next(), None);
}
