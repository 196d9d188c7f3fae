//! Static Marching Cubes topology tables.
//!
//! Three fixed lookup tables drive the per-cell triangulation. They are the
//! canonical Marching Cubes tables, reproduced verbatim; every triangulation
//! case depends on their exact content, so they are treated as opaque data
//! and are not derived from anything else in the library.
//!
//! Corner numbering: corners 0-3 form the bottom face (y = 0) in the order
//! (0,0,0), (1,0,0), (1,0,1), (0,0,1); corners 4-7 form the top face (y = 1)
//! in the same (x,z) order. Edges 0-11 connect the corner pairs listed in
//! [`EDGE_CONNECTION`].

use vstd::prelude::*;

verus! {

/// For each sign pattern of the 8 cube corners (bit i set when corner i is
/// below the isolevel), a 12-bit mask with bit e set when cube edge e is
/// crossed by the isosurface.
pub const EDGE_TABLE: [u16; 256] = [
    0x000, 0x109, 0x203, 0x30a, 0x406, 0x50f, 0x605, 0x70c,
    0x80c, 0x905, 0xa0f, 0xb06, 0xc0a, 0xd03, 0xe09, 0xf00,
    0x190, 0x099, 0x393, 0x29a, 0x596, 0x49f, 0x795, 0x69c,
    0x99c, 0x895, 0xb9f, 0xa96, 0xd9a, 0xc93, 0xf99, 0xe90,
    0x230, 0x339, 0x033, 0x13a, 0x636, 0x73f, 0x435, 0x53c,
    0xa3c, 0xb35, 0x83f, 0x936, 0xe3a, 0xf33, 0xc39, 0xd30,
    0x3a0, 0x2a9, 0x1a3, 0x0aa, 0x7a6, 0x6af, 0x5a5, 0x4ac,
    0xbac, 0xaa5, 0x9af, 0x8a6, 0xfaa, 0xea3, 0xda9, 0xca0,
    0x460, 0x569, 0x663, 0x76a, 0x066, 0x16f, 0x265, 0x36c,
    0xc6c, 0xd65, 0xe6f, 0xf66, 0x86a, 0x963, 0xa69, 0xb60,
    0x5f0, 0x4f9, 0x7f3, 0x6fa, 0x1f6, 0x0ff, 0x3f5, 0x2fc,
    0xdfc, 0xcf5, 0xfff, 0xef6, 0x9fa, 0x8f3, 0xbf9, 0xaf0,
    0x650, 0x759, 0x453, 0x55a, 0x256, 0x35f, 0x055, 0x15c,
    0xe5c, 0xf55, 0xc5f, 0xd56, 0xa5a, 0xb53, 0x859, 0x950,
    0x7c0, 0x6c9, 0x5c3, 0x4ca, 0x3c6, 0x2cf, 0x1c5, 0x0cc,
    0xfcc, 0xec5, 0xdcf, 0xcc6, 0xbca, 0xac3, 0x9c9, 0x8c0,
    0x8c0, 0x9c9, 0xac3, 0xbca, 0xcc6, 0xdcf, 0xec5, 0xfcc,
    0x0cc, 0x1c5, 0x2cf, 0x3c6, 0x4ca, 0x5c3, 0x6c9, 0x7c0,
    0x950, 0x859, 0xb53, 0xa5a, 0xd56, 0xc5f, 0xf55, 0xe5c,
    0x15c, 0x055, 0x35f, 0x256, 0x55a, 0x453, 0x759, 0x650,
    0xaf0, 0xbf9, 0x8f3, 0x9fa, 0xef6, 0xfff, 0xcf5, 0xdfc,
    0x2fc, 0x3f5, 0x0ff, 0x1f6, 0x6fa, 0x7f3, 0x4f9, 0x5f0,
    0xb60, 0xa69, 0x963, 0x86a, 0xf66, 0xe6f, 0xd65, 0xc6c,
    0x36c, 0x265, 0x16f, 0x066, 0x76a, 0x663, 0x569, 0x460,
    0xca0, 0xda9, 0xea3, 0xfaa, 0x8a6, 0x9af, 0xaa5, 0xbac,
    0x4ac, 0x5a5, 0x6af, 0x7a6, 0x0aa, 0x1a3, 0x2a9, 0x3a0,
    0xd30, 0xc39, 0xf33, 0xe3a, 0x936, 0x83f, 0xb35, 0xa3c,
    0x53c, 0x435, 0x73f, 0x636, 0x13a, 0x033, 0x339, 0x230,
    0xe90, 0xf99, 0xc93, 0xd9a, 0xa96, 0xb9f, 0x895, 0x99c,
    0x69c, 0x795, 0x49f, 0x596, 0x29a, 0x393, 0x099, 0x190,
    0xf00, 0xe09, 0xd03, 0xc0a, 0xb06, 0xa0f, 0x905, 0x80c,
    0x70c, 0x605, 0x50f, 0x406, 0x30a, 0x203, 0x109, 0x000,
];

/// For each of the 12 cube edges, the pair of corner indices it connects.
pub const EDGE_CONNECTION: [(usize, usize); 12] = [
    (0, 1),
    (1, 2),
    (2, 3),
    (3, 0),
    (4, 5),
    (5, 6),
    (6, 7),
    (7, 4),
    (0, 4),
    (1, 5),
    (2, 6),
    (3, 7),
];

/// Triangle topology for the sign patterns 0 through 63: for pattern `ci`,
/// the 16 entries starting at `16 * ci` hold up to 5 triangles as triples of
/// crossed-edge ids, terminated by a -1 sentinel. The table continues in
/// [`TRIANGLE_TABLE_Q1`], [`TRIANGLE_TABLE_Q2`] and [`TRIANGLE_TABLE_Q3`],
/// 64 sign patterns each; it is stored in four parts only to keep each
/// constant small. [`spec_tri_entry`] and [`tri_entry`] present the four
/// parts as the single 256-row table.
pub const TRIANGLE_TABLE_Q0: [i8; 1024] = [
    -1, -1, -1, -1, -1, -1, -1, -1, -1, -1, -1, -1, -1, -1, -1, -1,
    0, 8, 3, -1, -1, -1, -1, -1, -1, -1, -1, -1, -1, -1, -1, -1,
    0, 1, 9, -1, -1, -1, -1, -1, -1, -1, -1, -1, -1, -1, -1, -1,
    1, 8, 3, 9, 8, 1, -1, -1, -1, -1, -1, -1, -1, -1, -1, -1,
    1, 2, 10, -1, -1, -1, -1, -1, -1, -1, -1, -1, -1, -1, -1, -1,
    0, 8, 3, 1, 2, 10, -1, -1, -1, -1, -1, -1, -1, -1, -1, -1,
    9, 2, 10, 0, 2, 9, -1, -1, -1, -1, -1, -1, -1, -1, -1, -1,
    2, 8, 3, 2, 10, 8, 10, 9, 8, -1, -1, -1, -1, -1, -1, -1,
    3, 11, 2, -1, -1, -1, -1, -1, -1, -1, -1, -1, -1, -1, -1, -1,
    0, 11, 2, 8, 11, 0, -1, -1, -1, -1, -1, -1, -1, -1, -1, -1,
    1, 9, 0, 2, 3, 11, -1, -1, -1, -1, -1, -1, -1, -1, -1, -1,
    1, 11, 2, 1, 9, 11, 9, 8, 11, -1, -1, -1, -1, -1, -1, -1,
    3, 10, 1, 11, 10, 3, -1, -1, -1, -1, -1, -1, -1, -1, -1, -1,
    0, 10, 1, 0, 8, 10, 8, 11, 10, -1, -1, -1, -1, -1, -1, -1,
    3, 9, 0, 3, 11, 9, 11, 10, 9, -1, -1, -1, -1, -1, -1, -1,
    9, 8, 10, 10, 8, 11, -1, -1, -1, -1, -1, -1, -1, -1, -1, -1,
    4, 7, 8, -1, -1, -1, -1, -1, -1, -1, -1, -1, -1, -1, -1, -1,
    4, 3, 0, 7, 3, 4, -1, -1, -1, -1, -1, -1, -1, -1, -1, -1,
    0, 1, 9, 8, 4, 7, -1, -1, -1, -1, -1, -1, -1, -1, -1, -1,
    4, 1, 9, 4, 7, 1, 7, 3, 1, -1, -1, -1, -1, -1, -1, -1,
    1, 2, 10, 8, 4, 7, -1, -1, -1, -1, -1, -1, -1, -1, -1, -1,
    3, 4, 7, 3, 0, 4, 1, 2, 10, -1, -1, -1, -1, -1, -1, -1,
    9, 2, 10, 9, 0, 2, 8, 4, 7, -1, -1, -1, -1, -1, -1, -1,
    2, 10, 9, 2, 9, 7, 2, 7, 3, 7, 9, 4, -1, -1, -1, -1,
    8, 4, 7, 3, 11, 2, -1, -1, -1, -1, -1, -1, -1, -1, -1, -1,
    11, 4, 7, 11, 2, 4, 2, 0, 4, -1, -1, -1, -1, -1, -1, -1,
    9, 0, 1, 8, 4, 7, 2, 3, 11, -1, -1, -1, -1, -1, -1, -1,
    4, 7, 11, 9, 4, 11, 9, 11, 2, 9, 2, 1, -1, -1, -1, -1,
    3, 10, 1, 3, 11, 10, 7, 8, 4, -1, -1, -1, -1, -1, -1, -1,
    1, 11, 10, 1, 4, 11, 1, 0, 4, 7, 11, 4, -1, -1, -1, -1,
    4, 7, 8, 9, 0, 11, 9, 11, 10, 11, 0, 3, -1, -1, -1, -1,
    4, 7, 11, 4, 11, 9, 9, 11, 10, -1, -1, -1, -1, -1, -1, -1,
    9, 5, 4, -1, -1, -1, -1, -1, -1, -1, -1, -1, -1, -1, -1, -1,
    9, 5, 4, 0, 8, 3, -1, -1, -1, -1, -1, -1, -1, -1, -1, -1,
    0, 5, 4, 1, 5, 0, -1, -1, -1, -1, -1, -1, -1, -1, -1, -1,
    8, 5, 4, 8, 3, 5, 3, 1, 5, -1, -1, -1, -1, -1, -1, -1,
    1, 2, 10, 9, 5, 4, -1, -1, -1, -1, -1, -1, -1, -1, -1, -1,
    3, 0, 8, 1, 2, 10, 4, 9, 5, -1, -1, -1, -1, -1, -1, -1,
    5, 2, 10, 5, 4, 2, 4, 0, 2, -1, -1, -1, -1, -1, -1, -1,
    2, 10, 5, 3, 2, 5, 3, 5, 4, 3, 4, 8, -1, -1, -1, -1,
    9, 5, 4, 2, 3, 11, -1, -1, -1, -1, -1, -1, -1, -1, -1, -1,
    0, 11, 2, 0, 8, 11, 4, 9, 5, -1, -1, -1, -1, -1, -1, -1,
    0, 5, 4, 0, 1, 5, 2, 3, 11, -1, -1, -1, -1, -1, -1, -1,
    2, 1, 5, 2, 5, 8, 2, 8, 11, 4, 8, 5, -1, -1, -1, -1,
    10, 3, 11, 10, 1, 3, 9, 5, 4, -1, -1, -1, -1, -1, -1, -1,
    4, 9, 5, 0, 8, 1, 8, 10, 1, 8, 11, 10, -1, -1, -1, -1,
    5, 4, 0, 5, 0, 11, 5, 11, 10, 11, 0, 3, -1, -1, -1, -1,
    5, 4, 8, 5, 8, 10, 10, 8, 11, -1, -1, -1, -1, -1, -1, -1,
    9, 7, 8, 5, 7, 9, -1, -1, -1, -1, -1, -1, -1, -1, -1, -1,
    9, 3, 0, 9, 5, 3, 5, 7, 3, -1, -1, -1, -1, -1, -1, -1,
    0, 7, 8, 0, 1, 7, 1, 5, 7, -1, -1, -1, -1, -1, -1, -1,
    1, 5, 3, 3, 5, 7, -1, -1, -1, -1, -1, -1, -1, -1, -1, -1,
    9, 7, 8, 9, 5, 7, 10, 1, 2, -1, -1, -1, -1, -1, -1, -1,
    10, 1, 2, 9, 5, 0, 5, 3, 0, 5, 7, 3, -1, -1, -1, -1,
    8, 0, 2, 8, 2, 5, 8, 5, 7, 10, 5, 2, -1, -1, -1, -1,
    2, 10, 5, 2, 5, 3, 3, 5, 7, -1, -1, -1, -1, -1, -1, -1,
    7, 9, 5, 7, 8, 9, 3, 11, 2, -1, -1, -1, -1, -1, -1, -1,
    9, 5, 7, 9, 7, 2, 9, 2, 0, 2, 7, 11, -1, -1, -1, -1,
    2, 3, 11, 0, 1, 8, 1, 7, 8, 1, 5, 7, -1, -1, -1, -1,
    11, 2, 1, 11, 1, 7, 7, 1, 5, -1, -1, -1, -1, -1, -1, -1,
    9, 5, 8, 8, 5, 7, 10, 1, 3, 10, 3, 11, -1, -1, -1, -1,
    5, 7, 0, 5, 0, 9, 7, 11, 0, 1, 0, 10, 11, 10, 0, -1,
    11, 10, 0, 11, 0, 3, 10, 5, 0, 8, 0, 7, 5, 7, 0, -1,
    11, 10, 5, 7, 11, 5, -1, -1, -1, -1, -1, -1, -1, -1, -1, -1,
];

/// Triangle topology for the sign patterns 64 through 127; see
/// [`TRIANGLE_TABLE_Q0`].
pub const TRIANGLE_TABLE_Q1: [i8; 1024] = [
    10, 6, 5, -1, -1, -1, -1, -1, -1, -1, -1, -1, -1, -1, -1, -1,
    0, 8, 3, 5, 10, 6, -1, -1, -1, -1, -1, -1, -1, -1, -1, -1,
    9, 0, 1, 5, 10, 6, -1, -1, -1, -1, -1, -1, -1, -1, -1, -1,
    1, 8, 3, 1, 9, 8, 5, 10, 6, -1, -1, -1, -1, -1, -1, -1,
    1, 6, 5, 2, 6, 1, -1, -1, -1, -1, -1, -1, -1, -1, -1, -1,
    1, 6, 5, 1, 2, 6, 3, 0, 8, -1, -1, -1, -1, -1, -1, -1,
    9, 6, 5, 9, 0, 6, 0, 2, 6, -1, -1, -1, -1, -1, -1, -1,
    5, 9, 8, 5, 8, 2, 5, 2, 6, 3, 2, 8, -1, -1, -1, -1,
    2, 3, 11, 10, 6, 5, -1, -1, -1, -1, -1, -1, -1, -1, -1, -1,
    11, 0, 8, 11, 2, 0, 10, 6, 5, -1, -1, -1, -1, -1, -1, -1,
    0, 1, 9, 2, 3, 11, 5, 10, 6, -1, -1, -1, -1, -1, -1, -1,
    5, 10, 6, 1, 9, 2, 9, 11, 2, 9, 8, 11, -1, -1, -1, -1,
    6, 3, 11, 6, 5, 3, 5, 1, 3, -1, -1, -1, -1, -1, -1, -1,
    0, 8, 11, 0, 11, 5, 0, 5, 1, 5, 11, 6, -1, -1, -1, -1,
    3, 11, 6, 0, 3, 6, 0, 6, 5, 0, 5, 9, -1, -1, -1, -1,
    6, 5, 9, 6, 9, 11, 11, 9, 8, -1, -1, -1, -1, -1, -1, -1,
    5, 10, 6, 4, 7, 8, -1, -1, -1, -1, -1, -1, -1, -1, -1, -1,
    4, 3, 0, 4, 7, 3, 6, 5, 10, -1, -1, -1, -1, -1, -1, -1,
    1, 9, 0, 5, 10, 6, 8, 4, 7, -1, -1, -1, -1, -1, -1, -1,
    10, 6, 5, 1, 9, 7, 1, 7, 3, 7, 9, 4, -1, -1, -1, -1,
    6, 1, 2, 6, 5, 1, 4, 7, 8, -1, -1, -1, -1, -1, -1, -1,
    1, 2, 5, 5, 2, 6, 3, 0, 4, 3, 4, 7, -1, -1, -1, -1,
    8, 4, 7, 9, 0, 5, 0, 6, 5, 0, 2, 6, -1, -1, -1, -1,
    7, 3, 9, 7, 9, 4, 3, 2, 9, 5, 9, 6, 2, 6, 9, -1,
    3, 11, 2, 7, 8, 4, 10, 6, 5, -1, -1, -1, -1, -1, -1, -1,
    5, 10, 6, 4, 7, 2, 4, 2, 0, 2, 7, 11, -1, -1, -1, -1,
    0, 1, 9, 4, 7, 8, 2, 3, 11, 5, 10, 6, -1, -1, -1, -1,
    9, 2, 1, 9, 11, 2, 9, 4, 11, 7, 11, 4, 5, 10, 6, -1,
    8, 4, 7, 3, 11, 5, 3, 5, 1, 5, 11, 6, -1, -1, -1, -1,
    5, 1, 11, 5, 11, 6, 1, 0, 11, 7, 11, 4, 0, 4, 11, -1,
    0, 5, 9, 0, 6, 5, 0, 3, 6, 11, 6, 3, 8, 4, 7, -1,
    6, 5, 9, 6, 9, 11, 4, 7, 9, 7, 11, 9, -1, -1, -1, -1,
    10, 4, 9, 6, 4, 10, -1, -1, -1, -1, -1, -1, -1, -1, -1, -1,
    4, 10, 6, 4, 9, 10, 0, 8, 3, -1, -1, -1, -1, -1, -1, -1,
    10, 0, 1, 10, 6, 0, 6, 4, 0, -1, -1, -1, -1, -1, -1, -1,
    8, 3, 1, 8, 1, 6, 8, 6, 4, 6, 1, 10, -1, -1, -1, -1,
    1, 4, 9, 1, 2, 4, 2, 6, 4, -1, -1, -1, -1, -1, -1, -1,
    3, 0, 8, 1, 2, 9, 2, 4, 9, 2, 6, 4, -1, -1, -1, -1,
    0, 2, 4, 4, 2, 6, -1, -1, -1, -1, -1, -1, -1, -1, -1, -1,
    8, 3, 2, 8, 2, 4, 4, 2, 6, -1, -1, -1, -1, -1, -1, -1,
    10, 4, 9, 10, 6, 4, 11, 2, 3, -1, -1, -1, -1, -1, -1, -1,
    0, 8, 2, 2, 8, 11, 4, 9, 10, 4, 10, 6, -1, -1, -1, -1,
    3, 11, 2, 0, 1, 6, 0, 6, 4, 6, 1, 10, -1, -1, -1, -1,
    6, 4, 1, 6, 1, 10, 4, 8, 1, 2, 1, 11, 8, 11, 1, -1,
    9, 6, 4, 9, 3, 6, 9, 1, 3, 11, 6, 3, -1, -1, -1, -1,
    8, 11, 1, 8, 1, 0, 11, 6, 1, 9, 1, 4, 6, 4, 1, -1,
    3, 11, 6, 3, 6, 0, 0, 6, 4, -1, -1, -1, -1, -1, -1, -1,
    6, 4, 8, 11, 6, 8, -1, -1, -1, -1, -1, -1, -1, -1, -1, -1,
    7, 10, 6, 7, 8, 10, 8, 9, 10, -1, -1, -1, -1, -1, -1, -1,
    0, 7, 3, 0, 10, 7, 0, 9, 10, 6, 7, 10, -1, -1, -1, -1,
    10, 6, 7, 1, 10, 7, 1, 7, 8, 1, 8, 0, -1, -1, -1, -1,
    10, 6, 7, 10, 7, 1, 1, 7, 3, -1, -1, -1, -1, -1, -1, -1,
    1, 2, 6, 1, 6, 8, 1, 8, 9, 8, 6, 7, -1, -1, -1, -1,
    2, 6, 9, 2, 9, 1, 6, 7, 9, 0, 9, 3, 7, 3, 9, -1,
    7, 8, 0, 7, 0, 6, 6, 0, 2, -1, -1, -1, -1, -1, -1, -1,
    7, 3, 2, 6, 7, 2, -1, -1, -1, -1, -1, -1, -1, -1, -1, -1,
    2, 3, 11, 10, 6, 8, 10, 8, 9, 8, 6, 7, -1, -1, -1, -1,
    2, 0, 7, 2, 7, 11, 0, 9, 7, 6, 7, 10, 9, 10, 7, -1,
    1, 8, 0, 1, 7, 8, 1, 10, 7, 6, 7, 10, 2, 3, 11, -1,
    11, 2, 1, 11, 1, 7, 10, 6, 1, 6, 7, 1, -1, -1, -1, -1,
    8, 9, 6, 8, 6, 7, 9, 1, 6, 11, 6, 3, 1, 3, 6, -1,
    0, 9, 1, 11, 6, 7, -1, -1, -1, -1, -1, -1, -1, -1, -1, -1,
    7, 8, 0, 7, 0, 6, 3, 11, 0, 11, 6, 0, -1, -1, -1, -1,
    7, 11, 6, -1, -1, -1, -1, -1, -1, -1, -1, -1, -1, -1, -1, -1,
];

/// Triangle topology for the sign patterns 128 through 191; see
/// [`TRIANGLE_TABLE_Q0`].
pub const TRIANGLE_TABLE_Q2: [i8; 1024] = [
    7, 6, 11, -1, -1, -1, -1, -1, -1, -1, -1, -1, -1, -1, -1, -1,
    3, 0, 8, 11, 7, 6, -1, -1, -1, -1, -1, -1, -1, -1, -1, -1,
    0, 1, 9, 11, 7, 6, -1, -1, -1, -1, -1, -1, -1, -1, -1, -1,
    8, 1, 9, 8, 3, 1, 11, 7, 6, -1, -1, -1, -1, -1, -1, -1,
    10, 1, 2, 6, 11, 7, -1, -1, -1, -1, -1, -1, -1, -1, -1, -1,
    1, 2, 10, 3, 0, 8, 6, 11, 7, -1, -1, -1, -1, -1, -1, -1,
    2, 9, 0, 2, 10, 9, 6, 11, 7, -1, -1, -1, -1, -1, -1, -1,
    6, 11, 7, 2, 10, 3, 10, 8, 3, 10, 9, 8, -1, -1, -1, -1,
    7, 2, 3, 6, 2, 7, -1, -1, -1, -1, -1, -1, -1, -1, -1, -1,
    7, 0, 8, 7, 6, 0, 6, 2, 0, -1, -1, -1, -1, -1, -1, -1,
    2, 7, 6, 2, 3, 7, 0, 1, 9, -1, -1, -1, -1, -1, -1, -1,
    1, 6, 2, 1, 8, 6, 1, 9, 8, 8, 7, 6, -1, -1, -1, -1,
    10, 7, 6, 10, 1, 7, 1, 3, 7, -1, -1, -1, -1, -1, -1, -1,
    10, 7, 6, 1, 7, 10, 1, 8, 7, 1, 0, 8, -1, -1, -1, -1,
    0, 3, 7, 0, 7, 10, 0, 10, 9, 6, 10, 7, -1, -1, -1, -1,
    7, 6, 10, 7, 10, 8, 8, 10, 9, -1, -1, -1, -1, -1, -1, -1,
    6, 8, 4, 11, 8, 6, -1, -1, -1, -1, -1, -1, -1, -1, -1, -1,
    3, 6, 11, 3, 0, 6, 0, 4, 6, -1, -1, -1, -1, -1, -1, -1,
    8, 6, 11, 8, 4, 6, 9, 0, 1, -1, -1, -1, -1, -1, -1, -1,
    9, 4, 6, 9, 6, 3, 9, 3, 1, 11, 3, 6, -1, -1, -1, -1,
    6, 8, 4, 6, 11, 8, 2, 10, 1, -1, -1, -1, -1, -1, -1, -1,
    1, 2, 10, 3, 0, 11, 0, 6, 11, 0, 4, 6, -1, -1, -1, -1,
    4, 11, 8, 4, 6, 11, 0, 2, 9, 2, 10, 9, -1, -1, -1, -1,
    10, 9, 3, 10, 3, 2, 9, 4, 3, 11, 3, 6, 4, 6, 3, -1,
    8, 2, 3, 8, 4, 2, 4, 6, 2, -1, -1, -1, -1, -1, -1, -1,
    0, 4, 2, 4, 6, 2, -1, -1, -1, -1, -1, -1, -1, -1, -1, -1,
    1, 9, 0, 2, 3, 4, 2, 4, 6, 4, 3, 8, -1, -1, -1, -1,
    1, 9, 4, 1, 4, 2, 2, 4, 6, -1, -1, -1, -1, -1, -1, -1,
    8, 1, 3, 8, 6, 1, 8, 4, 6, 6, 10, 1, -1, -1, -1, -1,
    10, 1, 0, 10, 0, 6, 6, 0, 4, -1, -1, -1, -1, -1, -1, -1,
    4, 6, 3, 4, 3, 8, 6, 10, 3, 0, 3, 9, 10, 9, 3, -1,
    10, 9, 4, 6, 10, 4, -1, -1, -1, -1, -1, -1, -1, -1, -1, -1,
    4, 9, 5, 7, 6, 11, -1, -1, -1, -1, -1, -1, -1, -1, -1, -1,
    0, 8, 3, 4, 9, 5, 11, 7, 6, -1, -1, -1, -1, -1, -1, -1,
    5, 0, 1, 5, 4, 0, 7, 6, 11, -1, -1, -1, -1, -1, -1, -1,
    11, 7, 6, 8, 3, 4, 3, 5, 4, 3, 1, 5, -1, -1, -1, -1,
    9, 5, 4, 10, 1, 2, 7, 6, 11, -1, -1, -1, -1, -1, -1, -1,
    6, 11, 7, 1, 2, 10, 0, 8, 3, 4, 9, 5, -1, -1, -1, -1,
    7, 6, 11, 5, 4, 10, 4, 2, 10, 4, 0, 2, -1, -1, -1, -1,
    3, 4, 8, 3, 5, 4, 3, 2, 5, 10, 5, 2, 11, 7, 6, -1,
    7, 2, 3, 7, 6, 2, 5, 4, 9, -1, -1, -1, -1, -1, -1, -1,
    9, 5, 4, 0, 8, 6, 0, 6, 2, 6, 8, 7, -1, -1, -1, -1,
    3, 6, 2, 3, 7, 6, 1, 5, 0, 5, 4, 0, -1, -1, -1, -1,
    6, 2, 8, 6, 8, 7, 2, 1, 8, 4, 8, 5, 1, 5, 8, -1,
    9, 5, 4, 10, 1, 6, 1, 7, 6, 1, 3, 7, -1, -1, -1, -1,
    1, 6, 10, 1, 7, 6, 1, 0, 7, 8, 7, 0, 9, 5, 4, -1,
    4, 0, 10, 4, 10, 5, 0, 3, 10, 6, 10, 7, 3, 7, 10, -1,
    7, 6, 10, 7, 10, 8, 5, 4, 10, 4, 8, 10, -1, -1, -1, -1,
    6, 9, 5, 6, 11, 9, 11, 8, 9, -1, -1, -1, -1, -1, -1, -1,
    3, 6, 11, 0, 6, 3, 0, 5, 6, 0, 9, 5, -1, -1, -1, -1,
    0, 11, 8, 0, 5, 11, 0, 1, 5, 5, 6, 11, -1, -1, -1, -1,
    6, 11, 3, 6, 3, 5, 5, 3, 1, -1, -1, -1, -1, -1, -1, -1,
    1, 2, 10, 9, 5, 11, 9, 11, 8, 11, 5, 6, -1, -1, -1, -1,
    0, 11, 3, 0, 6, 11, 0, 9, 6, 5, 6, 9, 1, 2, 10, -1,
    11, 8, 5, 11, 5, 6, 8, 0, 5, 10, 5, 2, 0, 2, 5, -1,
    6, 11, 3, 6, 3, 5, 2, 10, 3, 10, 5, 3, -1, -1, -1, -1,
    5, 8, 9, 5, 2, 8, 5, 6, 2, 3, 8, 2, -1, -1, -1, -1,
    9, 5, 6, 9, 6, 0, 0, 6, 2, -1, -1, -1, -1, -1, -1, -1,
    1, 5, 8, 1, 8, 0, 5, 6, 8, 3, 8, 2, 6, 2, 8, -1,
    1, 5, 6, 2, 1, 6, -1, -1, -1, -1, -1, -1, -1, -1, -1, -1,
    1, 3, 6, 1, 6, 10, 3, 8, 6, 5, 6, 9, 8, 9, 6, -1,
    10, 1, 0, 10, 0, 6, 9, 5, 0, 5, 6, 0, -1, -1, -1, -1,
    0, 3, 8, 5, 6, 10, -1, -1, -1, -1, -1, -1, -1, -1, -1, -1,
    10, 5, 6, -1, -1, -1, -1, -1, -1, -1, -1, -1, -1, -1, -1, -1,
];

/// Triangle topology for the sign patterns 192 through 255; see
/// [`TRIANGLE_TABLE_Q0`].
pub const TRIANGLE_TABLE_Q3: [i8; 1024] = [
    11, 5, 10, 7, 5, 11, -1, -1, -1, -1, -1, -1, -1, -1, -1, -1,
    11, 5, 10, 11, 7, 5, 8, 3, 0, -1, -1, -1, -1, -1, -1, -1,
    5, 11, 7, 5, 10, 11, 1, 9, 0, -1, -1, -1, -1, -1, -1, -1,
    10, 7, 5, 10, 11, 7, 9, 8, 1, 8, 3, 1, -1, -1, -1, -1,
    11, 1, 2, 11, 7, 1, 7, 5, 1, -1, -1, -1, -1, -1, -1, -1,
    0, 8, 3, 1, 2, 7, 1, 7, 5, 7, 2, 11, -1, -1, -1, -1,
    9, 7, 5, 9, 2, 7, 9, 0, 2, 2, 11, 7, -1, -1, -1, -1,
    7, 5, 2, 7, 2, 11, 5, 9, 2, 3, 2, 8, 9, 8, 2, -1,
    2, 5, 10, 2, 3, 5, 3, 7, 5, -1, -1, -1, -1, -1, -1, -1,
    8, 2, 0, 8, 5, 2, 8, 7, 5, 10, 2, 5, -1, -1, -1, -1,
    9, 0, 1, 5, 10, 3, 5, 3, 7, 3, 10, 2, -1, -1, -1, -1,
    9, 8, 2, 9, 2, 1, 8, 7, 2, 10, 2, 5, 7, 5, 2, -1,
    1, 3, 5, 3, 7, 5, -1, -1, -1, -1, -1, -1, -1, -1, -1, -1,
    0, 8, 7, 0, 7, 1, 1, 7, 5, -1, -1, -1, -1, -1, -1, -1,
    9, 0, 3, 9, 3, 5, 5, 3, 7, -1, -1, -1, -1, -1, -1, -1,
    9, 8, 7, 5, 9, 7, -1, -1, -1, -1, -1, -1, -1, -1, -1, -1,
    5, 8, 4, 5, 10, 8, 10, 11, 8, -1, -1, -1, -1, -1, -1, -1,
    5, 0, 4, 5, 11, 0, 5, 10, 11, 11, 3, 0, -1, -1, -1, -1,
    0, 1, 9, 8, 4, 10, 8, 10, 11, 10, 4, 5, -1, -1, -1, -1,
    10, 11, 4, 10, 4, 5, 11, 3, 4, 9, 4, 1, 3, 1, 4, -1,
    2, 5, 1, 2, 8, 5, 2, 11, 8, 4, 5, 8, -1, -1, -1, -1,
    0, 4, 11, 0, 11, 3, 4, 5, 11, 2, 11, 1, 5, 1, 11, -1,
    0, 2, 5, 0, 5, 9, 2, 11, 5, 4, 5, 8, 11, 8, 5, -1,
    9, 4, 5, 2, 11, 3, -1, -1, -1, -1, -1, -1, -1, -1, -1, -1,
    2, 5, 10, 3, 5, 2, 3, 4, 5, 3, 8, 4, -1, -1, -1, -1,
    5, 10, 2, 5, 2, 4, 4, 2, 0, -1, -1, -1, -1, -1, -1, -1,
    3, 10, 2, 3, 5, 10, 3, 8, 5, 4, 5, 8, 0, 1, 9, -1,
    5, 10, 2, 5, 2, 4, 1, 9, 2, 9, 4, 2, -1, -1, -1, -1,
    8, 4, 5, 8, 5, 3, 3, 5, 1, -1, -1, -1, -1, -1, -1, -1,
    0, 4, 5, 1, 0, 5, -1, -1, -1, -1, -1, -1, -1, -1, -1, -1,
    8, 4, 5, 8, 5, 3, 9, 0, 5, 0, 3, 5, -1, -1, -1, -1,
    9, 4, 5, -1, -1, -1, -1, -1, -1, -1, -1, -1, -1, -1, -1, -1,
    4, 11, 7, 4, 9, 11, 9, 10, 11, -1, -1, -1, -1, -1, -1, -1,
    0, 8, 3, 4, 9, 7, 9, 11, 7, 9, 10, 11, -1, -1, -1, -1,
    1, 10, 11, 1, 11, 4, 1, 4, 0, 7, 4, 11, -1, -1, -1, -1,
    3, 1, 4, 3, 4, 8, 1, 10, 4, 7, 4, 11, 10, 11, 4, -1,
    4, 11, 7, 9, 11, 4, 9, 2, 11, 9, 1, 2, -1, -1, -1, -1,
    9, 7, 4, 9, 11, 7, 9, 1, 11, 2, 11, 1, 0, 8, 3, -1,
    11, 7, 4, 11, 4, 2, 2, 4, 0, -1, -1, -1, -1, -1, -1, -1,
    11, 7, 4, 11, 4, 2, 8, 3, 4, 3, 2, 4, -1, -1, -1, -1,
    2, 9, 10, 2, 7, 9, 2, 3, 7, 7, 4, 9, -1, -1, -1, -1,
    9, 10, 7, 9, 7, 4, 10, 2, 7, 8, 7, 0, 2, 0, 7, -1,
    3, 7, 10, 3, 10, 2, 7, 4, 10, 1, 10, 0, 4, 0, 10, -1,
    1, 10, 2, 8, 7, 4, -1, -1, -1, -1, -1, -1, -1, -1, -1, -1,
    4, 9, 1, 4, 1, 7, 7, 1, 3, -1, -1, -1, -1, -1, -1, -1,
    4, 9, 1, 4, 1, 7, 0, 8, 1, 8, 7, 1, -1, -1, -1, -1,
    4, 0, 3, 7, 4, 3, -1, -1, -1, -1, -1, -1, -1, -1, -1, -1,
    4, 8, 7, -1, -1, -1, -1, -1, -1, -1, -1, -1, -1, -1, -1, -1,
    9, 10, 8, 10, 11, 8, -1, -1, -1, -1, -1, -1, -1, -1, -1, -1,
    3, 0, 9, 3, 9, 11, 11, 9, 10, -1, -1, -1, -1, -1, -1, -1,
    0, 1, 10, 0, 10, 8, 8, 10, 11, -1, -1, -1, -1, -1, -1, -1,
    3, 1, 10, 11, 3, 10, -1, -1, -1, -1, -1, -1, -1, -1, -1, -1,
    1, 2, 11, 1, 11, 9, 9, 11, 8, -1, -1, -1, -1, -1, -1, -1,
    3, 0, 9, 3, 9, 11, 1, 2, 9, 2, 11, 9, -1, -1, -1, -1,
    0, 2, 11, 8, 0, 11, -1, -1, -1, -1, -1, -1, -1, -1, -1, -1,
    3, 2, 11, -1, -1, -1, -1, -1, -1, -1, -1, -1, -1, -1, -1, -1,
    2, 3, 8, 2, 8, 10, 10, 8, 9, -1, -1, -1, -1, -1, -1, -1,
    9, 10, 2, 0, 9, 2, -1, -1, -1, -1, -1, -1, -1, -1, -1, -1,
    2, 3, 8, 2, 8, 10, 0, 1, 8, 1, 10, 8, -1, -1, -1, -1,
    1, 10, 2, -1, -1, -1, -1, -1, -1, -1, -1, -1, -1, -1, -1, -1,
    1, 3, 8, 9, 1, 8, -1, -1, -1, -1, -1, -1, -1, -1, -1, -1,
    0, 9, 1, -1, -1, -1, -1, -1, -1, -1, -1, -1, -1, -1, -1, -1,
    0, 3, 8, -1, -1, -1, -1, -1, -1, -1, -1, -1, -1, -1, -1, -1,
    -1, -1, -1, -1, -1, -1, -1, -1, -1, -1, -1, -1, -1, -1, -1, -1,
];

/// Entry `k` of the triangle-table row for sign pattern `ci`. Opaque so
/// that reasoning about a symbolic sign pattern does not unfold the table
/// data; [`tri_entry`] and the table lemmas reveal it.
#[verifier::opaque]
pub open spec fn spec_tri_entry(ci: int, k: int) -> i8
    recommends
        0 <= ci < 256,
        0 <= k < 16,
{
    if ci < 64 {
        TRIANGLE_TABLE_Q0[ci * 16 + k]
    } else if ci < 128 {
        TRIANGLE_TABLE_Q1[(ci - 64) * 16 + k]
    } else if ci < 192 {
        TRIANGLE_TABLE_Q2[(ci - 128) * 16 + k]
    } else {
        TRIANGLE_TABLE_Q3[(ci - 192) * 16 + k]
    }
}

/// Looks up entry `k` of the triangle-table row for sign pattern `ci`.
pub fn tri_entry(ci: usize, k: usize) -> (r: i8)
    requires
        ci < 256,
        k < 16,
    ensures
        r == spec_tri_entry(ci as int, k as int),
{
    proof {
        reveal(spec_tri_entry);
    }
    if ci < 64 {
        TRIANGLE_TABLE_Q0[ci * 16 + k]
    } else if ci < 128 {
        TRIANGLE_TABLE_Q1[(ci - 64) * 16 + k]
    } else if ci < 192 {
        TRIANGLE_TABLE_Q2[(ci - 128) * 16 + k]
    } else {
        TRIANGLE_TABLE_Q3[(ci - 192) * 16 + k]
    }
}

/// Every triangle-table entry is a crossed-edge id in `[0, 12)` or the -1
/// sentinel.
#[verifier::rlimit(100)]
pub proof fn lemma_tri_entry_bounds(ci: int, k: int)
    requires
        0 <= ci < 256,
        0 <= k < 16,
    ensures
        -1 <= spec_tri_entry(ci, k) < 12,
{
    reveal(spec_tri_entry);
    assert(forall|i: int| 0 <= i < 1024 ==> -1 <= #[trigger] TRIANGLE_TABLE_Q0[i] < 12);
    assert(forall|i: int| 0 <= i < 1024 ==> -1 <= #[trigger] TRIANGLE_TABLE_Q1[i] < 12);
    assert(forall|i: int| 0 <= i < 1024 ==> -1 <= #[trigger] TRIANGLE_TABLE_Q2[i] < 12);
    assert(forall|i: int| 0 <= i < 1024 ==> -1 <= #[trigger] TRIANGLE_TABLE_Q3[i] < 12);
}

/// [`lemma_tri_triples_whole`], restricted to the sign patterns stored in
/// [`TRIANGLE_TABLE_Q0`].
#[verifier::rlimit(100)]
proof fn lemma_tri_triples_whole_q0(ci: int, k: int)
    requires
        0 <= ci < 64,
        0 <= k,
        k + 2 < 16,
        k % 3 == 0,
        spec_tri_entry(ci, k) >= 0,
    ensures
        spec_tri_entry(ci, k + 1) >= 0,
        spec_tri_entry(ci, k + 2) >= 0,
{
    reveal(spec_tri_entry);
    assert(forall|i: int|
        0 <= i < 1024 && i % 16 < 13 && i % 16 % 3 == 0 && #[trigger] TRIANGLE_TABLE_Q0[i]
            >= 0 ==> TRIANGLE_TABLE_Q0[i + 1] >= 0 && TRIANGLE_TABLE_Q0[i + 2] >= 0);
    assert((ci * 16 + k) % 16 == k) by (nonlinear_arith)
        requires
            0 <= ci < 64 && 0 <= k < 16,
    ;
}

/// [`lemma_tri_triples_whole`], restricted to the sign patterns stored in
/// [`TRIANGLE_TABLE_Q1`].
#[verifier::rlimit(100)]
proof fn lemma_tri_triples_whole_q1(ci: int, k: int)
    requires
        64 <= ci < 128,
        0 <= k,
        k + 2 < 16,
        k % 3 == 0,
        spec_tri_entry(ci, k) >= 0,
    ensures
        spec_tri_entry(ci, k + 1) >= 0,
        spec_tri_entry(ci, k + 2) >= 0,
{
    reveal(spec_tri_entry);
    assert(forall|i: int|
        0 <= i < 1024 && i % 16 < 13 && i % 16 % 3 == 0 && #[trigger] TRIANGLE_TABLE_Q1[i]
            >= 0 ==> TRIANGLE_TABLE_Q1[i + 1] >= 0 && TRIANGLE_TABLE_Q1[i + 2] >= 0);
    assert(((ci - 64) * 16 + k) % 16 == k) by (nonlinear_arith)
        requires
            64 <= ci < 128 && 0 <= k < 16,
    ;
}

/// [`lemma_tri_triples_whole`], restricted to the sign patterns stored in
/// [`TRIANGLE_TABLE_Q2`].
#[verifier::rlimit(100)]
proof fn lemma_tri_triples_whole_q2(ci: int, k: int)
    requires
        128 <= ci < 192,
        0 <= k,
        k + 2 < 16,
        k % 3 == 0,
        spec_tri_entry(ci, k) >= 0,
    ensures
        spec_tri_entry(ci, k + 1) >= 0,
        spec_tri_entry(ci, k + 2) >= 0,
{
    reveal(spec_tri_entry);
    assert(forall|i: int|
        0 <= i < 1024 && i % 16 < 13 && i % 16 % 3 == 0 && #[trigger] TRIANGLE_TABLE_Q2[i]
            >= 0 ==> TRIANGLE_TABLE_Q2[i + 1] >= 0 && TRIANGLE_TABLE_Q2[i + 2] >= 0);
    assert(((ci - 128) * 16 + k) % 16 == k) by (nonlinear_arith)
        requires
            128 <= ci < 192 && 0 <= k < 16,
    ;
}

/// [`lemma_tri_triples_whole`], restricted to the sign patterns stored in
/// [`TRIANGLE_TABLE_Q3`].
#[verifier::rlimit(100)]
proof fn lemma_tri_triples_whole_q3(ci: int, k: int)
    requires
        192 <= ci < 256,
        0 <= k,
        k + 2 < 16,
        k % 3 == 0,
        spec_tri_entry(ci, k) >= 0,
    ensures
        spec_tri_entry(ci, k + 1) >= 0,
        spec_tri_entry(ci, k + 2) >= 0,
{
    reveal(spec_tri_entry);
    assert(forall|i: int|
        0 <= i < 1024 && i % 16 < 13 && i % 16 % 3 == 0 && #[trigger] TRIANGLE_TABLE_Q3[i]
            >= 0 ==> TRIANGLE_TABLE_Q3[i + 1] >= 0 && TRIANGLE_TABLE_Q3[i + 2] >= 0);
    assert(((ci - 192) * 16 + k) % 16 == k) by (nonlinear_arith)
        requires
            192 <= ci < 256 && 0 <= k < 16,
    ;
}

/// A triangle-table row never truncates a triple: when the slot that opens
/// a triple holds an edge id rather than the sentinel, the two slots after
/// it hold edge ids too.
pub proof fn lemma_tri_triples_whole(ci: int, k: int)
    requires
        0 <= ci < 256,
        0 <= k,
        k + 2 < 16,
        k % 3 == 0,
        spec_tri_entry(ci, k) >= 0,
    ensures
        spec_tri_entry(ci, k + 1) >= 0,
        spec_tri_entry(ci, k + 2) >= 0,
{
    if ci < 64 {
        lemma_tri_triples_whole_q0(ci, k);
    } else if ci < 128 {
        lemma_tri_triples_whole_q1(ci, k);
    } else if ci < 192 {
        lemma_tri_triples_whole_q2(ci, k);
    } else {
        lemma_tri_triples_whole_q3(ci, k);
    }
}

/// Every corner index in the edge-connection table is in `[0, 8)`.
pub proof fn lemma_edge_connection_bounds(e: int)
    requires
        0 <= e < 12,
    ensures
        0 <= EDGE_CONNECTION[e].0 < 8,
        0 <= EDGE_CONNECTION[e].1 < 8,
{
    assert(forall|i: int| 0 <= i < 12 ==> #[trigger] EDGE_CONNECTION[i].0 < 8
        && EDGE_CONNECTION[i].1 < 8);
}

/// The crossed-edge mask for sign pattern `ci`. Opaque so that reasoning
/// about a symbolic sign pattern does not unfold the table data;
/// [`edge_mask`] and the table lemmas reveal it.
#[verifier::opaque]
pub open spec fn spec_edge_mask(ci: int) -> u16
    recommends
        0 <= ci < 256,
{
    EDGE_TABLE[ci]
}

/// The two sign patterns that cross no edge are the all-clear and all-set
/// ones: a cell entirely on one side of the surface yields nothing.
pub proof fn lemma_edge_mask_uniform()
    ensures
        spec_edge_mask(0) == 0,
        spec_edge_mask(255) == 0,
{
    reveal(spec_edge_mask);
    assert(EDGE_TABLE[0int] == 0);
    assert(EDGE_TABLE[255int] == 0);
}

/// The rows of the eight single-corner sign patterns (exactly one corner
/// below the isolevel): each crosses edges and lists exactly one triangle,
/// whose three edges are the ones incident to that corner.
pub proof fn lemma_single_corner_rows()
    ensures
        forall|c: int| 0 <= c < 8 ==> #[trigger] spec_edge_mask(pow2_8(c)) != 0,
        forall|c: int| 0 <= c < 8 ==> #[trigger] spec_tri_entry(pow2_8(c), 3) == -1,
        forall|c: int, j: int|
            0 <= c < 8 && 0 <= j < 3 ==> 0 <= #[trigger] spec_tri_entry(pow2_8(c), j) < 12
                && (EDGE_CONNECTION[spec_tri_entry(pow2_8(c), j) as int].0 == c
                || EDGE_CONNECTION[spec_tri_entry(pow2_8(c), j) as int].1 == c),
{
    reveal(spec_tri_entry);
    reveal(spec_edge_mask);
    assert forall|c: int| 0 <= c < 8 implies #[trigger] spec_edge_mask(pow2_8(c)) != 0
        && spec_tri_entry(pow2_8(c), 3) == -1 && (forall|j: int|
        0 <= j < 3 ==> 0 <= #[trigger] spec_tri_entry(pow2_8(c), j) < 12
            && (EDGE_CONNECTION[spec_tri_entry(pow2_8(c), j) as int].0 == c
            || EDGE_CONNECTION[spec_tri_entry(pow2_8(c), j) as int].1 == c)) by {
        reveal(spec_tri_entry);
        reveal(spec_edge_mask);
        if c == 0 {
            single_corner_row_facts(1, 0, 0, 8, 3);
        } else if c == 1 {
            single_corner_row_facts(2, 1, 0, 1, 9);
        } else if c == 2 {
            single_corner_row_facts(4, 2, 1, 2, 10);
        } else if c == 3 {
            single_corner_row_facts(8, 3, 3, 11, 2);
        } else if c == 4 {
            single_corner_row_facts(16, 4, 4, 7, 8);
        } else if c == 5 {
            single_corner_row_facts(32, 5, 9, 5, 4);
        } else if c == 6 {
            single_corner_row_facts(64, 6, 10, 6, 5);
        } else {
            single_corner_row_facts(128, 7, 7, 6, 11);
        }
    }
}

/// The sign pattern with only corner `c`'s bit set, as an integer.
pub open spec fn pow2_8(c: int) -> int
    recommends
        0 <= c < 8,
{
    if c == 0 {
        1
    } else if c == 1 {
        2
    } else if c == 2 {
        4
    } else if c == 3 {
        8
    } else if c == 4 {
        16
    } else if c == 5 {
        32
    } else if c == 6 {
        64
    } else {
        128
    }
}

/// Checks one single-corner row of the tables against the literal data:
/// `e0, e1, e2` are its triangle's edge ids and every one is incident to
/// corner `c`.
proof fn single_corner_row_facts(ci: int, c: int, e0: i8, e1: i8, e2: i8)
    requires
        0 <= ci < 256,
        0 <= c < 8,
        spec_edge_mask(ci) != 0,
        spec_tri_entry(ci, 0) == e0,
        spec_tri_entry(ci, 1) == e1,
        spec_tri_entry(ci, 2) == e2,
        spec_tri_entry(ci, 3) == -1,
        0 <= e0 < 12 && (EDGE_CONNECTION[e0 as int].0 == c || EDGE_CONNECTION[e0 as int].1 == c),
        0 <= e1 < 12 && (EDGE_CONNECTION[e1 as int].0 == c || EDGE_CONNECTION[e1 as int].1 == c),
        0 <= e2 < 12 && (EDGE_CONNECTION[e2 as int].0 == c || EDGE_CONNECTION[e2 as int].1 == c),
    ensures
        spec_edge_mask(ci) != 0,
        spec_tri_entry(ci, 3) == -1,
        forall|j: int|
            0 <= j < 3 ==> 0 <= #[trigger] spec_tri_entry(ci, j) < 12
                && (EDGE_CONNECTION[spec_tri_entry(ci, j) as int].0 == c
                || EDGE_CONNECTION[spec_tri_entry(ci, j) as int].1 == c),
{
    assert forall|j: int| 0 <= j < 3 implies 0 <= #[trigger] spec_tri_entry(ci, j) < 12
        && (EDGE_CONNECTION[spec_tri_entry(ci, j) as int].0 == c
        || EDGE_CONNECTION[spec_tri_entry(ci, j) as int].1 == c) by {
        if j == 0 {
        } else if j == 1 {
        } else {
        }
    }
}

/// Looks up the crossed-edge mask for sign pattern `ci`.
pub fn edge_mask(ci: usize) -> (r: u16)
    requires
        ci < 256,
    ensures
        r == spec_edge_mask(ci as int),
{
    proof {
        reveal(spec_edge_mask);
    }
    EDGE_TABLE[ci]
}

/// Looks up the corner pair that cube edge `e` connects.
pub fn edge_connection(e: usize) -> (r: (usize, usize))
    requires
        e < 12,
    ensures
        r == EDGE_CONNECTION[e as int],
{
    EDGE_CONNECTION[e]
}

} // verus!
