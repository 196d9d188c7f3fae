//! Marching Cubes surface extraction over a cubic voxel chunk.
//!
//! The library stores a scalar density field on a regular 3D lattice, walks
//! every interior cell of the lattice in a fixed row-major order, triangulates
//! each cell against an isolevel threshold with the classic Marching Cubes
//! tables, and assembles the resulting triangle soup into an indexed,
//! flat-shaded mesh.
//!
//! Scalar samples and mesh coordinates are carried as the bit patterns of
//! their single-precision encodings (`u32`), so that the verified code can
//! state exactly how every sample is stored, compared and deduplicated. The
//! only steps that compute with the encoded values themselves, rather than
//! with their bits, are edge interpolation and face normals; those are small
//! numeric kernels that a caller supplies, and the library pins down
//! everything around them.

pub mod chunk;
pub mod coord;
pub mod interp;
pub mod iters;
pub mod march;
pub mod mesh;
pub mod scalar;
pub mod sweep;
pub mod tables;
