//! Core of a voxel world engine: bit-packed chunk storage, a block
//! registry, neighborhood resolution across chunk seams, culled face
//! meshing, and bounded scheduling of background generation and meshing.

pub mod area;
pub mod blocks;
pub mod chunk;
pub mod generate;
pub mod math;
pub mod mesher;
pub mod refs;
pub mod scheduler;
