//! Core logic of a free-fly scene viewer: camera orientation and movement,
//! the per-frame movement-key snapshot, terrain lattice meshing, mesh
//! geometry checks with GPU handle ownership, and shader diagnostics.
//!
//! All quantities are integers. Angles are binary angle units (a full turn
//! is 2^32), positions are micro-units, basis vector components are
//! millionths and frame times are microseconds. Converting to and from
//! floating point happens at the application boundary.
pub mod camera;
pub mod input;
pub mod mesh;
pub mod shader;
pub mod terrain;
