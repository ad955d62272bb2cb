//! Core of a CPU-resident triangle rasterizer: clip-space tag types, the
//! multi-sample coverage mask, pixel bounding boxes, the multi-sampled color
//! buffer with its box-filter resolve, dirty-tile bookkeeping, a fixed-capacity
//! vector, and PNG-backed textures.
//!
//! The floating-point stages of the pipeline (clipping, triangle setup, edge
//! functions, interpolation, depth testing) live in the surrounding
//! application; this crate holds the integer logic they drive.

pub mod bounding_box;
pub mod buffers;
pub mod coverage;
pub mod fixed_vec;
pub mod space;
pub mod texture;
