//! A recursive ray tracer over fixed-point arithmetic.
//!
//! Geometry, materials, the bounding-volume hierarchy, the shading
//! integrator and the per-pixel sampling loop all work on scaled 64-bit
//! integers, so every stage of the pipeline carries a proved contract.

pub mod bvh;
pub mod fx;
pub mod material;
pub mod rendering;
pub mod rng;
pub mod scene;
pub mod shapes;
pub mod structures;
pub mod utils;
pub mod vec;
