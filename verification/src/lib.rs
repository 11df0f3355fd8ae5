//! The decision kernel of a Monte-Carlo ray tracer.
//!
//! A ray tracer computes with real numbers: vectors, roots of quadratics,
//! reflectances. What it decides with them is discrete: which root counts,
//! which surface is nearest, whether a material scatters a ray, when a light
//! path ends, where a pixel stands in the frame. This library holds those
//! decisions. Its callers do the arithmetic and hand it what the decisions
//! read: the order of distances, the answers of comparisons, and integers.

pub mod binary64;
pub mod config;
pub mod distance;
pub mod frame;
pub mod hit;
pub mod limits;
pub mod material;
pub mod progress;
pub mod raster;
pub mod scene;
pub mod trace;
