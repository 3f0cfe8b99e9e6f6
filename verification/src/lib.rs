//! A depth-bounded Monte Carlo path-tracing core: a scene owns render
//! objects, materials and lights, and answers the radiance seen along a
//! ray by nearest-hit search and a recursive, importance-sampled
//! estimator of the rendering equation.
//!
//! All scalar quantities (coordinates, color components, probability
//! densities) are fixed-point integers counted in units of
//! `fixed::SCALE` per whole, so every arithmetic step has an exact
//! stated meaning.

pub mod fixed;
pub mod vec3;
pub mod color;
pub mod ray;
pub mod intersection;
pub mod objects;
pub mod materials;
pub mod samplers;
pub mod scene;
pub mod laws;
