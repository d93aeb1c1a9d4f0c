//! Core of a stochastic path tracer: colour arithmetic, the depth policy of
//! the radiance integrator and the nearest-hit selection of a scene.

pub mod colour;
pub mod integrator;
pub mod scene;
pub mod ppm;
