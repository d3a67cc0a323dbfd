//! Integer-level core of a small path tracer: the vector container, the
//! pixel buffer and its PPM encoding, camera configuration and pixel layout,
//! nearest-hit selection over a scene, sphere root selection, and the
//! bounce-depth state machine that drives the radiance estimate.
pub mod camera;
pub mod hit;
pub mod image;
pub mod ppm;
pub mod trace;
pub mod vector;
