//! A verified core for a small real-time 3D cube viewer.
//!
//! The library models the per-frame simulation in fixed-point integers:
//! positions and directions are scaled by `SCALE` (millionths of a unit),
//! angles are in millionths of a degree.  The windowing and GPU collaborators
//! stay outside; the library turns input events and clock samples into a
//! numerically stable camera state and a view-projection transform.

pub mod fixed;
pub mod vec3;
pub mod trig;
pub mod camera;
pub mod clock;
pub mod mat4;
pub mod driver;
pub mod mesh;
