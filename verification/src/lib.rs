//! Differential-drive rover core: a rigid-body rig (chassis, two motorized
//! wheels, ground plane) assembled from validated geometry, and the per-step
//! control path that turns four directional key states into per-wheel motor
//! targets. All physical scalars are fixed-point integers in thousandths
//! (milli-units); the embedding application converts them to the float types
//! of its physics and rendering engines at the boundary.

pub mod assembler;
pub mod control;
pub mod input;
pub mod rig;
pub mod telemetry;
pub mod texture;
