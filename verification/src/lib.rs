//! Real-time frame-capture and head-orientation pipeline for mirroring a
//! captured screen onto a head-tracked virtual surface.
//!
//! The crate holds the verified core of the pipeline: pixel-format
//! normalization of captured frames, the single-slot latest-wins hand-off of
//! frames into the render loop, the timestamp bookkeeping of the inertial
//! orientation integrator, the shared orientation snapshot, and the per-tick
//! texture and camera update policies. Platform capture, the inertial filter's
//! floating-point arithmetic, and the rendering engine live outside the crate
//! and talk to it through plain values.

pub mod frame;
pub mod handoff;
pub mod orientation;
pub mod texture;
