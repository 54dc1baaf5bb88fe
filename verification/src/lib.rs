//! A camera-follow controller for a small demo scene, built over a
//! data-oriented entity/component registry.
//!
//! Geometry is carried in fixed-point coordinates (1000 sub-units per world
//! unit) and frame time in milliseconds, so every step of the follow
//! behaviour -- the dead-zone chase, the constant lateral drift, the height
//! lock and the re-orientation toward the target -- is stated and proved
//! exactly. Rendering, asset loading and windowing are a host concern and are
//! not modelled here.

pub mod follow;
pub mod math;
pub mod scene;
pub mod vec3;
pub mod world;
