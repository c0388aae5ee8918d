//! The devices a scene is rendered with.

pub mod camera;

pub use camera::{Camera, CameraBuilder};
