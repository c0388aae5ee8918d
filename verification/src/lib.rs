//! Camera configuration for a ray tracer.
//!
//! A [`devices::CameraBuilder`] collects the choices a caller makes, fills every
//! gap with a fixed default and hands out an immutable [`devices::Camera`].
//! Coordinates and optics parameters are IEEE 754 binary64 numbers; this crate
//! carries them as bit patterns (see [`units::Scalar`]) and never computes with
//! them, so every function here is total and exact.

pub mod devices;
pub mod units;
