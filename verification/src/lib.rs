//! Platform layer of a screen-calibration tool for a handheld device: a
//! normalized key vocabulary, per-backend key-code translation, the event
//! filtering rules of each backend, and the rotated pixel surface that is
//! copied into the device framebuffer.

pub mod input;
pub mod platform;
pub mod app;
