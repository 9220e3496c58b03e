//! Verified core of a controller for a USB-HID key light: the binary
//! protocol codec, unit conversions between user-facing and device values,
//! and the synchronization engine that reconciles software writes with
//! asynchronous hardware feedback.

pub mod config;
pub mod convert;
pub mod engine;
pub mod protocol;
pub mod status;
