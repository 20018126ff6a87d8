//! Keyboard input: the platform independent part of device detection.

pub mod devices;
pub mod capture;
