//! Keyboard splitter: turns several physical keyboards into independent
//! virtual Xbox 360 controllers. This crate holds the platform independent
//! logic: the data model, key naming, controller report math, presets,
//! device bookkeeping and the engine's state transitions.

pub mod controller;
pub mod crash;
pub mod engine;
pub mod input;
pub mod model;
pub mod mapping;
pub mod presets;
pub mod profiles;
pub mod text;
