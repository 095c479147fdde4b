//! Device registry, render planning and event translation for multi-button
//! control decks with optional encoder display strips.

pub mod raster;
pub mod payload;
pub mod device;
pub mod registry;
pub mod render;
pub mod broadcast;
pub mod discovery;
