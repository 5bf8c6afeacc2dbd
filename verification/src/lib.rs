//! The chaos game on a canvas of integer coordinates: a store of fixed
//! vertices and of the points generated from them, the iteration window of
//! the interactive emulator, the animation driver, and a cache of the
//! drawing primitives handed to the host renderer.

pub mod point;
pub mod generator;
pub mod store;
pub mod render;
pub mod config;
pub mod emulator;
pub mod animation;
pub mod laws;
