//! Core of an interactive 3D scene editor.
//!
//! The crate keeps a CPU-side authoritative model of typed geometric
//! entities (points, lines, beziers, circles, oriented markers) in sync
//! with byte-exact buffer mirrors destined for the GPU, resolves hover and
//! selection among overlapping entities with a distance tie-break policy,
//! and drives multi-frame interactions through explicit per-tick state
//! machines. Window/event-loop plumbing, shader sources and the float
//! matrix math of the camera live outside this crate; they exchange plain
//! fixed-point values with it.

pub mod bytes;
pub mod camera;
pub mod commands;
pub mod component_array;
pub mod component_collection;
pub mod components;
pub mod dispatchers;
pub mod errors;
mod ids;
pub mod math;
pub mod project;
