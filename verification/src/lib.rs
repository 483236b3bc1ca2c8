//! Meshing of a two-level terrain chunk.
//!
//! A chunk is a square grid of cells, each classified as [`level::Level::Low`]
//! or [`level::Level::High`]. The mesher turns such a grid into a triangle
//! list: one horizontal quad per cell at the cell's elevation, and a vertical
//! quad on every cell edge across which the level changes.
//!
//! All coordinates are integers. Noise sampling and the conversion to the
//! number formats of a renderer are left to the caller.
pub mod level;

pub mod mesh;
pub mod chunk;
pub mod counts;
pub mod placement;
pub mod facing;
pub mod cube;
