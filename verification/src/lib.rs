//! Grid-based artificial-life simulation core: genomes, a board of tiles and
//! the simulation driver, with machine-checked contracts.

pub mod cells;
pub mod error;
pub mod life;
pub mod random;
pub mod render;
pub mod simulation;
pub mod text;
pub mod world;
