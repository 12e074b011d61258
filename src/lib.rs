//! Conway's Game of Life on an unbounded integer lattice: a sparse live-cell
//! store, the generation step, and the camera/viewport arithmetic used to draw
//! and edit the lattice.

pub mod cells;
pub mod life;
pub mod patterns;
pub mod view;
pub mod game;
pub mod raster;
