//! A fixed-size, row-major 2D grid container with a verified indexing
//! contract, together with the cell model, boundary-point placement and
//! draw-geometry computation of a small interactive grid demo.
//!
//! The windowing, input polling and pixel painting live outside this
//! library; it only computes values (cells, coordinates, boxes) that a
//! thin rendering layer consumes.

pub mod cells;
pub mod draw;
pub mod grid;
pub mod place;
pub mod state;
