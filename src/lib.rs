//! Grid bookkeeping for a small block-eating arcade game: layout arithmetic,
//! player movement on the grid, render-position synchronisation and eating.
//!
//! World coordinates are kept exact as integers counted in half units, so a
//! grid whose block size or total extent is odd still has exact centres.

pub mod components;
pub mod eating;
pub mod game;
pub mod grid;
pub mod level;
pub mod movement;
