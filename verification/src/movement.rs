//! Movement of the visible bodies.

pub mod systems;
