//! The systems of the box scene.

pub mod deletion;
pub mod emission;
pub mod movement;
pub mod sync;
