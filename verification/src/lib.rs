//! Frame-staged physics synchronisation for an entity-component host.
//!
//! The crate holds the decisions of a physics integration: which stages a
//! bundle registers and in what order they may run, how contact events are
//! fanned out to their consumers and answered, when an emitter fires, and
//! which parts of a pose reach the visible transform.

pub mod arena;
pub mod bundle;
pub mod contact;
pub mod dispatch;
pub mod frame;
pub mod movement;
pub mod resources;
pub mod state;
pub mod sync;
pub mod system;
pub mod systems;
