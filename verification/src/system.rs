//! Systems that work for every dimension.

pub mod sync;
