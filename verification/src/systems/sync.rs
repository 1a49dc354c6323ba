//! The sync of the box scene: bodies are moved, never turned.

use crate::sync::{place_all, placed_all, Convert, Pose, Transform};
use vstd::prelude::*;

verus! {

/// Moves the transform of a body to where its pose is.
pub struct PoseTransformSyncSystem {}

impl PoseTransformSyncSystem {
    /// A new system.
    pub fn new() -> Self {
        Self {  }
    }

    /// Moves every body that has a pose and a transform to where its pose is; rotation and
    /// scale stay. The two lists are indexed by entity.
    pub fn run<P: Convert, Q, R, S>(
        &mut self,
        poses: &Vec<Option<Pose<P, Q>>>,
        transforms: &mut Vec<Option<Transform<P::Output, R, S>>>,
    )
        ensures
            final(transforms)@ == placed_all(poses@, old(transforms)@),
    {
        place_all(poses, transforms)
    }
}

} // verus!
