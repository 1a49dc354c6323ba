//! Systems that move the transform of a body to its pose.

use crate::sync::{sync_all, synced_all, Convert, Pose, Transform};
use vstd::prelude::*;

verus! {

/// Moves and turns the transforms of bodies in three dimensions.
pub struct MovementSystem3;

impl MovementSystem3 {
    /// A new system.
    pub fn new() -> Self {
        Self {  }
    }

    /// Syncs every body that has a pose and a transform: translation and rotation follow
    /// the pose, the scale stays. The two lists are indexed by entity.
    pub fn run<P: Convert, R: Convert, S>(
        &mut self,
        poses: &Vec<Option<Pose<P, R>>>,
        transforms: &mut Vec<Option<Transform<P::Output, R::Output, S>>>,
    )
        ensures
            final(transforms)@ == synced_all(true, true, poses@, old(transforms)@),
    {
        sync_all(true, true, poses, transforms)
    }
}

/// Moves and turns the transforms of bodies in two dimensions.
pub struct MovementSystem2;

impl MovementSystem2 {
    /// A new system.
    pub fn new() -> Self {
        Self {  }
    }

    /// Syncs every body that has a pose and a transform: translation and rotation follow
    /// the pose, the scale stays. The two lists are indexed by entity.
    pub fn run<P: Convert, R: Convert, S>(
        &mut self,
        poses: &Vec<Option<Pose<P, R>>>,
        transforms: &mut Vec<Option<Transform<P::Output, R::Output, S>>>,
    )
        ensures
            final(transforms)@ == synced_all(true, true, poses@, old(transforms)@),
    {
        sync_all(true, true, poses, transforms)
    }
}

} // verus!
