//! The sync of pose and transform without switches.

use crate::sync::{sync_all, synced_all, Convert, Pose, Transform};
use std::marker::PhantomData;
use vstd::prelude::*;

verus! {

/// Copies translation and rotation of the pose of a body into its transform.
pub struct PoseTransformSyncSystem<P, R> {
    m: PhantomData<(P, R)>,
}

impl<P, R> PoseTransformSyncSystem<P, R> {
    /// A new system.
    pub fn new() -> Self {
        Self { m: PhantomData }
    }
}

impl<P: Convert, R: Convert> PoseTransformSyncSystem<P, R> {
    /// Syncs every body that has a pose and a transform: translation and rotation follow
    /// the pose, the scale stays. The two lists are indexed by entity.
    pub fn run<S>(
        &mut self,
        poses: &Vec<Option<Pose<P, R>>>,
        transforms: &mut Vec<Option<Transform<P::Output, R::Output, S>>>,
    )
        ensures
            final(transforms)@ == synced_all(true, true, poses@, old(transforms)@),
    {
        sync_all(true, true, poses, transforms)
    }
}

} // verus!
