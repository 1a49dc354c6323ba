//! From the pose of a body to its visible transform.

use std::marker::PhantomData;
use vstd::prelude::*;

verus! {

/// Where a body is and how it is turned, in the quantities of the physics.
#[derive(Debug)]
pub struct Pose<P, R> {
    pub position: P,
    pub rotation: R,
}

/// Where a body is drawn, how it is turned and how large, in the quantities of the host.
#[derive(Debug)]
pub struct Transform<T, R, S> {
    pub translation: T,
    pub rotation: R,
    pub scale: S,
}

/// Conversion of a quantity of the physics into the quantity that the host draws with.
///
/// An implementation says in `converted` what the conversion gives, and `convert` is held
/// to it. Every contract of this module speaks of a conversion through `converted`.
pub trait Convert {
    /// The quantity of the host.
    type Output;

    /// What the conversion gives.
    spec fn converted(&self) -> Self::Output;

    /// Converts.
    fn convert(&self) -> (out: Self::Output)
        ensures
            out == self.converted(),
    ;
}

/// Conversion of a pose into a transform of the host.
pub trait AsTransform {
    /// The translation of the host.
    type Translation;

    /// The rotation of the host.
    type Rotation;

    /// The translation that the pose gives.
    spec fn translation(&self) -> Self::Translation;

    /// The rotation that the pose gives.
    spec fn rotation(&self) -> Self::Rotation;

    /// A transform at the place and with the turn of the pose, of the given scale.
    fn as_transform<S>(&self, scale: S) -> (t: Transform<Self::Translation, Self::Rotation, S>)
        ensures
            t.translation == self.translation(),
            t.rotation == self.rotation(),
            t.scale == scale,
    ;
}

impl<P: Convert, R: Convert> AsTransform for Pose<P, R> {
    type Translation = P::Output;

    type Rotation = R::Output;

    open spec fn translation(&self) -> P::Output {
        self.position.converted()
    }

    open spec fn rotation(&self) -> R::Output {
        self.rotation.converted()
    }

    fn as_transform<S>(&self, scale: S) -> (t: Transform<P::Output, R::Output, S>) {
        Transform { translation: self.position.convert(), rotation: self.rotation.convert(), scale }
    }
}

/// Copies the pose of a body into its transform; translation and rotation can be switched
/// off one by one.
pub struct PoseTransformSyncSystem<P, R> {
    m: PhantomData<(P, R)>,
    translation: bool,
    rotation: bool,
}

/// The transform of a body after a sync with the given switches.
pub open spec fn synced<P: Convert, R: Convert, S>(
    translation: bool,
    rotation: bool,
    pose: Pose<P, R>,
    transform: Transform<P::Output, R::Output, S>,
) -> Transform<P::Output, R::Output, S> {
    Transform {
        translation: if translation {
            pose.position.converted()
        } else {
            transform.translation
        },
        rotation: if rotation {
            pose.rotation.converted()
        } else {
            transform.rotation
        },
        scale: transform.scale,
    }
}

/// The transforms of all bodies after a sync: a body that has a pose and a transform is
/// synced, every other transform stays.
pub open spec fn synced_all<P: Convert, R: Convert, S>(
    translation: bool,
    rotation: bool,
    poses: Seq<Option<Pose<P, R>>>,
    transforms: Seq<Option<Transform<P::Output, R::Output, S>>>,
) -> Seq<Option<Transform<P::Output, R::Output, S>>> {
    Seq::new(
        transforms.len(),
        |i: int|
            if i < poses.len() && poses[i] is Some && transforms[i] is Some {
                Some(synced(translation, rotation, poses[i]->0, transforms[i]->0))
            } else {
                transforms[i]
            },
    )
}

impl<P, R> PoseTransformSyncSystem<P, R> {
    /// Whether the translation is copied.
    pub closed spec fn syncs_translation(&self) -> bool {
        self.translation
    }

    /// Whether the rotation is copied.
    pub closed spec fn syncs_rotation(&self) -> bool {
        self.rotation
    }

    /// A system that copies translation and rotation.
    pub fn new() -> (r: Self)
        ensures
            r.syncs_translation(),
            r.syncs_rotation(),
    {
        Self { m: PhantomData, translation: true, rotation: true }
    }

    /// Switches the copy of the rotation off.
    pub fn without_rotation(self) -> (r: Self)
        ensures
            !r.syncs_rotation(),
            r.syncs_translation() == self.syncs_translation(),
    {
        let mut system = self;
        system.rotation = false;
        system
    }

    /// Switches the copy of the translation off.
    pub fn without_translation(self) -> (r: Self)
        ensures
            !r.syncs_translation(),
            r.syncs_rotation() == self.syncs_rotation(),
    {
        let mut system = self;
        system.translation = false;
        system
    }
}

/// Syncs the transform of one body with its pose, as far as the switches say. The scale
/// is never touched.
pub fn sync_one<P: Convert, R: Convert, S>(
    translation: bool,
    rotation: bool,
    pose: &Pose<P, R>,
    transform: &mut Transform<P::Output, R::Output, S>,
)
    ensures
        *final(transform) == synced(translation, rotation, *pose, *old(transform)),
{
    if translation {
        transform.translation = pose.position.convert();
    }
    if rotation {
        transform.rotation = pose.rotation.convert();
    }
}

/// Syncs every body that has a pose and a transform. The two lists are indexed by entity.
pub fn sync_all<P: Convert, R: Convert, S>(
    translation: bool,
    rotation: bool,
    poses: &Vec<Option<Pose<P, R>>>,
    transforms: &mut Vec<Option<Transform<P::Output, R::Output, S>>>,
)
    ensures
        final(transforms)@ == synced_all(translation, rotation, poses@, old(transforms)@),
{
    let ghost want = synced_all(translation, rotation, poses@, transforms@);
    let mut i: usize = 0;
    while i < transforms.len() && i < poses.len()
        invariant
            transforms.len() == old(transforms).len(),
            i <= transforms.len(),
            want == synced_all(translation, rotation, poses@, old(transforms)@),
            forall|j: int| 0 <= j < i ==> #[trigger] transforms[j] == want[j],
            forall|j: int|
                i <= j < transforms.len() ==> #[trigger] transforms[j] == old(transforms)[j],
        decreases transforms.len() - i,
    {
        match &poses[i] {
            Some(pose) => {
                match &mut transforms[i] {
                    Some(transform) => {
                        sync_one(translation, rotation, pose, transform);
                    },
                    None => {},
                }
            },
            None => {},
        }
        i += 1;
    }
    assert(transforms@ =~= want);
}

/// The transform of a body after it was moved to where its pose is: rotation and scale
/// stay.
pub open spec fn placed<P: Convert, Q, R, S>(
    pose: Pose<P, Q>,
    transform: Transform<P::Output, R, S>,
) -> Transform<P::Output, R, S> {
    Transform {
        translation: pose.position.converted(),
        rotation: transform.rotation,
        scale: transform.scale,
    }
}

/// The transforms of all bodies after every body that has a pose and a transform was moved
/// to where its pose is.
pub open spec fn placed_all<P: Convert, Q, R, S>(
    poses: Seq<Option<Pose<P, Q>>>,
    transforms: Seq<Option<Transform<P::Output, R, S>>>,
) -> Seq<Option<Transform<P::Output, R, S>>> {
    Seq::new(
        transforms.len(),
        |i: int|
            if i < poses.len() && poses[i] is Some && transforms[i] is Some {
                Some(placed(poses[i]->0, transforms[i]->0))
            } else {
                transforms[i]
            },
    )
}

/// Moves the transform of one body to where its pose is.
pub fn place_one<P: Convert, Q, R, S>(pose: &Pose<P, Q>, transform: &mut Transform<P::Output, R, S>)
    ensures
        *final(transform) == placed(*pose, *old(transform)),
{
    transform.translation = pose.position.convert();
}

/// Moves every body that has a pose and a transform. The two lists are indexed by entity.
pub fn place_all<P: Convert, Q, R, S>(
    poses: &Vec<Option<Pose<P, Q>>>,
    transforms: &mut Vec<Option<Transform<P::Output, R, S>>>,
)
    ensures
        final(transforms)@ == placed_all(poses@, old(transforms)@),
{
    let ghost want = placed_all(poses@, transforms@);
    let mut i: usize = 0;
    while i < transforms.len() && i < poses.len()
        invariant
            transforms.len() == old(transforms).len(),
            i <= transforms.len(),
            want == placed_all(poses@, old(transforms)@),
            forall|j: int| 0 <= j < i ==> #[trigger] transforms[j] == want[j],
            forall|j: int|
                i <= j < transforms.len() ==> #[trigger] transforms[j] == old(transforms)[j],
        decreases transforms.len() - i,
    {
        match &poses[i] {
            Some(pose) => {
                match &mut transforms[i] {
                    Some(transform) => {
                        place_one(pose, transform);
                    },
                    None => {},
                }
            },
            None => {},
        }
        i += 1;
    }
    assert(transforms@ =~= want);
}

impl<P: Convert, R: Convert> PoseTransformSyncSystem<P, R> {
    /// Syncs the transform of one body with its pose, as far as the switches say. The scale
    /// is never touched.
    pub fn sync<S>(&self, pose: &Pose<P, R>, transform: &mut Transform<P::Output, R::Output, S>)
        ensures
            *final(transform) == synced(
                self.syncs_translation(),
                self.syncs_rotation(),
                *pose,
                *old(transform),
            ),
    {
        sync_one(self.translation, self.rotation, pose, transform)
    }

    /// Syncs every body that has a pose and a transform, as far as the switches say. The
    /// two lists are indexed by entity.
    pub fn run<S>(
        &mut self,
        poses: &Vec<Option<Pose<P, R>>>,
        transforms: &mut Vec<Option<Transform<P::Output, R::Output, S>>>,
    )
        ensures
            final(self).syncs_translation() == old(self).syncs_translation(),
            final(self).syncs_rotation() == old(self).syncs_rotation(),
            final(transforms)@ == synced_all(
                old(self).syncs_translation(),
                old(self).syncs_rotation(),
                poses@,
                old(transforms)@,
            ),
    {
        sync_all(self.translation, self.rotation, poses, transforms)
    }
}

} // verus!
