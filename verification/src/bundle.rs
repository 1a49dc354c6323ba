//! Bundles that register the stages of a physics step.

use crate::dispatch::{
    first_registered, lemma_extension_of_closed_batch, lemma_none_missing, names_of, refusal,
    registered, specs_of, well_formed, DispatchPlan, PlanError, StageEntry, StageName, StageSpec,
    SystemKind,
};
use std::marker::PhantomData;
use vstd::prelude::*;

pub mod basic_physics;
pub mod spatial;

verus! {

/// The stages of a step as the physics engine sets them up itself, then the stage that shows
/// the result: the current state is brought up to date, the next state is predicted,
/// collisions are found in it (behind a spatial sort where `spatial` is set) and answered;
/// the visible transform follows the current state.
pub open spec fn physics_stages(spatial: bool) -> Seq<StageSpec> {
    if spatial {
        seq![
            StageSpec {
                system: SystemKind::CurrentFrameUpdate,
                name: StageName::PhysicsSolverSystem,
                deps: seq![],
            },
            StageSpec {
                system: SystemKind::NextFrameSetup,
                name: StageName::NextFrameSetup,
                deps: seq![StageName::PhysicsSolverSystem],
            },
            StageSpec {
                system: SystemKind::SpatialSorting,
                name: StageName::SpatialSortingSystem,
                deps: seq![StageName::NextFrameSetup],
            },
            StageSpec {
                system: SystemKind::SpatialCollision,
                name: StageName::CollisionSystem,
                deps: seq![StageName::SpatialSortingSystem],
            },
            StageSpec {
                system: SystemKind::ContactResolution,
                name: StageName::ContactResolution,
                deps: seq![StageName::CollisionSystem],
            },
            StageSpec {
                system: SystemKind::PoseTransformSync,
                name: StageName::SyncSystem,
                deps: seq![StageName::PhysicsSolverSystem],
            },
        ]
    } else {
        seq![
            StageSpec {
                system: SystemKind::CurrentFrameUpdate,
                name: StageName::PhysicsSolverSystem,
                deps: seq![],
            },
            StageSpec {
                system: SystemKind::NextFrameSetup,
                name: StageName::NextFrameSetup,
                deps: seq![StageName::PhysicsSolverSystem],
            },
            StageSpec {
                system: SystemKind::BasicCollision,
                name: StageName::CollisionSystem,
                deps: seq![StageName::NextFrameSetup],
            },
            StageSpec {
                system: SystemKind::ContactResolution,
                name: StageName::ContactResolution,
                deps: seq![StageName::CollisionSystem],
            },
            StageSpec {
                system: SystemKind::PoseTransformSync,
                name: StageName::SyncSystem,
                deps: seq![StageName::PhysicsSolverSystem],
            },
        ]
    }
}

/// The stages of [`physics_stages`] as entries.
pub fn physics_stage_list(spatial: bool) -> (r: Vec<StageEntry>)
    ensures
        specs_of(r@) == physics_stages(spatial),
{
    let mut r: Vec<StageEntry> = Vec::new();
    r.push(StageEntry::new(SystemKind::CurrentFrameUpdate, StageName::PhysicsSolverSystem, vec![]));
    r.push(
        StageEntry::new(
            SystemKind::NextFrameSetup,
            StageName::NextFrameSetup,
            vec![StageName::PhysicsSolverSystem],
        ),
    );
    if spatial {
        r.push(
            StageEntry::new(
                SystemKind::SpatialSorting,
                StageName::SpatialSortingSystem,
                vec![StageName::NextFrameSetup],
            ),
        );
        r.push(
            StageEntry::new(
                SystemKind::SpatialCollision,
                StageName::CollisionSystem,
                vec![StageName::SpatialSortingSystem],
            ),
        );
    } else {
        r.push(
            StageEntry::new(
                SystemKind::BasicCollision,
                StageName::CollisionSystem,
                vec![StageName::NextFrameSetup],
            ),
        );
    }
    r.push(
        StageEntry::new(
            SystemKind::ContactResolution,
            StageName::ContactResolution,
            vec![StageName::CollisionSystem],
        ),
    );
    r.push(
        StageEntry::new(
            SystemKind::PoseTransformSync,
            StageName::SyncSystem,
            vec![StageName::PhysicsSolverSystem],
        ),
    );
    proof {
        let got = specs_of(r@);
        let want = physics_stages(spatial);
        assert(got.len() == want.len());
        assert forall|i: int| 0 <= i < got.len() implies got[i] == want[i] by {
            assert(got[i].deps =~= want[i].deps);
        }
        assert(got =~= want);
    }
    r
}

/// The stages of [`physics_stages`] are a plan by themselves: no name twice, every
/// dependency registered before the stage that waits for it.
pub proof fn lemma_physics_stages_well_formed(spatial: bool)
    ensures
        well_formed(physics_stages(spatial)),
{
    let stages = physics_stages(spatial);
    assert forall|i: int| 0 <= i < stages.len() implies refusal(
        stages.take(i),
        #[trigger] stages[i],
    ) is None by {
        let before = stages.take(i);
        let entry = stages[i];
        assert forall|k: int| 0 <= k < entry.deps.len() implies registered(
            before,
            #[trigger] entry.deps[k],
        ) by {
            if i > 0 {
                assert(before[0].name == StageName::PhysicsSolverSystem);
            }
            if i > 1 {
                assert(before[i - 1].name == stages[i - 1].name);
                assert(before[1].name == StageName::NextFrameSetup);
            }
            if i > 2 {
                assert(before[i - 2].name == stages[i - 2].name);
            }
        }
        lemma_none_missing(before, entry.deps, 0);
    }
}

/// Registers the stages of a 2D physics step and the stage that shows its result.
pub struct PhysicsBundle2<P, B, Y> {
    m: PhantomData<(P, B, Y)>,
    spatial: bool,
}

impl<P, B, Y> PhysicsBundle2<P, B, Y> {
    /// Whether collisions are found behind a spatial sort.
    pub closed spec fn spatial(&self) -> bool {
        self.spatial
    }

    /// A bundle without spatial sorting.
    pub fn new() -> (r: Self)
        ensures
            !r.spatial(),
    {
        Self { m: PhantomData, spatial: false }
    }

    /// Enables spatial sorting.
    pub fn with_spatial(self) -> (r: Self)
        ensures
            r.spatial(),
    {
        let mut bundle = self;
        bundle.spatial = true;
        bundle
    }

    /// Whether collisions are found behind a spatial sort.
    pub fn is_spatial(&self) -> (r: bool)
        ensures
            r == self.spatial(),
    {
        self.spatial
    }

    /// Registers the stages of the bundle, all or none. They are registered after any plan
    /// that holds none of their names; the first name that the plan holds is the refusal.
    pub fn build(self, plan: &mut DispatchPlan) -> (r: Result<(), PlanError>)
        ensures
            match first_registered(old(plan)@, names_of(physics_stages(self.spatial())), 0) {
                None => r is Ok && final(plan)@ == old(plan)@ + physics_stages(self.spatial()),
                Some(name) => r == Err::<(), PlanError>(PlanError::DuplicateName(name))
                    && final(plan)@ == old(plan)@,
            },
            well_formed(final(plan)@),
    {
        proof {
            lemma_physics_stages_well_formed(self.spatial);
            lemma_extension_of_closed_batch(plan@, physics_stages(self.spatial));
        }
        plan.extend(physics_stage_list(self.spatial))
    }
}

/// Registers the stages of a 3D physics step and the stage that shows its result.
pub struct PhysicsBundle3<P, B, Y> {
    m: PhantomData<(P, B, Y)>,
    spatial: bool,
}

impl<P, B, Y> PhysicsBundle3<P, B, Y> {
    /// Whether collisions are found behind a spatial sort.
    pub closed spec fn spatial(&self) -> bool {
        self.spatial
    }

    /// A bundle without spatial sorting.
    pub fn new() -> (r: Self)
        ensures
            !r.spatial(),
    {
        Self { m: PhantomData, spatial: false }
    }

    /// Enables spatial sorting.
    pub fn with_spatial(self) -> (r: Self)
        ensures
            r.spatial(),
    {
        let mut bundle = self;
        bundle.spatial = true;
        bundle
    }

    /// Whether collisions are found behind a spatial sort.
    pub fn is_spatial(&self) -> (r: bool)
        ensures
            r == self.spatial(),
    {
        self.spatial
    }

    /// Registers the stages of the bundle, all or none. They are registered after any plan
    /// that holds none of their names; the first name that the plan holds is the refusal.
    pub fn build(self, plan: &mut DispatchPlan) -> (r: Result<(), PlanError>)
        ensures
            match first_registered(old(plan)@, names_of(physics_stages(self.spatial())), 0) {
                None => r is Ok && final(plan)@ == old(plan)@ + physics_stages(self.spatial()),
                Some(name) => r == Err::<(), PlanError>(PlanError::DuplicateName(name))
                    && final(plan)@ == old(plan)@,
            },
            well_formed(final(plan)@),
    {
        proof {
            lemma_physics_stages_well_formed(self.spatial);
            lemma_extension_of_closed_batch(plan@, physics_stages(self.spatial));
        }
        plan.extend(physics_stage_list(self.spatial))
    }
}

} // verus!
