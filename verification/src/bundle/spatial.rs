//! The spatial collision setup, registered stage by stage.

use crate::dispatch::{
    first_registered, lemma_extension_of_closed_batch, lemma_none_missing, names_of, refusal,
    registered, specs_of, well_formed, DispatchPlan, PlanError, StageEntry, StageName, StageSpec,
    SystemKind,
};
use std::marker::PhantomData;
use vstd::prelude::*;

verus! {

/// The stages of a step that finds collisions behind a spatial sort: the current state is
/// brought up to date and shown, the next state is predicted, its bounds are sorted into
/// the tree, collisions are found among what the tree reports and answered.
pub open spec fn spatial_stages() -> Seq<StageSpec> {
    seq![
        StageSpec {
            system: SystemKind::CurrentFrameUpdate,
            name: StageName::PhysicsSolverSystem,
            deps: seq![],
        },
        StageSpec {
            system: SystemKind::PoseTransformSync,
            name: StageName::SyncSystem,
            deps: seq![StageName::PhysicsSolverSystem],
        },
        StageSpec {
            system: SystemKind::NextFrameSetup,
            name: StageName::NextFrameSetup,
            deps: seq![StageName::PhysicsSolverSystem],
        },
        StageSpec {
            system: SystemKind::SpatialSorting,
            name: StageName::SpatialSortingSystem,
            deps: seq![StageName::NextFrameSetup],
        },
        StageSpec {
            system: SystemKind::SpatialCollision,
            name: StageName::CollisionSystem,
            deps: seq![StageName::SpatialSortingSystem],
        },
        StageSpec {
            system: SystemKind::ContactResolution,
            name: StageName::ContactResolution,
            deps: seq![StageName::CollisionSystem],
        },
    ]
}

/// The stages of [`spatial_stages`] as entries.
pub fn spatial_stage_list() -> (r: Vec<StageEntry>)
    ensures
        specs_of(r@) == spatial_stages(),
{
    let mut r: Vec<StageEntry> = Vec::new();
    r.push(StageEntry::new(SystemKind::CurrentFrameUpdate, StageName::PhysicsSolverSystem, vec![]));
    r.push(
        StageEntry::new(
            SystemKind::PoseTransformSync,
            StageName::SyncSystem,
            vec![StageName::PhysicsSolverSystem],
        ),
    );
    r.push(
        StageEntry::new(
            SystemKind::NextFrameSetup,
            StageName::NextFrameSetup,
            vec![StageName::PhysicsSolverSystem],
        ),
    );
    r.push(
        StageEntry::new(
            SystemKind::SpatialSorting,
            StageName::SpatialSortingSystem,
            vec![StageName::NextFrameSetup],
        ),
    );
    r.push(
        StageEntry::new(
            SystemKind::SpatialCollision,
            StageName::CollisionSystem,
            vec![StageName::SpatialSortingSystem],
        ),
    );
    r.push(
        StageEntry::new(
            SystemKind::ContactResolution,
            StageName::ContactResolution,
            vec![StageName::CollisionSystem],
        ),
    );
    proof {
        let got = specs_of(r@);
        let want = spatial_stages();
        assert(got.len() == want.len());
        assert forall|i: int| 0 <= i < got.len() implies got[i] == want[i] by {
            assert(got[i].deps =~= want[i].deps);
        }
        assert(got =~= want);
    }
    r
}

/// The stages of [`spatial_stages`] are a plan by themselves: no name twice, every
/// dependency registered before the stage that waits for it.
pub proof fn lemma_spatial_stages_well_formed()
    ensures
        well_formed(spatial_stages()),
{
    let stages = spatial_stages();
    assert forall|i: int| 0 <= i < stages.len() implies refusal(stages.take(i), #[trigger] stages[i])
        is None by {
        let before = stages.take(i);
        let entry = stages[i];
        assert forall|k: int| 0 <= k < entry.deps.len() implies registered(
            before,
            #[trigger] entry.deps[k],
        ) by {
            if i > 0 {
                assert(before[0].name == StageName::PhysicsSolverSystem);
                assert(before[i - 1].name == stages[i - 1].name);
            }
            if i > 2 {
                assert(before[2].name == StageName::NextFrameSetup);
            }
        }
        lemma_none_missing(before, entry.deps, 0);
    }
}

/// Registers the stages of a 2D physics step with the spatial collision setup.
pub struct SpatialPhysicsBundle2<P, B, Y> {
    m: PhantomData<(P, B, Y)>,
}

impl<P, B, Y> SpatialPhysicsBundle2<P, B, Y> {
    /// A new bundle.
    pub fn new() -> Self {
        Self { m: PhantomData }
    }

    /// Registers the stages of the bundle, all or none. They are registered after any plan
    /// that holds none of their names; the first name that the plan holds is the refusal.
    pub fn build(self, plan: &mut DispatchPlan) -> (r: Result<(), PlanError>)
        ensures
            match first_registered(old(plan)@, names_of(spatial_stages()), 0) {
                None => r is Ok && final(plan)@ == old(plan)@ + spatial_stages(),
                Some(name) => r == Err::<(), PlanError>(PlanError::DuplicateName(name))
                    && final(plan)@ == old(plan)@,
            },
            well_formed(final(plan)@),
    {
        proof {
            lemma_spatial_stages_well_formed();
            lemma_extension_of_closed_batch(plan@, spatial_stages());
        }
        plan.extend(spatial_stage_list())
    }
}

/// Registers the stages of a 3D physics step with the spatial collision setup.
pub struct SpatialPhysicsBundle3<P, B, Y> {
    m: PhantomData<(P, B, Y)>,
}

impl<P, B, Y> SpatialPhysicsBundle3<P, B, Y> {
    /// A new bundle.
    pub fn new() -> Self {
        Self { m: PhantomData }
    }

    /// Registers the stages of the bundle, all or none. They are registered after any plan
    /// that holds none of their names; the first name that the plan holds is the refusal.
    pub fn build(self, plan: &mut DispatchPlan) -> (r: Result<(), PlanError>)
        ensures
            match first_registered(old(plan)@, names_of(spatial_stages()), 0) {
                None => r is Ok && final(plan)@ == old(plan)@ + spatial_stages(),
                Some(name) => r == Err::<(), PlanError>(PlanError::DuplicateName(name))
                    && final(plan)@ == old(plan)@,
            },
            well_formed(final(plan)@),
    {
        proof {
            lemma_spatial_stages_well_formed();
            lemma_extension_of_closed_batch(plan@, spatial_stages());
        }
        plan.extend(spatial_stage_list())
    }
}

} // verus!
