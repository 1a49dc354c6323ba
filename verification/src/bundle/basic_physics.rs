//! The basic collision setup, registered stage by stage.

use crate::dispatch::{
    first_registered, lemma_extension_of_closed_batch, lemma_none_missing, names_of, refusal,
    registered, specs_of, well_formed, DispatchPlan, PlanError, StageEntry, StageName, StageSpec,
    SystemKind,
};
use std::marker::PhantomData;
use vstd::prelude::*;

verus! {

/// The stages of a step that tests all shapes against each other: the current state is
/// brought up to date and shown, the next state is predicted, collisions are found in it
/// and answered.
pub open spec fn basic_stages() -> Seq<StageSpec> {
    seq![
        StageSpec {
            system: SystemKind::CurrentFrameUpdate,
            name: StageName::PhysicsSolverSystem,
            deps: seq![],
        },
        StageSpec {
            system: SystemKind::PoseTransformSync,
            name: StageName::SyncSystem,
            deps: seq![StageName::PhysicsSolverSystem],
        },
        StageSpec {
            system: SystemKind::NextFrameSetup,
            name: StageName::NextFrameSetup,
            deps: seq![StageName::PhysicsSolverSystem],
        },
        StageSpec {
            system: SystemKind::BasicCollision,
            name: StageName::BasicCollisionSystem,
            deps: seq![StageName::NextFrameSetup],
        },
        StageSpec {
            system: SystemKind::ContactResolution,
            name: StageName::ContactResolution,
            deps: seq![StageName::BasicCollisionSystem],
        },
    ]
}

/// The stages of [`basic_stages`] as entries.
pub fn basic_stage_list() -> (r: Vec<StageEntry>)
    ensures
        specs_of(r@) == basic_stages(),
{
    let mut r: Vec<StageEntry> = Vec::new();
    r.push(StageEntry::new(SystemKind::CurrentFrameUpdate, StageName::PhysicsSolverSystem, vec![]));
    r.push(
        StageEntry::new(
            SystemKind::PoseTransformSync,
            StageName::SyncSystem,
            vec![StageName::PhysicsSolverSystem],
        ),
    );
    r.push(
        StageEntry::new(
            SystemKind::NextFrameSetup,
            StageName::NextFrameSetup,
            vec![StageName::PhysicsSolverSystem],
        ),
    );
    r.push(
        StageEntry::new(
            SystemKind::BasicCollision,
            StageName::BasicCollisionSystem,
            vec![StageName::NextFrameSetup],
        ),
    );
    r.push(
        StageEntry::new(
            SystemKind::ContactResolution,
            StageName::ContactResolution,
            vec![StageName::BasicCollisionSystem],
        ),
    );
    proof {
        let got = specs_of(r@);
        let want = basic_stages();
        assert(got.len() == want.len());
        assert forall|i: int| 0 <= i < got.len() implies got[i] == want[i] by {
            assert(got[i].deps =~= want[i].deps);
        }
        assert(got =~= want);
    }
    r
}

/// The stages of [`basic_stages`] are a plan by themselves: no name twice, every
/// dependency registered before the stage that waits for it.
pub proof fn lemma_basic_stages_well_formed()
    ensures
        well_formed(basic_stages()),
{
    let stages = basic_stages();
    assert forall|i: int| 0 <= i < stages.len() implies refusal(stages.take(i), #[trigger] stages[i])
        is None by {
        let before = stages.take(i);
        let entry = stages[i];
        assert forall|k: int| 0 <= k < entry.deps.len() implies registered(
            before,
            #[trigger] entry.deps[k],
        ) by {
            if i > 0 {
                assert(before[0].name == StageName::PhysicsSolverSystem);
                assert(before[i - 1].name == stages[i - 1].name);
            }
            if i > 2 {
                assert(before[2].name == StageName::NextFrameSetup);
            }
        }
        lemma_none_missing(before, entry.deps, 0);
    }
}

/// Registers the stages of a 2D physics step with the basic collision setup.
pub struct BasicPhysicsBundle2<S, P, B, D, Y> {
    m: PhantomData<(S, P, B, D, Y)>,
}

impl<S, P, B, D, Y> BasicPhysicsBundle2<S, P, B, D, Y> {
    /// A new bundle.
    pub fn new() -> Self {
        Self { m: PhantomData }
    }

    /// Registers the stages of the bundle, all or none. They are registered after any plan
    /// that holds none of their names; the first name that the plan holds is the refusal.
    pub fn build(self, plan: &mut DispatchPlan) -> (r: Result<(), PlanError>)
        ensures
            match first_registered(old(plan)@, names_of(basic_stages()), 0) {
                None => r is Ok && final(plan)@ == old(plan)@ + basic_stages(),
                Some(name) => r == Err::<(), PlanError>(PlanError::DuplicateName(name))
                    && final(plan)@ == old(plan)@,
            },
            well_formed(final(plan)@),
    {
        proof {
            lemma_basic_stages_well_formed();
            lemma_extension_of_closed_batch(plan@, basic_stages());
        }
        plan.extend(basic_stage_list())
    }
}

/// Registers the stages of a 3D physics step with the basic collision setup.
pub struct BasicPhysicsBundle3<S, P, B, D, Y> {
    m: PhantomData<(S, P, B, D, Y)>,
}

impl<S, P, B, D, Y> BasicPhysicsBundle3<S, P, B, D, Y> {
    /// A new bundle.
    pub fn new() -> Self {
        Self { m: PhantomData }
    }

    /// Registers the stages of the bundle, all or none. They are registered after any plan
    /// that holds none of their names; the first name that the plan holds is the refusal.
    pub fn build(self, plan: &mut DispatchPlan) -> (r: Result<(), PlanError>)
        ensures
            match first_registered(old(plan)@, names_of(basic_stages()), 0) {
                None => r is Ok && final(plan)@ == old(plan)@ + basic_stages(),
                Some(name) => r == Err::<(), PlanError>(PlanError::DuplicateName(name))
                    && final(plan)@ == old(plan)@,
            },
            well_formed(final(plan)@),
    {
        proof {
            lemma_basic_stages_well_formed();
            lemma_extension_of_closed_batch(plan@, basic_stages());
        }
        plan.extend(basic_stage_list())
    }
}

} // verus!
