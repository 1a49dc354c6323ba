//! The double-buffered state of a body, as far as the order of the stages matters.
//!
//! Every body has a current state, which is what the visible transform follows, and a
//! next-frame state. A step brings the current state up to date from the next-frame
//! state, predicts a new next-frame state, finds the contacts of that prediction and
//! answers them in it. The ledger of this module follows which state each buffer holds,
//! not the numbers in it.

use crate::bundle::basic_physics::{basic_stages, lemma_basic_stages_well_formed};
use crate::bundle::{lemma_physics_stages_well_formed, physics_stages};
use crate::bundle::spatial::{lemma_spatial_stages_well_formed, spatial_stages};
use crate::dispatch::{
    is_schedule, lemma_names_differ, ran_before, well_formed, StageName, StageSpec, SystemKind,
};
use vstd::prelude::*;

verus! {

/// Which state a buffer holds: the state of step `step`, predicted only or with its
/// contacts answered.
#[derive(Clone, Copy, Debug, PartialEq, Eq, Structural)]
pub struct Version {
    pub step: u64,
    pub resolved: bool,
}

/// What each buffer of a body holds.
#[derive(Clone, Copy, Debug, PartialEq, Eq, Structural)]
pub struct FrameLedger {
    /// The current state.
    pub current: Version,
    /// The next-frame state.
    pub next: Version,
    /// The state that the spatial tree was sorted for, if any.
    pub sorted: Option<Version>,
    /// The state that the contacts in the channel were found in, if any.
    pub contacts: Option<Version>,
    /// The state that the visible transform shows.
    pub shown: Version,
}

/// The number of the step after `step`.
pub open spec fn following(step: u64) -> u64 {
    if step == u64::MAX {
        0
    } else {
        (step + 1) as u64
    }
}

/// What the ledger reads after a stage of the given kind has run.
pub open spec fn effect(system: SystemKind, ledger: FrameLedger) -> FrameLedger {
    match system {
        SystemKind::CurrentFrameUpdate => FrameLedger { current: ledger.next, ..ledger },
        SystemKind::NextFrameSetup => FrameLedger {
            next: Version { step: following(ledger.current.step), resolved: false },
            ..ledger
        },
        SystemKind::SpatialSorting => FrameLedger { sorted: Some(ledger.next), ..ledger },
        SystemKind::BasicCollision => FrameLedger { contacts: Some(ledger.next), ..ledger },
        SystemKind::SpatialCollision => FrameLedger {
            contacts: if ledger.sorted == Some(ledger.next) {
                Some(ledger.next)
            } else {
                None
            },
            ..ledger
        },
        SystemKind::ContactResolution => FrameLedger {
            next: if ledger.contacts == Some(ledger.next) {
                Version { step: ledger.next.step, resolved: true }
            } else {
                ledger.next
            },
            ..ledger
        },
        SystemKind::PoseTransformSync => FrameLedger { shown: ledger.current, ..ledger },
        SystemKind::Movement => FrameLedger { shown: ledger.current, ..ledger },
        SystemKind::Emission => ledger,
        SystemKind::BoxDeletion => ledger,
    }
}

/// What the ledger reads after the stages have run in `order`, from position `from` on.
pub open spec fn run(stages: Seq<StageSpec>, order: Seq<int>, from: int, ledger: FrameLedger) -> FrameLedger
    decreases order.len() - from,
{
    if from < 0 || from >= order.len() {
        ledger
    } else {
        run(stages, order, from + 1, effect(stages[order[from]].system, ledger))
    }
}

impl FrameLedger {
    /// The ledger of a body that was just made: both buffers hold its initial state, which
    /// needs no answer, and the transform shows it.
    pub fn new() -> (r: FrameLedger)
        ensures
            r == (FrameLedger {
                current: Version { step: 0, resolved: true },
                next: Version { step: 0, resolved: true },
                sorted: None,
                contacts: None,
                shown: Version { step: 0, resolved: true },
            }),
    {
        let initial = Version { step: 0, resolved: true };
        FrameLedger { current: initial, next: initial, sorted: None, contacts: None, shown: initial }
    }

    /// Records that a stage of the given kind has run.
    pub fn apply(&mut self, system: SystemKind)
        ensures
            *final(self) == effect(system, *old(self)),
    {
        match system {
            SystemKind::CurrentFrameUpdate => {
                self.current = self.next;
            },
            SystemKind::NextFrameSetup => {
                self.next = Version { step: self.current.step.wrapping_add(1), resolved: false };
            },
            SystemKind::SpatialSorting => {
                self.sorted = Some(self.next);
            },
            SystemKind::BasicCollision => {
                self.contacts = Some(self.next);
            },
            SystemKind::SpatialCollision => {
                let fresh = match self.sorted {
                    Some(version) => version == self.next,
                    None => false,
                };
                self.contacts = if fresh {
                    Some(self.next)
                } else {
                    None
                };
            },
            SystemKind::ContactResolution => {
                let fresh = match self.contacts {
                    Some(version) => version == self.next,
                    None => false,
                };
                if fresh {
                    self.next = Version { step: self.next.step, resolved: true };
                }
            },
            SystemKind::PoseTransformSync => {
                self.shown = self.current;
            },
            SystemKind::Movement => {
                self.shown = self.current;
            },
            SystemKind::Emission => {},
            SystemKind::BoxDeletion => {},
        }
    }
}

/// Whether a ledger reads as it does between two steps: the next-frame state has had its
/// contacts answered, or is the initial state, which needs no answer.
pub open spec fn between_steps(ledger: FrameLedger) -> bool {
    ledger.next.resolved
}

/// What a step has to achieve: the state that was next is current and shown, and the
/// next-frame state is the prediction after it, with its contacts answered.
pub open spec fn step_done(before: FrameLedger, after: FrameLedger) -> bool {
    &&& after.current == before.next
    &&& after.shown == before.next
    &&& after.next == (Version { step: following(before.next.step), resolved: true })
}

/// In a schedule, a stage runs after each of its dependencies.
proof fn lemma_dependency_first(stages: Seq<StageSpec>, order: Seq<int>, p: int, k: int) -> (q: int)
    requires
        is_schedule(stages, order),
        0 <= p < order.len(),
        0 <= k < stages[order[p]].deps.len(),
    ensures
        0 <= q < p,
        stages[order[q]].name == stages[order[p]].deps[k],
{
    assert(ran_before(stages, order, p, stages[order[p]].deps[k]));
    choose|q: int| 0 <= q < p && stages[#[trigger] order[q]].name == stages[order[p]].deps[k]
}

/// Whatever schedule the host picks for the stages of the basic setup, the step does what
/// it has to: the transform never shows a state whose contacts are not answered.
pub proof fn lemma_basic_step(order: Seq<int>, ledger: FrameLedger)
    requires
        is_schedule(basic_stages(), order),
        between_steps(ledger),
    ensures
        step_done(ledger, run(basic_stages(), order, 0, ledger)),
{
    let stages = basic_stages();
    reveal_with_fuel(run, 6);
    assert(order.len() == 5);
    assert forall|p: int| 0 <= p < 5 && order[p] != 0 implies p != 0 by {
        if p == 0 {
            let q = lemma_dependency_first(stages, order, p, 0);
        }
    }
    assert(order[0] == 0);
    assert forall|p: int| 0 <= p < 5 && order[p] == 3 implies exists|q: int|
        0 <= q < p && order[q] == 2 by {
        let q = lemma_dependency_first(stages, order, p, 0);
        assert(order[q] == 2);
    }
    assert forall|p: int| 0 <= p < 5 && order[p] == 4 implies exists|q: int|
        0 <= q < p && order[q] == 3 by {
        let q = lemma_dependency_first(stages, order, p, 0);
        assert(order[q] == 3);
    }
}

/// The same for the stages of the spatial setup.
pub proof fn lemma_spatial_step(order: Seq<int>, ledger: FrameLedger)
    requires
        is_schedule(spatial_stages(), order),
        between_steps(ledger),
    ensures
        step_done(ledger, run(spatial_stages(), order, 0, ledger)),
{
    let stages = spatial_stages();
    reveal_with_fuel(run, 7);
    assert(order.len() == 6);
    assert forall|p: int| 0 <= p < 6 && order[p] != 0 implies p != 0 by {
        if p == 0 {
            let q = lemma_dependency_first(stages, order, p, 0);
        }
    }
    assert(order[0] == 0);
    assert forall|p: int| 0 <= p < 6 && order[p] == 3 implies exists|q: int|
        0 <= q < p && order[q] == 2 by {
        let q = lemma_dependency_first(stages, order, p, 0);
        assert(order[q] == 2);
    }
    assert forall|p: int| 0 <= p < 6 && order[p] == 4 implies exists|q: int|
        0 <= q < p && order[q] == 3 by {
        let q = lemma_dependency_first(stages, order, p, 0);
        assert(order[q] == 3);
    }
    assert forall|p: int| 0 <= p < 6 && order[p] == 5 implies exists|q: int|
        0 <= q < p && order[q] == 4 by {
        let q = lemma_dependency_first(stages, order, p, 0);
        assert(order[q] == 4);
    }
}

/// The same for the stages as the physics engine sets them up itself, with or without the
/// spatial sort.
pub proof fn lemma_physics_step(spatial: bool, order: Seq<int>, ledger: FrameLedger)
    requires
        is_schedule(physics_stages(spatial), order),
        between_steps(ledger),
    ensures
        step_done(ledger, run(physics_stages(spatial), order, 0, ledger)),
{
    let stages = physics_stages(spatial);
    reveal_with_fuel(run, 7);
    assert forall|p: int| 0 <= p < order.len() && order[p] != 0 implies p != 0 by {
        if p == 0 {
            let q = lemma_dependency_first(stages, order, p, 0);
        }
    }
    assert(order[0] == 0);
    assert forall|p: int| 0 <= p < order.len() && order[p] == 2 implies exists|q: int|
        0 <= q < p && order[q] == 1 by {
        let q = lemma_dependency_first(stages, order, p, 0);
        assert(order[q] == 1);
    }
    assert forall|p: int| 0 <= p < order.len() && order[p] == 3 implies exists|q: int|
        0 <= q < p && order[q] == 2 by {
        let q = lemma_dependency_first(stages, order, p, 0);
        assert(order[q] == 2);
    }
    if spatial {
        assert(order.len() == 6);
        assert forall|p: int| 0 <= p < 6 && order[p] == 4 implies exists|q: int|
            0 <= q < p && order[q] == 3 by {
            let q = lemma_dependency_first(stages, order, p, 0);
            assert(order[q] == 3);
        }
    } else {
        assert(order.len() == 5);
    }
}

/// The stage lists that the bundles of this crate register.
pub open spec fn is_physics_pipeline(stages: Seq<StageSpec>) -> bool {
    ||| stages == basic_stages()
    ||| stages == spatial_stages()
    ||| stages == physics_stages(false)
    ||| stages == physics_stages(true)
}

/// Whether everything that can be seen of a body is a state with its contacts answered.
pub open spec fn settled(ledger: FrameLedger) -> bool {
    &&& ledger.current.resolved
    &&& ledger.shown.resolved
}

/// Whatever schedule the host picks for the stages of a bundle, a step that starts between
/// two steps ends between two steps, with the state that was next current and shown.
pub proof fn lemma_step(stages: Seq<StageSpec>, order: Seq<int>, ledger: FrameLedger)
    requires
        is_physics_pipeline(stages),
        is_schedule(stages, order),
        between_steps(ledger),
    ensures
        step_done(ledger, run(stages, order, 0, ledger)),
        between_steps(run(stages, order, 0, ledger)),
        settled(run(stages, order, 0, ledger)),
{
    if stages == basic_stages() {
        lemma_basic_step(order, ledger);
    } else if stages == spatial_stages() {
        lemma_spatial_step(order, ledger);
    } else if stages == physics_stages(false) {
        lemma_physics_step(false, order, ledger);
    } else {
        lemma_physics_step(true, order, ledger);
    }
}

/// Running a schedule to its end is running all but its last stage, then the last.
proof fn lemma_run_last(stages: Seq<StageSpec>, order: Seq<int>, from: int, ledger: FrameLedger)
    requires
        0 <= from < order.len(),
    ensures
        run(stages, order, from, ledger) == effect(
            stages[order.last()].system,
            run(stages, order.drop_last(), from, ledger),
        ),
    decreases order.len() - from,
{
    if from < order.len() - 1 {
        lemma_run_last(stages, order, from + 1, effect(stages[order[from]].system, ledger));
        assert(order.drop_last()[from] == order[from]);
    } else {
        reveal_with_fuel(run, 2);
    }
}

/// Whether prediction waits for the update: a stage that brings the current state up to
/// date is called `physics_solver_system`, and every stage that predicts the next-frame
/// state names that stage among its dependencies.
pub open spec fn prediction_waits(stages: Seq<StageSpec>) -> bool {
    &&& forall|i: int|
        0 <= i < stages.len() && (#[trigger] stages[i]).system == SystemKind::CurrentFrameUpdate
            ==> stages[i].name == StageName::PhysicsSolverSystem
    &&& forall|i: int|
        0 <= i < stages.len() && (#[trigger] stages[i]).system == SystemKind::NextFrameSetup
            ==> stages[i].deps.contains(StageName::PhysicsSolverSystem)
}

/// The bundles of this crate register well-formed plans in which prediction waits for the
/// update.
pub proof fn lemma_pipelines_wait(stages: Seq<StageSpec>)
    requires
        is_physics_pipeline(stages),
    ensures
        well_formed(stages),
        prediction_waits(stages),
{
    lemma_basic_stages_well_formed();
    lemma_spatial_stages_well_formed();
    lemma_physics_stages_well_formed(false);
    lemma_physics_stages_well_formed(true);
    assert forall|i: int|
        0 <= i < stages.len() && (#[trigger] stages[i]).system
            == SystemKind::NextFrameSetup implies stages[i].deps.contains(
        StageName::PhysicsSolverSystem,
    ) by {
        assert(stages[i].deps[0] == StageName::PhysicsSolverSystem);
    }
}

/// At no point of a step does the current state or the visible transform hold a state whose
/// contacts are not answered: in every well-formed plan in which prediction waits for the
/// update, the stages that have run so far, `upto` of them, leave both settled, whatever
/// schedule the host picks. Until the stage called `physics_solver_system` has run, the
/// next-frame state is still the answered one.
pub proof fn lemma_never_shows_prediction(
    stages: Seq<StageSpec>,
    order: Seq<int>,
    upto: int,
    ledger: FrameLedger,
)
    requires
        well_formed(stages),
        prediction_waits(stages),
        is_schedule(stages, order),
        between_steps(ledger),
        settled(ledger),
        0 <= upto <= order.len(),
    ensures
        settled(run(stages, order.take(upto), 0, ledger)),
        run(stages, order.take(upto), 0, ledger).next.resolved || ran_before(
            stages,
            order,
            upto,
            StageName::PhysicsSolverSystem,
        ),
    decreases upto,
{
    if upto > 0 {
        let last = upto - 1;
        lemma_never_shows_prediction(stages, order, last, ledger);
        let prefix = order.take(upto);
        assert(prefix.drop_last() =~= order.take(last));
        assert(prefix.last() == order[last]);
        lemma_run_last(stages, prefix, 0, ledger);
        let stage = stages[order[last]];
        assert(0 <= order[last] < stages.len());
        if ran_before(stages, order, last, StageName::PhysicsSolverSystem) {
            let q = choose|q: int|
                0 <= q < last && stages[#[trigger] order[q]].name == StageName::PhysicsSolverSystem;
            assert(0 <= order[q] < stages.len());
            assert(order[q] != order[last]);
            lemma_names_differ(stages, order[q], order[last]);
            assert(stage.system != SystemKind::CurrentFrameUpdate);
        }
        if stage.system == SystemKind::NextFrameSetup {
            let k = choose|k: int|
                0 <= k < stage.deps.len() && stage.deps[k] == StageName::PhysicsSolverSystem;
            let q = lemma_dependency_first(stages, order, last, k);
        }
    }
}

/// What the ledger reads after one step for each of `orders`, from position `from` on.
pub open spec fn run_steps(
    stages: Seq<StageSpec>,
    orders: Seq<Seq<int>>,
    from: int,
    ledger: FrameLedger,
) -> FrameLedger
    decreases orders.len() - from,
{
    if from < 0 || from >= orders.len() {
        ledger
    } else {
        run_steps(stages, orders, from + 1, run(stages, orders[from], 0, ledger))
    }
}

/// After any number of steps, each in a schedule of the host's choice, the current state
/// and the visible transform hold a state with its contacts answered, and so does the
/// next-frame state.
pub proof fn lemma_steps_stay_settled(
    stages: Seq<StageSpec>,
    orders: Seq<Seq<int>>,
    from: int,
    ledger: FrameLedger,
)
    requires
        is_physics_pipeline(stages),
        forall|i: int| 0 <= i < orders.len() ==> is_schedule(stages, #[trigger] orders[i]),
        between_steps(ledger),
        settled(ledger),
        0 <= from,
    ensures
        between_steps(run_steps(stages, orders, from, ledger)),
        settled(run_steps(stages, orders, from, ledger)),
    decreases orders.len() - from,
{
    if from < orders.len() {
        lemma_step(stages, orders[from], ledger);
        lemma_steps_stay_settled(stages, orders, from + 1, run(stages, orders[from], 0, ledger));
    }
}

} // verus!
