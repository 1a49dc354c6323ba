//! A plan of the stages that are handed to the host scheduler.
//!
//! A plan lists stages in the order of their registration. Each stage has a
//! name and names the stages that have to finish before it starts. The host
//! only accepts a stage whose dependencies are registered already and whose
//! name is new, so every plan is a directed acyclic graph written down in one
//! of its topological orders.

use vstd::prelude::*;

verus! {

/// The name under which a stage is registered.
#[derive(Clone, Copy, Debug, PartialEq, Eq, Structural)]
pub enum StageName {
    EmissionSystem,
    PhysicsSolverSystem,
    NextFrameSetup,
    SpatialSortingSystem,
    CollisionSystem,
    BasicCollisionSystem,
    ContactResolution,
    SyncSystem,
    DeletionSystem,
    MovementSystem,
}

impl StageName {
    /// The name as the host scheduler spells it.
    pub open spec fn label(self) -> Seq<char> {
        match self {
            StageName::EmissionSystem => "emission_system"@,
            StageName::PhysicsSolverSystem => "physics_solver_system"@,
            StageName::NextFrameSetup => "next_frame_setup"@,
            StageName::SpatialSortingSystem => "spatial_sorting_system"@,
            StageName::CollisionSystem => "collision_system"@,
            StageName::BasicCollisionSystem => "basic_collision_system"@,
            StageName::ContactResolution => "contact_resolution"@,
            StageName::SyncSystem => "sync_system"@,
            StageName::DeletionSystem => "deletion_system"@,
            StageName::MovementSystem => "movement_system"@,
        }
    }

    /// Spells the name for the host scheduler.
    pub fn as_str(&self) -> (r: &'static str)
        ensures
            r@ == self.label(),
    {
        match self {
            StageName::EmissionSystem => "emission_system",
            StageName::PhysicsSolverSystem => "physics_solver_system",
            StageName::NextFrameSetup => "next_frame_setup",
            StageName::SpatialSortingSystem => "spatial_sorting_system",
            StageName::CollisionSystem => "collision_system",
            StageName::BasicCollisionSystem => "basic_collision_system",
            StageName::ContactResolution => "contact_resolution",
            StageName::SyncSystem => "sync_system",
            StageName::DeletionSystem => "deletion_system",
            StageName::MovementSystem => "movement_system",
        }
    }
}

/// No two names are spelled alike, so the host tells apart what the plan tells apart.
pub proof fn lemma_labels_differ(a: StageName, b: StageName)
    requires
        a != b,
    ensures
        a.label() != b.label(),
{
    reveal_strlit("emission_system");
    reveal_strlit("physics_solver_system");
    reveal_strlit("next_frame_setup");
    reveal_strlit("spatial_sorting_system");
    reveal_strlit("collision_system");
    reveal_strlit("basic_collision_system");
    reveal_strlit("contact_resolution");
    reveal_strlit("sync_system");
    reveal_strlit("deletion_system");
    reveal_strlit("movement_system");
    if a.label() == b.label() {
        assert(a.label().len() == b.label().len());
        assert(a.label()[0] == b.label()[0]);
    }
}

/// What a stage does when the scheduler runs it.
#[derive(Clone, Copy, Debug, PartialEq, Eq, Structural)]
pub enum SystemKind {
    /// Spawns new bodies.
    Emission,
    /// Makes the next-frame state of every body its current state.
    CurrentFrameUpdate,
    /// Predicts the next-frame state of every body from its current state.
    NextFrameSetup,
    /// Sorts the bounds of the predicted poses into the spatial tree.
    SpatialSorting,
    /// Broad and narrow phase over all shapes.
    BasicCollision,
    /// Broad and narrow phase over the shapes that the spatial tree reports.
    SpatialCollision,
    /// Answers the contacts of the step in the next-frame state.
    ContactResolution,
    /// Copies the current pose into the visible transform.
    PoseTransformSync,
    /// Deletes bodies that touched.
    BoxDeletion,
    /// Deletes bodies that touched and copies the current pose into the visible transform.
    Movement,
}

/// One registration: a system, its name, and the names it waits for.
#[derive(Debug)]
pub struct StageEntry {
    pub system: SystemKind,
    pub name: StageName,
    pub deps: Vec<StageName>,
}

/// The mathematical value of a [`StageEntry`].
pub struct StageSpec {
    pub system: SystemKind,
    pub name: StageName,
    pub deps: Seq<StageName>,
}

impl View for StageEntry {
    type V = StageSpec;

    open spec fn view(&self) -> StageSpec {
        StageSpec { system: self.system, name: self.name, deps: self.deps@ }
    }
}

impl StageEntry {
    /// An entry for a system under a name, behind the stages of the given names.
    pub fn new(system: SystemKind, name: StageName, deps: Vec<StageName>) -> (r: StageEntry)
        ensures
            r@ == (StageSpec { system, name, deps: deps@ }),
    {
        StageEntry { system, name, deps }
    }
}

/// Why the host scheduler would refuse a registration.
#[derive(Clone, Copy, Debug, PartialEq, Eq, Structural)]
pub enum PlanError {
    /// A dependency names a stage that is not registered yet.
    UnknownDependency(StageName),
    /// A stage of this name is registered already.
    DuplicateName(StageName),
}

/// Whether a stage called `name` is among `stages`.
pub open spec fn registered(stages: Seq<StageSpec>, name: StageName) -> bool {
    exists|j: int| 0 <= j < stages.len() && (#[trigger] stages[j]).name == name
}

/// The first of `deps`, from position `from` on, that is not among `stages`.
pub open spec fn first_missing(stages: Seq<StageSpec>, deps: Seq<StageName>, from: int) -> Option<
    StageName,
>
    decreases deps.len() - from,
{
    if from < 0 || from >= deps.len() {
        None
    } else if !registered(stages, deps[from]) {
        Some(deps[from])
    } else {
        first_missing(stages, deps, from + 1)
    }
}

/// The answer of the host scheduler to the registration of `entry` after `stages`:
/// dependencies are looked up first, in their order, then the name.
pub open spec fn refusal(stages: Seq<StageSpec>, entry: StageSpec) -> Option<PlanError> {
    match first_missing(stages, entry.deps, 0) {
        Some(dep) => Some(PlanError::UnknownDependency(dep)),
        None => if registered(stages, entry.name) {
            Some(PlanError::DuplicateName(entry.name))
        } else {
            None
        },
    }
}

/// The plan that results from registering `batch`, from position `from` on, after
/// `stages`, or the first refusal met on the way.
pub open spec fn extension(stages: Seq<StageSpec>, batch: Seq<StageSpec>, from: int) -> Result<
    Seq<StageSpec>,
    PlanError,
>
    decreases batch.len() - from,
{
    if from < 0 || from >= batch.len() {
        Ok(stages)
    } else {
        match refusal(stages, batch[from]) {
            Some(e) => Err(e),
            None => extension(stages.push(batch[from]), batch, from + 1),
        }
    }
}

/// The names of `stages`, in their order.
pub open spec fn names_of(stages: Seq<StageSpec>) -> Seq<StageName> {
    Seq::new(stages.len(), |i: int| stages[i].name)
}

/// The first of `names`, from position `from` on, that is among `stages`.
pub open spec fn first_registered(stages: Seq<StageSpec>, names: Seq<StageName>, from: int) -> Option<
    StageName,
>
    decreases names.len() - from,
{
    if from < 0 || from >= names.len() {
        None
    } else if registered(stages, names[from]) {
        Some(names[from])
    } else {
        first_registered(stages, names, from + 1)
    }
}

/// Every stage was acceptable when it was registered.
pub open spec fn well_formed(stages: Seq<StageSpec>) -> bool {
    forall|i: int| 0 <= i < stages.len() ==> refusal(stages.take(i), #[trigger] stages[i]) is None
}

/// The mathematical values of a list of entries.
pub open spec fn specs_of(entries: Seq<StageEntry>) -> Seq<StageSpec> {
    Seq::new(entries.len(), |i: int| entries[i]@)
}

/// The stages registered so far, in the order of their registration.
pub struct DispatchPlan {
    entries: Vec<StageEntry>,
}

impl View for DispatchPlan {
    type V = Seq<StageSpec>;

    closed spec fn view(&self) -> Seq<StageSpec> {
        specs_of(self.entries@)
    }
}

impl DispatchPlan {
    #[verifier::type_invariant]
    spec fn valid(&self) -> bool {
        well_formed(specs_of(self.entries@))
    }

    /// A plan without stages.
    pub fn new() -> (r: DispatchPlan)
        ensures
            r@ == Seq::<StageSpec>::empty(),
    {
        let r = DispatchPlan { entries: Vec::new() };
        assert(r@ =~= Seq::<StageSpec>::empty());
        r
    }

    /// The number of stages.
    pub fn len(&self) -> (r: usize)
        ensures
            r == self@.len(),
    {
        self.entries.len()
    }

    /// The stages in the order of their registration. What a plan holds is well formed.
    pub fn entries(&self) -> (r: &Vec<StageEntry>)
        ensures
            specs_of(r@) == self@,
            well_formed(self@),
    {
        proof {
            use_type_invariant(self);
        }
        &self.entries
    }

    /// Whether a stage of this name is registered.
    pub fn is_registered(&self, name: StageName) -> (r: bool)
        ensures
            r == registered(self@, name),
    {
        let mut i: usize = 0;
        while i < self.entries.len()
            invariant
                i <= self.entries.len(),
                forall|j: int| 0 <= j < i ==> (#[trigger] self@[j]).name != name,
            decreases self.entries.len() - i,
        {
            if self.entries[i].name == name {
                assert(self@[i as int].name == name);
                return true;
            }
            i += 1;
        }
        false
    }

    /// The first of `deps` that is not registered.
    fn missing_dependency(&self, deps: &Vec<StageName>) -> (r: Option<StageName>)
        ensures
            r == first_missing(self@, deps@, 0),
    {
        let mut k: usize = 0;
        while k < deps.len()
            invariant
                k <= deps.len(),
                first_missing(self@, deps@, 0) == first_missing(self@, deps@, k as int),
            decreases deps.len() - k,
        {
            if !self.is_registered(deps[k]) {
                return Some(deps[k]);
            }
            k += 1;
        }
        None
    }

    /// Registers a stage as the host scheduler would: the stage is appended if all its
    /// dependencies are registered and its name is new, and the plan is left as it was otherwise.
    pub fn add(&mut self, entry: StageEntry) -> (r: Result<(), PlanError>)
        ensures
            match refusal(old(self)@, entry@) {
                None => r is Ok && final(self)@ == old(self)@.push(entry@),
                Some(e) => r == Err::<(), PlanError>(e) && final(self)@ == old(self)@,
            },
            well_formed(final(self)@),
    {
        proof {
            use_type_invariant(&*self);
        }
        match self.missing_dependency(&entry.deps) {
            Some(dep) => {
                return Err(PlanError::UnknownDependency(dep));
            },
            None => {},
        }
        if self.is_registered(entry.name) {
            return Err(PlanError::DuplicateName(entry.name));
        }
        let ghost before = self@;
        let ghost spec = entry@;
        let mut entries = self.take_entries();
        entries.push(entry);
        proof {
            assert(specs_of(entries@) =~= before.push(spec));
            lemma_push_well_formed(before, spec);
        }
        self.put_entries(entries);
        Ok(())
    }

    /// Registers the stages of `batch` in their order, all or none: at the first refusal the
    /// plan is put back as it was and the refusal is returned.
    pub fn extend(&mut self, batch: Vec<StageEntry>) -> (r: Result<(), PlanError>)
        ensures
            match extension(old(self)@, specs_of(batch@), 0) {
                Ok(stages) => r is Ok && final(self)@ == stages,
                Err(e) => r == Err::<(), PlanError>(e) && final(self)@ == old(self)@,
            },
            well_formed(final(self)@),
    {
        proof {
            use_type_invariant(&*self);
        }
        let ghost whole = specs_of(batch@);
        let ghost start = self@;
        let mark = self.len();
        let mut rest = batch;
        let ghost mut done: int = 0;
        assert(specs_of(rest@) =~= whole.skip(0));
        while rest.len() > 0
            invariant
                start == old(self)@,
                whole == specs_of(batch@),
                well_formed(start),
                0 <= done,
                done + rest.len() == whole.len(),
                specs_of(rest@) == whole.skip(done),
                extension(start, whole, 0) == extension(self@, whole, done),
                mark == start.len(),
                mark <= self@.len(),
                self@.take(mark as int) == start,
                well_formed(self@),
            decreases rest.len(),
        {
            let ghost before = self@;
            let ghost tail = rest@;
            let entry = rest.remove(0);
            proof {
                assert(entry@ == specs_of(tail)[0]);
                assert(entry@ == whole[done]);
                assert forall|i: int| 0 <= i < rest@.len() implies specs_of(rest@)[i] == whole.skip(
                    done + 1,
                )[i] by {
                    assert(rest@[i] == tail[i + 1]);
                    assert(specs_of(tail)[i + 1] == whole.skip(done)[i + 1]);
                }
                assert(specs_of(rest@) =~= whole.skip(done + 1));
                assert(extension(before, whole, done) == match refusal(before, whole[done]) {
                    Some(e) => Err::<Seq<StageSpec>, PlanError>(e),
                    None => extension(before.push(whole[done]), whole, done + 1),
                });
            }
            match self.add(entry) {
                Ok(()) => {
                    assert(self@.take(mark as int) =~= before.take(mark as int));
                },
                Err(e) => {
                    self.truncate(mark);
                    return Err(e);
                },
            }
            proof {
                done = done + 1;
            }
        }
        assert(self@.take(mark as int) == start);
        Ok(())
    }

    /// Forgets all but the first `len` stages.
    fn truncate(&mut self, len: usize)
        requires
            len <= old(self)@.len(),
        ensures
            final(self)@ == old(self)@.take(len as int),
    {
        proof {
            use_type_invariant(&*self);
        }
        let ghost before = self@;
        let mut entries = self.take_entries();
        entries.truncate(len);
        proof {
            assert(specs_of(entries@) =~= before.take(len as int));
            lemma_prefix_well_formed(before, len as int);
        }
        self.put_entries(entries);
    }

    /// Moves the stages out and leaves an empty plan.
    fn take_entries(&mut self) -> (r: Vec<StageEntry>)
        ensures
            specs_of(r@) == old(self)@,
            final(self)@ == Seq::<StageSpec>::empty(),
    {
        let mut taken = DispatchPlan::new();
        core::mem::swap(self, &mut taken);
        let DispatchPlan { entries } = taken;
        entries
    }

    /// Makes `entries` the stages of the plan.
    fn put_entries(&mut self, entries: Vec<StageEntry>)
        requires
            well_formed(specs_of(entries@)),
        ensures
            final(self)@ == specs_of(entries@),
    {
        let mut given = DispatchPlan { entries };
        core::mem::swap(self, &mut given);
    }
}

/// No two stages of a well-formed plan have the same name.
pub proof fn lemma_names_differ(stages: Seq<StageSpec>, i: int, j: int)
    requires
        well_formed(stages),
        0 <= i < stages.len(),
        0 <= j < stages.len(),
        i != j,
    ensures
        stages[i].name != stages[j].name,
{
    let (low, high) = if i < j {
        (i, j)
    } else {
        (j, i)
    };
    assert(refusal(stages.take(high), stages[high]) is None);
    if stages[low].name == stages[high].name {
        assert(stages.take(high)[low].name == stages[high].name);
        assert(registered(stages.take(high), stages[high].name));
    }
}

/// The first stages of a well-formed plan are a well-formed plan.
pub proof fn lemma_prefix_well_formed(stages: Seq<StageSpec>, len: int)
    requires
        well_formed(stages),
        0 <= len <= stages.len(),
    ensures
        well_formed(stages.take(len)),
{
    let shorter = stages.take(len);
    assert forall|i: int| 0 <= i < shorter.len() implies refusal(
        shorter.take(i),
        #[trigger] shorter[i],
    ) is None by {
        assert(shorter.take(i) =~= stages.take(i));
        assert(shorter[i] == stages[i]);
    }
}

/// Appending an acceptable stage to a well-formed plan gives a well-formed plan.
pub proof fn lemma_push_well_formed(stages: Seq<StageSpec>, entry: StageSpec)
    requires
        well_formed(stages),
        refusal(stages, entry) is None,
    ensures
        well_formed(stages.push(entry)),
{
    let longer = stages.push(entry);
    assert forall|i: int| 0 <= i < longer.len() implies refusal(longer.take(i), #[trigger] longer[i])
        is None by {
        if i < stages.len() {
            assert(longer.take(i) =~= stages.take(i));
            assert(longer[i] == stages[i]);
        } else {
            assert(longer.take(i) =~= stages);
        }
    }
}

/// Whether a stage called `name` is among the first `p` that run in `order`.
pub open spec fn ran_before(stages: Seq<StageSpec>, order: Seq<int>, p: int, name: StageName) -> bool {
    exists|q: int| 0 <= q < p && stages[#[trigger] order[q]].name == name
}

/// Whether `order` is a way for the host scheduler to run the stages one after another:
/// it lists every stage once, by its position in the plan, and no stage before one of its
/// dependencies.
pub open spec fn is_schedule(stages: Seq<StageSpec>, order: Seq<int>) -> bool {
    &&& order.len() == stages.len()
    &&& forall|p: int| 0 <= p < order.len() ==> 0 <= #[trigger] order[p] < stages.len()
    &&& forall|p: int, q: int|
        0 <= p < q < order.len() ==> #[trigger] order[p] != #[trigger] order[q]
    &&& forall|p: int, k: int|
        0 <= p < order.len() && 0 <= k < stages[order[p]].deps.len() ==> #[trigger] ran_before(
            stages,
            order,
            p,
            stages[order[p]].deps[k],
        )
}

/// Where every one of `deps` from `from` on is registered, none is missing.
pub proof fn lemma_none_missing(stages: Seq<StageSpec>, deps: Seq<StageName>, from: int)
    requires
        0 <= from,
        forall|k: int| from <= k < deps.len() ==> registered(stages, #[trigger] deps[k]),
    ensures
        first_missing(stages, deps, from) is None,
    decreases deps.len() - from,
{
    if from < deps.len() {
        assert(registered(stages, deps[from]));
        lemma_none_missing(stages, deps, from + 1);
    }
}

/// Where none is missing, every one of `deps` from `from` on is registered.
pub proof fn lemma_all_registered(stages: Seq<StageSpec>, deps: Seq<StageName>, from: int)
    requires
        0 <= from,
        first_missing(stages, deps, from) is None,
    ensures
        forall|k: int| from <= k < deps.len() ==> registered(stages, #[trigger] deps[k]),
    decreases deps.len() - from,
{
    if from < deps.len() {
        lemma_all_registered(stages, deps, from + 1);
    }
}

/// What is registered stays registered when stages are appended.
pub proof fn lemma_registered_in_longer(stages: Seq<StageSpec>, more: Seq<StageSpec>, name: StageName)
    ensures
        registered(stages, name) ==> registered(stages + more, name),
        registered(more, name) ==> registered(stages + more, name),
        registered(stages + more, name) ==> registered(stages, name) || registered(more, name),
{
    let both = stages + more;
    if registered(stages, name) {
        let j = choose|j: int| 0 <= j < stages.len() && (#[trigger] stages[j]).name == name;
        assert(both[j].name == name);
    }
    if registered(more, name) {
        let j = choose|j: int| 0 <= j < more.len() && (#[trigger] more[j]).name == name;
        assert(both[stages.len() + j].name == name);
    }
    if registered(both, name) {
        let j = choose|j: int| 0 <= j < both.len() && (#[trigger] both[j]).name == name;
        if j < stages.len() {
            assert(stages[j].name == name);
        } else {
            assert(more[j - stages.len()].name == name);
        }
    }
}

/// A batch that is a well-formed plan by itself is registered whole after any plan that
/// holds none of its names, and is refused at its first name that the plan holds.
pub proof fn lemma_extension_of_closed_batch(stages: Seq<StageSpec>, batch: Seq<StageSpec>)
    requires
        well_formed(batch),
    ensures
        extension(stages, batch, 0) == match first_registered(stages, names_of(batch), 0) {
            None => Ok::<Seq<StageSpec>, PlanError>(stages + batch),
            Some(name) => Err::<Seq<StageSpec>, PlanError>(PlanError::DuplicateName(name)),
        },
{
    assert(stages + batch.take(0) =~= stages);
    lemma_extension_of_closed_batch_from(stages, batch, 0);
}

proof fn lemma_extension_of_closed_batch_from(stages: Seq<StageSpec>, batch: Seq<StageSpec>, from: int)
    requires
        well_formed(batch),
        0 <= from <= batch.len(),
        forall|k: int| 0 <= k < from ==> !registered(stages, #[trigger] names_of(batch)[k]),
    ensures
        extension(stages + batch.take(from), batch, from) == match first_registered(
            stages,
            names_of(batch),
            from,
        ) {
            None => Ok::<Seq<StageSpec>, PlanError>(stages + batch),
            Some(name) => Err::<Seq<StageSpec>, PlanError>(PlanError::DuplicateName(name)),
        },
    decreases batch.len() - from,
{
    let so_far = stages + batch.take(from);
    if from >= batch.len() {
        assert(batch.take(from) =~= batch);
    } else {
        let entry = batch[from];
        assert(refusal(batch.take(from), entry) is None);
        lemma_all_registered(batch.take(from), entry.deps, 0);
        assert forall|k: int| 0 <= k < entry.deps.len() implies registered(
            so_far,
            #[trigger] entry.deps[k],
        ) by {
            lemma_registered_in_longer(stages, batch.take(from), entry.deps[k]);
        }
        lemma_none_missing(so_far, entry.deps, 0);
        lemma_registered_in_longer(stages, batch.take(from), entry.name);
        assert(names_of(batch)[from] == entry.name);
        assert(registered(so_far, entry.name) == registered(stages, entry.name));
        if !registered(stages, entry.name) {
            assert(so_far.push(entry) =~= stages + batch.take(from + 1));
            lemma_extension_of_closed_batch_from(stages, batch, from + 1);
        }
    }
}

/// The order of registration is a schedule of every well-formed plan.
pub proof fn lemma_registration_order_is_schedule(stages: Seq<StageSpec>)
    requires
        well_formed(stages),
    ensures
        is_schedule(stages, Seq::new(stages.len(), |i: int| i)),
{
    let order = Seq::new(stages.len(), |i: int| i);
    assert forall|p: int, k: int|
        0 <= p < order.len() && 0 <= k < stages[order[p]].deps.len() implies #[trigger] ran_before(
        stages,
        order,
        p,
        stages[order[p]].deps[k],
    ) by {
        let entry = stages[p];
        assert(refusal(stages.take(p), entry) is None);
        lemma_all_registered(stages.take(p), entry.deps, 0);
        let dep = entry.deps[k];
        assert(registered(stages.take(p), dep));
        let j = choose|j: int| 0 <= j < stages.take(p).len() && (#[trigger] stages.take(p)[j]).name == dep;
        assert(stages[order[j]].name == dep);
    }
}

} // verus!
