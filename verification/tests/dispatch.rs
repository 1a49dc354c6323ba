use amethyst_rhusics::bundle::basic_physics::{
    basic_stage_list, BasicPhysicsBundle2, BasicPhysicsBundle3,
};
use amethyst_rhusics::bundle::spatial::{
    spatial_stage_list, SpatialPhysicsBundle2, SpatialPhysicsBundle3,
};
use amethyst_rhusics::bundle::{physics_stage_list, PhysicsBundle2, PhysicsBundle3};
use amethyst_rhusics::dispatch::{DispatchPlan, PlanError, StageEntry, StageName, SystemKind};

fn summary(plan: &DispatchPlan) -> Vec<(SystemKind, &'static str, Vec<&'static str>)> {
    plan.entries()
        .iter()
        .map(|e| (e.system, e.name.as_str(), e.deps.iter().map(|d| d.as_str()).collect()))
        .collect()
}

#[test]
fn stage_names_are_spelled_as_the_host_expects() {
    assert_eq!(StageName::EmissionSystem.as_str(), "emission_system");
    assert_eq!(StageName::PhysicsSolverSystem.as_str(), "physics_solver_system");
    assert_eq!(StageName::NextFrameSetup.as_str(), "next_frame_setup");
    assert_eq!(StageName::SpatialSortingSystem.as_str(), "spatial_sorting_system");
    assert_eq!(StageName::CollisionSystem.as_str(), "collision_system");
    assert_eq!(StageName::BasicCollisionSystem.as_str(), "basic_collision_system");
    assert_eq!(StageName::ContactResolution.as_str(), "contact_resolution");
    assert_eq!(StageName::SyncSystem.as_str(), "sync_system");
    assert_eq!(StageName::DeletionSystem.as_str(), "deletion_system");
    assert_eq!(StageName::MovementSystem.as_str(), "movement_system");
}

#[test]
fn new_plan_is_empty() {
    let plan = DispatchPlan::new();
    assert_eq!(plan.len(), 0);
    assert!(plan.entries().is_empty());
    assert!(!plan.is_registered(StageName::SyncSystem));
}

#[test]
fn add_appends_an_acceptable_stage() {
    let mut plan = DispatchPlan::new();
    assert_eq!(
        plan.add(StageEntry::new(SystemKind::Emission, StageName::EmissionSystem, vec![])),
        Ok(())
    );
    assert_eq!(
        plan.add(StageEntry::new(
            SystemKind::Movement,
            StageName::MovementSystem,
            vec![StageName::EmissionSystem],
        )),
        Ok(())
    );
    assert_eq!(plan.len(), 2);
    assert!(plan.is_registered(StageName::EmissionSystem));
    assert!(plan.is_registered(StageName::MovementSystem));
    assert!(!plan.is_registered(StageName::SyncSystem));
    assert_eq!(
        summary(&plan),
        vec![
            (SystemKind::Emission, "emission_system", vec![]),
            (SystemKind::Movement, "movement_system", vec!["emission_system"]),
        ]
    );
}

#[test]
fn add_refuses_an_unknown_dependency_and_names_the_first() {
    let mut plan = DispatchPlan::new();
    plan.add(StageEntry::new(SystemKind::Emission, StageName::EmissionSystem, vec![])).unwrap();
    let refused = plan.add(StageEntry::new(
        SystemKind::PoseTransformSync,
        StageName::SyncSystem,
        vec![
            StageName::EmissionSystem,
            StageName::ContactResolution,
            StageName::PhysicsSolverSystem,
        ],
    ));
    assert_eq!(refused, Err(PlanError::UnknownDependency(StageName::ContactResolution)));
    assert_eq!(plan.len(), 1);
    assert!(!plan.is_registered(StageName::SyncSystem));
}

#[test]
fn add_refuses_a_name_twice() {
    let mut plan = DispatchPlan::new();
    plan.add(StageEntry::new(SystemKind::Emission, StageName::EmissionSystem, vec![])).unwrap();
    let refused =
        plan.add(StageEntry::new(SystemKind::BoxDeletion, StageName::EmissionSystem, vec![]));
    assert_eq!(refused, Err(PlanError::DuplicateName(StageName::EmissionSystem)));
    assert_eq!(summary(&plan), vec![(SystemKind::Emission, "emission_system", vec![])]);
}

#[test]
fn add_looks_at_dependencies_before_the_name() {
    let mut plan = DispatchPlan::new();
    plan.add(StageEntry::new(SystemKind::Emission, StageName::EmissionSystem, vec![])).unwrap();
    let refused = plan.add(StageEntry::new(
        SystemKind::Emission,
        StageName::EmissionSystem,
        vec![StageName::SyncSystem],
    ));
    assert_eq!(refused, Err(PlanError::UnknownDependency(StageName::SyncSystem)));
}

#[test]
fn a_stage_cannot_wait_for_itself() {
    let mut plan = DispatchPlan::new();
    let refused = plan.add(StageEntry::new(
        SystemKind::Emission,
        StageName::EmissionSystem,
        vec![StageName::EmissionSystem],
    ));
    assert_eq!(refused, Err(PlanError::UnknownDependency(StageName::EmissionSystem)));
    assert_eq!(plan.len(), 0);
}

#[test]
fn extend_registers_all_or_none() {
    let mut plan = DispatchPlan::new();
    plan.add(StageEntry::new(SystemKind::Emission, StageName::EmissionSystem, vec![])).unwrap();
    let refused = plan.extend(vec![
        StageEntry::new(
            SystemKind::CurrentFrameUpdate,
            StageName::PhysicsSolverSystem,
            vec![StageName::EmissionSystem],
        ),
        StageEntry::new(
            SystemKind::PoseTransformSync,
            StageName::SyncSystem,
            vec![StageName::NextFrameSetup],
        ),
    ]);
    assert_eq!(refused, Err(PlanError::UnknownDependency(StageName::NextFrameSetup)));
    assert_eq!(summary(&plan), vec![(SystemKind::Emission, "emission_system", vec![])]);

    let accepted = plan.extend(vec![
        StageEntry::new(
            SystemKind::CurrentFrameUpdate,
            StageName::PhysicsSolverSystem,
            vec![StageName::EmissionSystem],
        ),
        StageEntry::new(
            SystemKind::PoseTransformSync,
            StageName::SyncSystem,
            vec![StageName::PhysicsSolverSystem],
        ),
    ]);
    assert_eq!(accepted, Ok(()));
    assert_eq!(
        summary(&plan),
        vec![
            (SystemKind::Emission, "emission_system", vec![]),
            (SystemKind::CurrentFrameUpdate, "physics_solver_system", vec!["emission_system"]),
            (SystemKind::PoseTransformSync, "sync_system", vec!["physics_solver_system"]),
        ]
    );
}

#[test]
fn extend_with_nothing_changes_nothing() {
    let mut plan = DispatchPlan::new();
    assert_eq!(plan.extend(vec![]), Ok(()));
    assert_eq!(plan.len(), 0);
}

fn physics_basic() -> Vec<(SystemKind, &'static str, Vec<&'static str>)> {
    vec![
        (SystemKind::CurrentFrameUpdate, "physics_solver_system", vec![]),
        (SystemKind::NextFrameSetup, "next_frame_setup", vec!["physics_solver_system"]),
        (SystemKind::BasicCollision, "collision_system", vec!["next_frame_setup"]),
        (SystemKind::ContactResolution, "contact_resolution", vec!["collision_system"]),
        (SystemKind::PoseTransformSync, "sync_system", vec!["physics_solver_system"]),
    ]
}

fn physics_spatial() -> Vec<(SystemKind, &'static str, Vec<&'static str>)> {
    vec![
        (SystemKind::CurrentFrameUpdate, "physics_solver_system", vec![]),
        (SystemKind::NextFrameSetup, "next_frame_setup", vec!["physics_solver_system"]),
        (SystemKind::SpatialSorting, "spatial_sorting_system", vec!["next_frame_setup"]),
        (SystemKind::SpatialCollision, "collision_system", vec!["spatial_sorting_system"]),
        (SystemKind::ContactResolution, "contact_resolution", vec!["collision_system"]),
        (SystemKind::PoseTransformSync, "sync_system", vec!["physics_solver_system"]),
    ]
}

fn basic() -> Vec<(SystemKind, &'static str, Vec<&'static str>)> {
    vec![
        (SystemKind::CurrentFrameUpdate, "physics_solver_system", vec![]),
        (SystemKind::PoseTransformSync, "sync_system", vec!["physics_solver_system"]),
        (SystemKind::NextFrameSetup, "next_frame_setup", vec!["physics_solver_system"]),
        (SystemKind::BasicCollision, "basic_collision_system", vec!["next_frame_setup"]),
        (SystemKind::ContactResolution, "contact_resolution", vec!["basic_collision_system"]),
    ]
}

fn spatial() -> Vec<(SystemKind, &'static str, Vec<&'static str>)> {
    vec![
        (SystemKind::CurrentFrameUpdate, "physics_solver_system", vec![]),
        (SystemKind::PoseTransformSync, "sync_system", vec!["physics_solver_system"]),
        (SystemKind::NextFrameSetup, "next_frame_setup", vec!["physics_solver_system"]),
        (SystemKind::SpatialSorting, "spatial_sorting_system", vec!["next_frame_setup"]),
        (SystemKind::SpatialCollision, "collision_system", vec!["spatial_sorting_system"]),
        (SystemKind::ContactResolution, "contact_resolution", vec!["collision_system"]),
    ]
}

#[test]
fn physics_bundle_2_registers_the_step_and_the_sync() {
    let bundle = PhysicsBundle2::<(), (), ()>::new();
    assert!(!bundle.is_spatial());
    let mut plan = DispatchPlan::new();
    assert_eq!(bundle.build(&mut plan), Ok(()));
    assert_eq!(summary(&plan), physics_basic());
}

#[test]
fn physics_bundle_2_with_spatial_sorts_before_it_collides() {
    let bundle = PhysicsBundle2::<(), (), ()>::new().with_spatial();
    assert!(bundle.is_spatial());
    let mut plan = DispatchPlan::new();
    assert_eq!(bundle.build(&mut plan), Ok(()));
    assert_eq!(summary(&plan), physics_spatial());
}

#[test]
fn physics_bundle_3_registers_the_step_and_the_sync() {
    let bundle = PhysicsBundle3::<(), (), ()>::new();
    assert!(!bundle.is_spatial());
    let mut plan = DispatchPlan::new();
    assert_eq!(bundle.build(&mut plan), Ok(()));
    assert_eq!(summary(&plan), physics_basic());

    let bundle = PhysicsBundle3::<(), (), ()>::new().with_spatial();
    assert!(bundle.is_spatial());
    let mut plan = DispatchPlan::new();
    assert_eq!(bundle.build(&mut plan), Ok(()));
    assert_eq!(summary(&plan), physics_spatial());
}

#[test]
fn basic_bundles_register_their_stages() {
    let mut plan = DispatchPlan::new();
    assert_eq!(BasicPhysicsBundle2::<(), (), (), (), ()>::new().build(&mut plan), Ok(()));
    assert_eq!(summary(&plan), basic());
    let mut plan = DispatchPlan::new();
    assert_eq!(BasicPhysicsBundle3::<(), (), (), (), ()>::new().build(&mut plan), Ok(()));
    assert_eq!(summary(&plan), basic());
}

#[test]
fn spatial_bundles_register_their_stages() {
    let mut plan = DispatchPlan::new();
    assert_eq!(SpatialPhysicsBundle2::<(), (), ()>::new().build(&mut plan), Ok(()));
    assert_eq!(summary(&plan), spatial());
    let mut plan = DispatchPlan::new();
    assert_eq!(SpatialPhysicsBundle3::<(), (), ()>::new().build(&mut plan), Ok(()));
    assert_eq!(summary(&plan), spatial());
}

#[test]
fn stage_lists_are_what_the_bundles_register() {
    let as_summary = |list: Vec<StageEntry>| -> Vec<(SystemKind, &'static str, Vec<&'static str>)> {
        list.iter()
            .map(|e| (e.system, e.name.as_str(), e.deps.iter().map(|d| d.as_str()).collect()))
            .collect()
    };
    assert_eq!(as_summary(physics_stage_list(false)), physics_basic());
    assert_eq!(as_summary(physics_stage_list(true)), physics_spatial());
    assert_eq!(as_summary(basic_stage_list()), basic());
    assert_eq!(as_summary(spatial_stage_list()), spatial());
}

#[test]
fn a_bundle_is_registered_after_other_stages() {
    let mut plan = DispatchPlan::new();
    plan.add(StageEntry::new(SystemKind::Emission, StageName::EmissionSystem, vec![])).unwrap();
    assert_eq!(BasicPhysicsBundle2::<(), (), (), (), ()>::new().build(&mut plan), Ok(()));
    let mut expected = vec![(SystemKind::Emission, "emission_system", vec![])];
    expected.extend(basic());
    assert_eq!(summary(&plan), expected);
}

#[test]
fn a_second_bundle_is_refused_at_its_first_name_and_leaves_the_plan() {
    let mut plan = DispatchPlan::new();
    assert_eq!(SpatialPhysicsBundle2::<(), (), ()>::new().build(&mut plan), Ok(()));
    assert_eq!(
        PhysicsBundle2::<(), (), ()>::new().build(&mut plan),
        Err(PlanError::DuplicateName(StageName::PhysicsSolverSystem))
    );
    assert_eq!(summary(&plan), spatial());
}

#[test]
fn a_bundle_is_refused_at_a_later_name_and_leaves_the_plan() {
    let mut plan = DispatchPlan::new();
    plan.add(StageEntry::new(SystemKind::PoseTransformSync, StageName::SyncSystem, vec![]))
        .unwrap();
    assert_eq!(
        PhysicsBundle3::<(), (), ()>::new().with_spatial().build(&mut plan),
        Err(PlanError::DuplicateName(StageName::SyncSystem))
    );
    assert_eq!(summary(&plan), vec![(SystemKind::PoseTransformSync, "sync_system", vec![])]);
    assert_eq!(
        BasicPhysicsBundle3::<(), (), (), (), ()>::new().build(&mut plan),
        Err(PlanError::DuplicateName(StageName::SyncSystem))
    );
    assert_eq!(plan.len(), 1);
}
