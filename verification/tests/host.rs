use amethyst_core::nalgebra as na;
use amethyst_rhusics::bundle::basic_physics::basic_stage_list;
use amethyst_rhusics::bundle::physics_stage_list;
use amethyst_rhusics::bundle::spatial::spatial_stage_list;
use amethyst_rhusics::dispatch::{DispatchPlan, StageEntry, SystemKind};
use amethyst_rhusics::sync::{sync_one, Convert, Pose, Transform};
use cgmath::{Basis2, Point2, Rad, Rotation2};
use collision::algorithm::broad_phase::SweepAndPrune2;
use collision::dbvt::TreeValueWrapped;
use collision::primitive::Primitive2;
use collision::Aabb2;
use rhusics_ecs::physics2d::{setup_dispatch_2d, BodyPose2, GJK2};
use rhusics_ecs::DeltaTime;
use specs::prelude::{DispatcherBuilder, Entity, System};

// The plans of the library, held against the dispatcher and the physics engine themselves.

struct Probe;

impl<'a> System<'a> for Probe {
    type SystemData = ();

    fn run(&mut self, _: Self::SystemData) {}
}

fn dependencies(entry: &StageEntry) -> Vec<&'static str> {
    entry.deps.iter().map(|dep| dep.as_str()).collect()
}

// The dispatcher panics on a dependency that is not registered and on a name twice.
fn replay(stages: &[StageEntry]) {
    let mut builder = DispatcherBuilder::new();
    for entry in stages {
        builder.add(Probe, entry.name.as_str(), &dependencies(entry));
    }
    builder.build();
}

#[test]
fn the_dispatcher_accepts_every_stage_list_in_its_order() {
    replay(&basic_stage_list());
    replay(&spatial_stage_list());
    replay(&physics_stage_list(false));
    replay(&physics_stage_list(true));
}

#[test]
fn the_dispatcher_accepts_what_a_plan_has_accepted() {
    let mut plan = DispatchPlan::new();
    for entry in spatial_stage_list() {
        assert_eq!(plan.add(entry), Ok(()));
    }
    replay(plan.entries());
}

#[test]
fn the_physics_engine_registers_the_stages_that_the_plan_names() {
    for &spatial in &[false, true] {
        let mut builder = DispatcherBuilder::new();
        setup_dispatch_2d::<
            f32,
            Primitive2<f32>,
            BodyPose2<f32>,
            Aabb2<f32>,
            TreeValueWrapped<Entity, Aabb2<f32>>,
            (),
            _,
            _,
            DeltaTime<f32>,
        >(&mut builder, SweepAndPrune2::<f32, Aabb2<f32>>::new(), GJK2::new(), spatial);

        let stages = physics_stage_list(spatial);
        let of_the_engine: Vec<&'static str> = stages
            .iter()
            .filter(|entry| entry.system != SystemKind::PoseTransformSync)
            .map(|entry| entry.name.as_str())
            .collect();
        assert_eq!(of_the_engine.len(), if spatial { 5 } else { 4 });
        // A stage that waits for all of them is accepted only if all are registered.
        builder.add(Probe, "probe", &of_the_engine);
        // The sync is not the engine's: its name is still free, and what it waits for is
        // registered.
        for entry in stages.iter().filter(|entry| entry.system == SystemKind::PoseTransformSync) {
            builder.add(Probe, entry.name.as_str(), &dependencies(entry));
        }
        builder.build();
    }
}

// A conversion as a host writes it, from the quantities of the physics to those of the
// engine.

struct Position(Point2<f32>);

struct Turn(Basis2<f32>);

impl Convert for Position {
    type Output = na::Vector3<f32>;

    fn converted(&self) -> na::Vector3<f32> {
        self.convert()
    }

    fn convert(&self) -> na::Vector3<f32> {
        na::Vector3::new(self.0.x, self.0.y, 0.)
    }
}

impl Convert for Turn {
    type Output = na::UnitQuaternion<f32>;

    fn converted(&self) -> na::UnitQuaternion<f32> {
        self.convert()
    }

    fn convert(&self) -> na::UnitQuaternion<f32> {
        let basis: &cgmath::Matrix2<f32> = self.0.as_ref();
        let matrix = na::Matrix3::new(
            basis[0][0],
            basis[1][0],
            0.,
            basis[0][1],
            basis[1][1],
            0.,
            0.,
            0.,
            1.,
        );
        na::UnitQuaternion::from_rotation_matrix(&na::Rotation3::from_matrix_unchecked(matrix))
    }
}

#[test]
fn a_turn_of_the_physics_is_shown_as_the_same_turn() {
    let quarter = std::f32::consts::FRAC_PI_2;
    let pose = Pose {
        position: Position(Point2::new(3., 4.)),
        rotation: Turn(Rotation2::from_angle(Rad(quarter))),
    };
    let mut shown = Transform {
        translation: na::Vector3::new(9., 9., 9.),
        rotation: na::UnitQuaternion::identity(),
        scale: na::Vector3::new(2., 2., 2.),
    };
    sync_one(true, true, &pose, &mut shown);
    assert_eq!(shown.translation, na::Vector3::new(3., 4., 0.));
    assert_eq!(shown.scale, na::Vector3::new(2., 2., 2.));
    // A quarter turn to the left takes the x axis to the y axis.
    let turned = shown.rotation * na::Vector3::new(1., 0., 0.);
    assert!((turned - na::Vector3::new(0., 1., 0.)).norm() < 1e-6);
    let turned = shown.rotation * na::Vector3::new(0., 1., 0.);
    assert!((turned - na::Vector3::new(-1., 0., 0.)).norm() < 1e-6);
    let turned = shown.rotation * na::Vector3::new(0., 0., 1.);
    assert!((turned - na::Vector3::new(0., 0., 1.)).norm() < 1e-6);
}
