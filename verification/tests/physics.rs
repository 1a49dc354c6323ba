use cgmath::{Basis2, One, Point2, Vector2};
use collision::algorithm::broad_phase::SweepAndPrune2;
use collision::{Aabb2, CollisionStrategy, Contact, HasBound};
use rhusics_core::{resolve_contact, BodyPose, Mass, Material, NextFrame, Pose, ResolveData, Velocity};

// The broad phase and the solver that the stages of the bundles run.

#[derive(Debug, Clone)]
struct Bounded {
    id: u32,
    bound: Aabb2<f32>,
}

impl HasBound for Bounded {
    type Bound = Aabb2<f32>;

    fn bound(&self) -> &Aabb2<f32> {
        &self.bound
    }
}

fn bounded(id: u32, min_x: f32, min_y: f32, max_x: f32, max_y: f32) -> Bounded {
    Bounded { id, bound: Aabb2::new(Point2::new(min_x, min_y), Point2::new(max_x, max_y)) }
}

fn pairs_by_id(mut shapes: Vec<Bounded>) -> Vec<(u32, u32)> {
    let mut sweep = SweepAndPrune2::<f32, Aabb2<f32>>::new();
    let mut pairs: Vec<(u32, u32)> = sweep
        .find_collider_pairs(&mut shapes)
        .iter()
        .map(|&(a, b)| {
            let (a, b) = (shapes[a].id, shapes[b].id);
            (a.min(b), a.max(b))
        })
        .collect();
    pairs.sort();
    pairs
}

fn apart() -> Vec<Bounded> {
    vec![
        bounded(0, 0., 0., 1., 1.),
        bounded(1, 2., 0., 3., 1.),
        bounded(2, 4., 5., 5., 6.),
        bounded(3, 6., -3., 7., -2.),
        bounded(4, 8., 0., 9., 1.),
        bounded(5, 10., 10., 11., 11.),
    ]
}

fn rotations(shapes: &[Bounded]) -> Vec<Vec<Bounded>> {
    let mut all = Vec::new();
    for start in 0..shapes.len() {
        let mut order = shapes[start..].to_vec();
        order.extend_from_slice(&shapes[..start]);
        all.push(order.clone());
        order.reverse();
        all.push(order);
    }
    all
}

#[test]
fn sweep_and_prune_finds_no_pair_among_boxes_that_are_apart() {
    for order in rotations(&apart()) {
        assert_eq!(pairs_by_id(order), vec![]);
    }
    assert_eq!(pairs_by_id(vec![]), vec![]);
    assert_eq!(pairs_by_id(vec![bounded(0, 0., 0., 1., 1.)]), vec![]);
}

#[test]
fn sweep_and_prune_finds_exactly_the_overlapping_pair_in_every_order() {
    let mut shapes = apart();
    shapes.push(bounded(6, 4.5, 5.5, 5.5, 6.5));
    for order in rotations(&shapes) {
        assert_eq!(pairs_by_id(order), vec![(2, 6)]);
    }
}

type Pose2 = BodyPose<Point2<f32>, Basis2<f32>>;
type Velocity2 = Velocity<Vector2<f32>, f32>;

struct Body {
    pose: NextFrame<Pose2>,
    velocity: NextFrame<Velocity2>,
    mass: Mass<f32, f32>,
}

fn body(x: f32, velocity_x: f32, mass: Mass<f32, f32>) -> Body {
    Body {
        pose: NextFrame { value: BodyPose::new(Point2::new(x, 0.), Basis2::one()) },
        velocity: NextFrame { value: Velocity::new(Vector2::new(velocity_x, 0.), 0.) },
        mass,
    }
}

fn resolve(a: &mut Body, b: &mut Body, depth: f32) {
    let material = Material::default();
    let contact =
        Contact::new_impl(CollisionStrategy::FullResolution, Vector2::new(1f32, 0.), depth);
    let (change_a, change_b) = resolve_contact(
        &contact,
        &ResolveData::new(Some(&a.velocity), &a.pose.value, &a.mass, &material),
        &ResolveData::new(Some(&b.velocity), &b.pose.value, &b.mass, &material),
    );
    change_a.apply(Some(&mut a.pose), Some(&mut a.velocity));
    change_b.apply(Some(&mut b.pose), Some(&mut b.velocity));
}

#[test]
fn head_on_boxes_of_equal_mass_reverse_their_velocities() {
    let mut left = body(0., 1., Mass::new_with_inertia(1., 0.));
    let mut right = body(1., -1., Mass::new_with_inertia(1., 0.));
    resolve(&mut left, &mut right, 0.5);
    assert!((left.velocity.value.linear().x - -1.).abs() < 1e-6);
    assert!((right.velocity.value.linear().x - 1.).abs() < 1e-6);
    assert_eq!(left.velocity.value.linear().y, 0.);
    assert_eq!(right.velocity.value.linear().y, 0.);
    assert!(left.pose.value.position().x < 0.);
    assert!(right.pose.value.position().x > 1.);
}

#[test]
fn separating_boxes_get_no_impulse_however_often_the_contact_is_resolved() {
    let mut left = body(0., -1., Mass::new_with_inertia(1., 0.));
    let mut right = body(1., 2., Mass::new_with_inertia(1., 0.));
    for _ in 0..3 {
        resolve(&mut left, &mut right, 0.);
        assert_eq!(left.velocity.value.linear().x, -1.);
        assert_eq!(right.velocity.value.linear().x, 2.);
        assert_eq!(left.pose.value.position().x, 0.);
        assert_eq!(right.pose.value.position().x, 1.);
    }
}

#[test]
fn a_body_of_infinite_mass_stays_where_it_is() {
    let mut wall = body(0., 0., Mass::infinite());
    let mut ball = body(1., -3., Mass::new_with_inertia(1., 0.));
    for _ in 0..5 {
        resolve(&mut wall, &mut ball, 0.5);
        assert_eq!(wall.pose.value.position().x, 0.);
        assert_eq!(wall.pose.value.position().y, 0.);
        assert_eq!(wall.velocity.value.linear().x, 0.);
    }
    assert!(ball.velocity.value.linear().x > 0.);
}
