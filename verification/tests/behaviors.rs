use steering_behaviors::Arrive;
use steering_behaviors::Evade;
use steering_behaviors::Face;
use steering_behaviors::Flee;
use steering_behaviors::FullLimiter;
use steering_behaviors::Pursue;
use steering_behaviors::Scalar;
use steering_behaviors::Seek;
use steering_behaviors::Steerable;
use steering_behaviors::SteeringAcceleration;
use steering_behaviors::SteeringAccelerationCalculator;
use steering_behaviors::SteeringBehavior;
use steering_behaviors::Vec3;

fn units(u: i64) -> Scalar {
    Scalar::from_units(u)
}

fn vec3(x: i64, y: i64, z: i64) -> Vec3 {
    Vec3::new(units(x), units(y), units(z))
}

fn agent_at(position: Vec3, linear_velocity: Vec3) -> Steerable {
    Steerable {
        position,
        linear_velocity,
        angular_velocity: Scalar::zero(),
        bounding_radius: Scalar::zero(),
        orientation: Scalar::zero(),
    }
}

fn behavior(enabled: bool, owner: Steerable, target: Steerable) -> SteeringBehavior<FullLimiter> {
    SteeringBehavior { enabled, limiter: None, owner, target }
}

fn garbage() -> SteeringAcceleration {
    SteeringAcceleration::new(vec3(5, 5, 5), units(5))
}

fn zero() -> SteeringAcceleration {
    SteeringAcceleration::new(Vec3::zero(), Scalar::zero())
}

#[test]
fn flee_one_dimension() {
    let owner = agent_at(vec3(0, 0, 0), Vec3::zero());
    let target = agent_at(vec3(1, 0, 0), Vec3::zero());
    let flee = Flee { behavior: behavior(true, owner, target) };
    let mut sa = zero();
    flee.calculate_steering(&mut sa);
    assert_eq!(vec3(-1, 0, 0), sa.linear);
    assert_eq!(Scalar::zero(), sa.angular);
}

#[test]
fn flee_same_location() {
    let owner = agent_at(vec3(3, 4, 5), vec3(1, 0, 0));
    let target = agent_at(vec3(3, 4, 5), Vec3::zero());
    let flee = Flee { behavior: behavior(true, owner, target) };
    let mut sa = garbage();
    flee.calculate_steering(&mut sa);
    assert!(sa.is_zero());
}

#[test]
fn pursue_stationary_target_reduces_to_seek() {
    let owner = agent_at(vec3(0, 0, 0), vec3(1, 0, 0));
    let target = agent_at(vec3(1, 0, 0), Vec3::zero());
    let pursue = Pursue { behavior: behavior(true, owner, target), max_prediction_time: units(1) };
    let seek = Seek { behavior: behavior(true, owner, target) };
    let mut pursued = zero();
    pursue.calculate_steering(&mut pursued);
    let mut sought = zero();
    seek.calculate_steering(&mut sought);
    assert_eq!(vec3(1, 0, 0), pursued.linear);
    assert_eq!(Scalar::zero(), pursued.angular);
    assert_eq!(sought, pursued);
}

#[test]
fn pursue_leads_a_moving_target() {
    // The target crosses ahead at one unit per second; after the one
    // second horizon it stands at (1, 1, 0), and the owner accelerates
    // along the diagonal: both components carry 1 / sqrt(2) of the cap.
    let owner = agent_at(vec3(0, 0, 0), vec3(1, 0, 0));
    let target = agent_at(vec3(1, 0, 0), vec3(0, 1, 0));
    let pursue = Pursue { behavior: behavior(true, owner, target), max_prediction_time: units(1) };
    let mut sa = zero();
    pursue.calculate_steering(&mut sa);
    assert_eq!(sa.linear.x, sa.linear.y);
    assert_eq!(Scalar::zero(), sa.linear.z);
    assert_eq!(Scalar::new(707_107), sa.linear.x);
    assert_eq!(Scalar::zero(), sa.angular);
}

#[test]
fn evade_runs_from_the_predicted_position() {
    let owner = agent_at(vec3(0, 0, 0), vec3(1, 0, 0));
    let target = agent_at(vec3(1, 0, 0), Vec3::zero());
    let evade = Evade { behavior: behavior(true, owner, target), max_prediction_time: units(1) };
    let mut sa = zero();
    evade.calculate_steering(&mut sa);
    assert_eq!(vec3(-1, 0, 0), sa.linear);
    assert_eq!(Scalar::zero(), sa.angular);
}

#[test]
fn arrive_within_tolerance_is_zero_despite_velocity() {
    let owner = agent_at(vec3(0, 0, 0), vec3(3, 0, 0));
    let target = agent_at(vec3(1, 0, 0), Vec3::zero());
    let arrive = Arrive {
        behavior: behavior(true, owner, target),
        tolerance: units(2),
        deceleration_radius: units(4),
        time_to_target: units(1),
    };
    let mut sa = garbage();
    arrive.calculate_steering(&mut sa);
    assert!(sa.is_zero());
}

#[test]
fn arrive_ramps_down_inside_the_deceleration_radius() {
    // Two units out of a four-unit radius halves the aimed-for speed to
    // one half unit per second; matching it over one second gives one
    // half unit per second squared.
    let owner = agent_at(vec3(0, 0, 0), Vec3::zero());
    let target = agent_at(vec3(2, 0, 0), Vec3::zero());
    let arrive = Arrive {
        behavior: behavior(true, owner, target),
        tolerance: Scalar::zero(),
        deceleration_radius: units(4),
        time_to_target: units(1),
    };
    let mut sa = zero();
    arrive.calculate_steering(&mut sa);
    assert_eq!(Vec3::new(Scalar::new(500_000), Scalar::zero(), Scalar::zero()), sa.linear);
    assert_eq!(Scalar::zero(), sa.angular);
}

#[test]
fn face_turns_along_the_shortest_path() {
    // The target stands straight behind the reference axis, a half turn
    // away; unconstrained, the aimed-for angular speed is the top of the
    // working range and the output's sign follows the rotation.
    let owner = agent_at(vec3(0, 0, 0), Vec3::zero());
    let target = agent_at(vec3(0, -1, 0), Vec3::zero());
    let face = Face {
        behavior: behavior(true, owner, target),
        allign_tolerance: Scalar::new(10_000),
        deceleration_radius: Scalar::zero(),
        time_to_target: units(1),
    };
    let mut sa = zero();
    face.calculate_steering(&mut sa);
    assert!(sa.linear.x.raw == 0 && sa.linear.y.raw == 0 && sa.linear.z.raw == 0);
    assert!(sa.angular.raw > 0);
    assert_eq!(Scalar::new(steering_behaviors::COORD_LIMIT), sa.angular);
}

#[test]
fn face_aligned_is_zero() {
    let owner = agent_at(vec3(0, 0, 0), Vec3::zero());
    let target = agent_at(vec3(0, 1, 0), Vec3::zero());
    let face = Face {
        behavior: behavior(true, owner, target),
        allign_tolerance: Scalar::new(10_000),
        deceleration_radius: Scalar::zero(),
        time_to_target: units(1),
    };
    let mut sa = garbage();
    face.calculate_steering(&mut sa);
    assert!(sa.is_zero());
}

#[test]
fn face_clamps_to_the_limiter_angular_speed() {
    // Half a second to match a two-unit angular speed asks for twice the
    // cap; the clamp scales it back to exactly the cap, sign kept.
    let limiter = FullLimiter::new(units(1), units(1), units(5), units(2), Scalar::new(1));
    let owner = agent_at(vec3(0, 0, 0), Vec3::zero());
    let target = agent_at(vec3(0, -1, 0), Vec3::zero());
    let face = Face {
        behavior: SteeringBehavior { enabled: true, limiter: Some(limiter), owner, target },
        allign_tolerance: Scalar::new(10_000),
        deceleration_radius: Scalar::zero(),
        time_to_target: Scalar::new(500_000),
    };
    let mut sa = zero();
    face.calculate_steering(&mut sa);
    assert_eq!(units(2), sa.angular);
}

#[test]
fn disabled_behaviors_return_zero() {
    let owner = agent_at(vec3(7, -3, 2), vec3(1, 2, 3));
    let target = agent_at(vec3(-4, 5, -6), vec3(3, 2, 1));
    let mut sa = garbage();
    Seek { behavior: behavior(false, owner, target) }.calculate_steering(&mut sa);
    assert!(sa.is_zero());
    let mut sa = garbage();
    Flee { behavior: behavior(false, owner, target) }.calculate_steering(&mut sa);
    assert!(sa.is_zero());
    let mut sa = garbage();
    Pursue { behavior: behavior(false, owner, target), max_prediction_time: units(1) }
        .calculate_steering(&mut sa);
    assert!(sa.is_zero());
    let mut sa = garbage();
    Evade { behavior: behavior(false, owner, target), max_prediction_time: units(1) }
        .calculate_steering(&mut sa);
    assert!(sa.is_zero());
    let mut sa = garbage();
    Arrive {
        behavior: behavior(false, owner, target),
        tolerance: units(1),
        deceleration_radius: units(4),
        time_to_target: units(1),
    }.calculate_steering(&mut sa);
    assert!(sa.is_zero());
    let mut sa = garbage();
    Face {
        behavior: behavior(false, owner, target),
        allign_tolerance: units(1),
        deceleration_radius: units(1),
        time_to_target: units(1),
    }.calculate_steering(&mut sa);
    assert!(sa.is_zero());
}

#[test]
fn face_already_facing_a_perpendicular_target_is_aligned() {
    // The target sits a quarter turn from the reference axis; an owner
    // already oriented a quarter turn away has nothing left to rotate.
    let mut owner = agent_at(vec3(0, 0, 0), Vec3::zero());
    owner.orientation = Scalar::new(1_570_796);
    let target = agent_at(vec3(1, 0, 0), Vec3::zero());
    let face = Face {
        behavior: behavior(true, owner, target),
        allign_tolerance: Scalar::new(10_000),
        deceleration_radius: Scalar::zero(),
        time_to_target: units(1),
    };
    let mut sa = garbage();
    face.calculate_steering(&mut sa);
    assert!(sa.is_zero());
}

#[test]
fn seek_scales_by_the_limiter_cap() {
    let limiter = FullLimiter::new(units(3), units(1), units(1), units(1), Scalar::new(1));
    let owner = agent_at(vec3(0, 0, 0), Vec3::zero());
    let target = agent_at(vec3(1, 0, 0), Vec3::zero());
    let seek = Seek {
        behavior: SteeringBehavior { enabled: true, limiter: Some(limiter), owner, target },
    };
    let mut sa = zero();
    seek.calculate_steering(&mut sa);
    assert_eq!(vec3(3, 0, 0), sa.linear);
    assert_eq!(Scalar::zero(), sa.angular);
}

#[test]
fn evade_scales_by_the_negated_limiter_cap() {
    let limiter = FullLimiter::new(units(2), units(1), units(1), units(1), Scalar::new(1));
    let owner = agent_at(vec3(0, 0, 0), vec3(1, 0, 0));
    let target = agent_at(vec3(1, 0, 0), Vec3::zero());
    let evade = Evade {
        behavior: SteeringBehavior { enabled: true, limiter: Some(limiter), owner, target },
        max_prediction_time: units(1),
    };
    let mut sa = zero();
    evade.calculate_steering(&mut sa);
    assert_eq!(vec3(-2, 0, 0), sa.linear);
    assert_eq!(Scalar::zero(), sa.angular);
}

#[test]
fn pursue_at_rest_uses_the_full_horizon() {
    // With the owner at rest the horizon stays at its maximum and the
    // target is expected a full second ahead, on the diagonal.
    let owner = agent_at(vec3(0, 0, 0), Vec3::zero());
    let target = agent_at(vec3(1, 0, 0), vec3(0, 1, 0));
    let pursue = Pursue { behavior: behavior(true, owner, target), max_prediction_time: units(1) };
    let mut sa = zero();
    pursue.calculate_steering(&mut sa);
    assert_eq!(sa.linear.x, sa.linear.y);
    assert_eq!(Scalar::new(707_107), sa.linear.x);
}

#[test]
fn arrive_at_full_speed_outside_the_deceleration_radius() {
    let owner = agent_at(vec3(0, 0, 0), Vec3::zero());
    let target = agent_at(vec3(10, 0, 0), Vec3::zero());
    let arrive = Arrive {
        behavior: behavior(true, owner, target),
        tolerance: Scalar::zero(),
        deceleration_radius: units(4),
        time_to_target: units(1),
    };
    let mut sa = zero();
    arrive.calculate_steering(&mut sa);
    assert_eq!(vec3(1, 0, 0), sa.linear);
    assert_eq!(Scalar::zero(), sa.angular);
}

#[test]
fn face_under_the_zero_speed_threshold_is_zero() {
    let limiter = FullLimiter::new(units(1), units(1), units(1), units(1), units(5));
    let owner = agent_at(vec3(0, 0, 0), Vec3::zero());
    let target = agent_at(vec3(0, -1, 0), Vec3::zero());
    let face = Face {
        behavior: SteeringBehavior { enabled: true, limiter: Some(limiter), owner, target },
        allign_tolerance: Scalar::new(10_000),
        deceleration_radius: Scalar::zero(),
        time_to_target: units(1),
    };
    let mut sa = garbage();
    face.calculate_steering(&mut sa);
    assert!(sa.is_zero());
}
