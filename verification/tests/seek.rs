use steering_behaviors::FullLimiter;
use steering_behaviors::Scalar;
use steering_behaviors::Seek;
use steering_behaviors::Steerable;
use steering_behaviors::SteeringAcceleration;
use steering_behaviors::SteeringAccelerationCalculator;
use steering_behaviors::SteeringBehavior;
use steering_behaviors::Vec3;

fn units(u: i64) -> Scalar {
    Scalar::from_units(u)
}

fn vec3(x: i64, y: i64, z: i64) -> Vec3 {
    Vec3::new(units(x), units(y), units(z))
}

/// An agent with the fixed kinematics the seek tests start from.
fn test_steerable() -> Steerable {
    Steerable {
        position: vec3(-50, 50, 0),
        linear_velocity: vec3(1, 0, 0),
        angular_velocity: Scalar::zero(),
        bounding_radius: units(2),
        orientation: Scalar::zero(),
    }
}

#[test]
fn test_same_location() {
    let test_target = test_steerable();
    let test_owner = test_steerable();

    let test_behavior: Seek<FullLimiter> = Seek {
        behavior: SteeringBehavior {
            enabled: true,
            limiter: None,
            target: test_target,
            owner: test_owner,
        },
    };

    let mut sa = SteeringAcceleration::new(Vec3::zero(), Scalar::zero());
    test_behavior.calculate_steering(&mut sa);
    assert_eq!(Scalar::zero(), sa.angular);
}

#[test]
fn test_one_dimension() {
    let mut test_target = test_steerable();
    let mut test_owner = test_steerable();

    test_target.set_position(vec3(1, 0, 0));
    test_owner.set_position(vec3(0, 0, 0));

    let test_behavior: Seek<FullLimiter> = Seek {
        behavior: SteeringBehavior {
            enabled: true,
            limiter: None,
            target: test_target,
            owner: test_owner,
        },
    };

    let mut sa = SteeringAcceleration::new(Vec3::zero(), Scalar::zero());
    test_behavior.calculate_steering(&mut sa);
    assert_eq!(vec3(1, 0, 0), sa.linear);
    assert_eq!(Scalar::zero(), sa.angular);
}
