use steering_behaviors::Scalar;
use steering_behaviors::SteeringAcceleration;
use steering_behaviors::Vec3;

fn units(u: i64) -> Scalar {
    Scalar::from_units(u)
}

fn accel(x: i64, y: i64, z: i64, angular: i64) -> SteeringAcceleration {
    SteeringAcceleration::new(Vec3::new(units(x), units(y), units(z)), units(angular))
}

#[test]
fn is_zero_positive() {
    let mut acceleration = accel(1, 2, 3, 5);
    acceleration.set_zero();
    assert!(acceleration.is_zero());
}

#[test]
fn is_zero_negative() {
    let acceleration = accel(1, 2, 3, 5);
    assert_eq!(acceleration.is_zero(), false);
}

#[test]
fn add() {
    let mut acceleration = accel(1, 1, 1, 1);
    let acceleration2 = accel(1, 1, 1, 1);
    acceleration.add(acceleration2);
    assert_eq!(accel(2, 2, 2, 2), acceleration);
}

#[test]
fn scl() {
    let mut acceleration = accel(1, 1, 1, 1);
    acceleration.scl(units(2));
    assert_eq!(accel(2, 2, 2, 2), acceleration);
}

#[test]
fn calculate_square_magnitude() {
    let acceleration = accel(2, 2, 2, 2);
    assert_eq!(units(16), acceleration.calculate_square_magnitude());
}

#[test]
fn calculate_magnitude() {
    let acceleration = accel(2, 2, 2, 2);
    assert_eq!(units(4), acceleration.calculate_magnitude());
}

#[test]
fn mul_add() {
    let mut acceleration = accel(1, 1, 1, 1);
    let acceleration2 = accel(1, 1, 1, 1);
    acceleration.mul_add(acceleration2, units(2));
    assert_eq!(accel(3, 3, 3, 3), acceleration);
}

#[test]
fn mul_add_zero_scale_is_identity() {
    let mut acceleration = accel(4, -7, 2, 9);
    let other = accel(123, -456, 789, -1);
    acceleration.mul_add(other, Scalar::zero());
    assert_eq!(accel(4, -7, 2, 9), acceleration);
}

#[test]
fn magnitude_of_zero() {
    let mut acceleration = accel(5, 0, 0, 0);
    acceleration.set_zero();
    assert_eq!(Scalar::zero(), acceleration.calculate_square_magnitude());
    assert_eq!(Scalar::zero(), acceleration.calculate_magnitude());
}

#[test]
fn fractional_scale_truncates_toward_zero() {
    // 1 unit times one millionth of a unit leaves a single raw step.
    let mut acceleration = accel(1, 0, 0, 0);
    acceleration.scl(Scalar::new(1));
    assert_eq!(SteeringAcceleration::new(
        Vec3::new(Scalar::new(1), Scalar::zero(), Scalar::zero()),
        Scalar::zero(),
    ), acceleration);
}
