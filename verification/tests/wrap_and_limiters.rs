use steering_behaviors::wrap_angle_around_zero;
use steering_behaviors::AngularAccelerationLimiter;
use steering_behaviors::AngularLimiter;
use steering_behaviors::AngularSpeedLimiter;
use steering_behaviors::FullLimiter;
use steering_behaviors::Limiter;
use steering_behaviors::LinearAccelerationLimiter;
use steering_behaviors::LinearLimiter;
use steering_behaviors::LinearSpeedLimiter;
use steering_behaviors::Scalar;
use steering_behaviors::PI;
use steering_behaviors::TWO_PI;

fn units(u: i64) -> Scalar {
    Scalar::from_units(u)
}

#[test]
fn wrap_keeps_small_angles() {
    assert_eq!(100, wrap_angle_around_zero(100));
    assert_eq!(-100, wrap_angle_around_zero(-100));
    assert_eq!(0, wrap_angle_around_zero(0));
}

#[test]
fn wrap_reduces_whole_turns() {
    assert_eq!(0, wrap_angle_around_zero(TWO_PI));
    assert_eq!(0, wrap_angle_around_zero(-TWO_PI));
    assert_eq!(7, wrap_angle_around_zero(3 * TWO_PI + 7));
}

#[test]
fn wrap_reflects_past_the_half_turn() {
    assert_eq!(PI, wrap_angle_around_zero(PI));
    assert_eq!(-PI + 1, wrap_angle_around_zero(PI + 1));
    assert_eq!(PI, wrap_angle_around_zero(-PI));
    assert_eq!(PI - 1, wrap_angle_around_zero(-PI - 1));
}

#[test]
fn full_limiter_reads_back_its_caps() {
    let mut l = FullLimiter::new(units(1), units(2), units(3), units(4), units(5));
    assert_eq!(units(1), l.get_max_linear_acceleration());
    assert_eq!(units(2), l.get_max_linear_speed());
    assert_eq!(units(3), l.get_max_angular_acceleration());
    assert_eq!(units(4), l.get_max_angular_speed());
    assert_eq!(units(5), l.get_zero_linear_speed_threshold());
    l.set_max_linear_acceleration(units(10));
    l.set_max_linear_speed(units(20));
    l.set_max_angular_acceleration(units(30));
    l.set_max_angular_speed(units(40));
    l.set_zero_linear_speed_threshold(units(50));
    assert_eq!(units(10), l.get_max_linear_acceleration());
    assert_eq!(units(20), l.get_max_linear_speed());
    assert_eq!(units(30), l.get_max_angular_acceleration());
    assert_eq!(units(40), l.get_max_angular_speed());
    assert_eq!(units(50), l.get_zero_linear_speed_threshold());
}

#[test]
fn specialized_limiters_read_back_their_caps() {
    let linear_speed = LinearSpeedLimiter::new(units(6));
    assert_eq!(units(6), linear_speed.get_max_linear_speed());

    let linear_acceleration = LinearAccelerationLimiter::new(units(7));
    assert_eq!(units(7), linear_acceleration.get_max_linear_acceleration());

    let mut linear = LinearLimiter::new(units(8), units(9));
    assert_eq!(units(8), linear.get_max_linear_acceleration());
    assert_eq!(units(9), linear.get_max_linear_speed());
    linear.set_max_linear_speed(units(11));
    assert_eq!(units(11), linear.get_max_linear_speed());

    let angular_speed = AngularSpeedLimiter::new(units(12));
    assert_eq!(units(12), angular_speed.get_max_angular_speed());

    let angular_acceleration = AngularAccelerationLimiter::new(units(13));
    assert_eq!(units(13), angular_acceleration.get_max_angular_acceleration());

    let angular = AngularLimiter::new(units(14), units(15));
    assert_eq!(units(14), angular.get_max_angular_acceleration());
    assert_eq!(units(15), angular.get_max_angular_speed());
}
