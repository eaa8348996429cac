use vstd::prelude::*;

use crate::limiter::Limiter;
use crate::scalar::Scalar;

verus! {

/// Limits every cap: linear and angular speed and acceleration, and the zero-linear-speed threshold; querying any
/// other cap is a wiring error and faults.
pub struct FullLimiter {
    max_linear_acceleration: Scalar,
    max_linear_speed: Scalar,
    max_angular_acceleration: Scalar,
    max_angular_speed: Scalar,
    zero_linear_speed_threshold: Scalar,
}

impl FullLimiter {
    /// A limiter with the given caps.
    pub fn new(max_linear_acceleration: Scalar, max_linear_speed: Scalar, max_angular_acceleration: Scalar, max_angular_speed: Scalar, zero_linear_speed_threshold: Scalar) -> (l: FullLimiter)
        ensures
            l.max_linear_acceleration_spec() == max_linear_acceleration,
            l.max_linear_speed_spec() == max_linear_speed,
            l.max_angular_acceleration_spec() == max_angular_acceleration,
            l.max_angular_speed_spec() == max_angular_speed,
            l.zero_linear_speed_threshold_spec() == zero_linear_speed_threshold,
    {
        FullLimiter { max_linear_acceleration, max_linear_speed, max_angular_acceleration, max_angular_speed, zero_linear_speed_threshold }
    }
}

impl Limiter for FullLimiter {
    open spec fn supports_zero_linear_speed_threshold(&self) -> bool {
        true
    }

    open spec fn supports_max_linear_speed(&self) -> bool {
        true
    }

    open spec fn supports_max_linear_acceleration(&self) -> bool {
        true
    }

    open spec fn supports_max_angular_speed(&self) -> bool {
        true
    }

    open spec fn supports_max_angular_acceleration(&self) -> bool {
        true
    }

    closed spec fn zero_linear_speed_threshold_spec(&self) -> Scalar {
        self.zero_linear_speed_threshold
    }

    closed spec fn max_linear_speed_spec(&self) -> Scalar {
        self.max_linear_speed
    }

    closed spec fn max_linear_acceleration_spec(&self) -> Scalar {
        self.max_linear_acceleration
    }

    closed spec fn max_angular_speed_spec(&self) -> Scalar {
        self.max_angular_speed
    }

    closed spec fn max_angular_acceleration_spec(&self) -> Scalar {
        self.max_angular_acceleration
    }

    fn get_zero_linear_speed_threshold(&self) -> (r: Scalar) {
        self.zero_linear_speed_threshold
    }

    fn set_zero_linear_speed_threshold(&mut self, threshold: Scalar) {
        self.zero_linear_speed_threshold = threshold;
    }

    fn get_max_linear_speed(&self) -> (r: Scalar) {
        self.max_linear_speed
    }

    fn set_max_linear_speed(&mut self, linear_speed: Scalar) {
        self.max_linear_speed = linear_speed;
    }

    fn get_max_linear_acceleration(&self) -> (r: Scalar) {
        self.max_linear_acceleration
    }

    fn set_max_linear_acceleration(&mut self, linear_acceleration: Scalar) {
        self.max_linear_acceleration = linear_acceleration;
    }

    fn get_max_angular_speed(&self) -> (r: Scalar) {
        self.max_angular_speed
    }

    fn set_max_angular_speed(&mut self, angular_speed: Scalar) {
        self.max_angular_speed = angular_speed;
    }

    fn get_max_angular_acceleration(&self) -> (r: Scalar) {
        self.max_angular_acceleration
    }

    fn set_max_angular_acceleration(&mut self, angular_acceleration: Scalar) {
        self.max_angular_acceleration = angular_acceleration;
    }

}

} // verus!
