use vstd::prelude::*;
use vstd::pervasive::unreached;

use crate::limiter::Limiter;
use crate::scalar::Scalar;

verus! {

/// Limits the maximum angular acceleration and the maximum angular speed; querying any
/// other cap is a wiring error and faults.
pub struct AngularLimiter {
    max_angular_acceleration: Scalar,
    max_angular_speed: Scalar,
}

impl AngularLimiter {
    /// A limiter with the given caps.
    pub fn new(max_angular_acceleration: Scalar, max_angular_speed: Scalar) -> (l: AngularLimiter)
        ensures
            l.max_angular_acceleration_spec() == max_angular_acceleration,
            l.max_angular_speed_spec() == max_angular_speed,
    {
        AngularLimiter { max_angular_acceleration, max_angular_speed }
    }
}

impl Limiter for AngularLimiter {
    open spec fn supports_zero_linear_speed_threshold(&self) -> bool {
        false
    }

    open spec fn supports_max_linear_speed(&self) -> bool {
        false
    }

    open spec fn supports_max_linear_acceleration(&self) -> bool {
        false
    }

    open spec fn supports_max_angular_speed(&self) -> bool {
        true
    }

    open spec fn supports_max_angular_acceleration(&self) -> bool {
        true
    }

    closed spec fn zero_linear_speed_threshold_spec(&self) -> Scalar {
        Scalar { raw: 0 }
    }

    closed spec fn max_linear_speed_spec(&self) -> Scalar {
        Scalar { raw: 0 }
    }

    closed spec fn max_linear_acceleration_spec(&self) -> Scalar {
        Scalar { raw: 0 }
    }

    closed spec fn max_angular_speed_spec(&self) -> Scalar {
        self.max_angular_speed
    }

    closed spec fn max_angular_acceleration_spec(&self) -> Scalar {
        self.max_angular_acceleration
    }

    fn get_zero_linear_speed_threshold(&self) -> (r: Scalar) {
        unreached()
    }

    fn set_zero_linear_speed_threshold(&mut self, threshold: Scalar) {
        unreached::<()>()
    }

    fn get_max_linear_speed(&self) -> (r: Scalar) {
        unreached()
    }

    fn set_max_linear_speed(&mut self, linear_speed: Scalar) {
        unreached::<()>()
    }

    fn get_max_linear_acceleration(&self) -> (r: Scalar) {
        unreached()
    }

    fn set_max_linear_acceleration(&mut self, linear_acceleration: Scalar) {
        unreached::<()>()
    }

    fn get_max_angular_speed(&self) -> (r: Scalar) {
        self.max_angular_speed
    }

    fn set_max_angular_speed(&mut self, angular_speed: Scalar) {
        self.max_angular_speed = angular_speed;
    }

    fn get_max_angular_acceleration(&self) -> (r: Scalar) {
        self.max_angular_acceleration
    }

    fn set_max_angular_acceleration(&mut self, angular_acceleration: Scalar) {
        self.max_angular_acceleration = angular_acceleration;
    }

}

} // verus!
