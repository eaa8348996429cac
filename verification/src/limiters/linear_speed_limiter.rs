use vstd::prelude::*;
use vstd::pervasive::unreached;

use crate::limiter::Limiter;
use crate::scalar::Scalar;

verus! {

/// Limits only the maximum linear speed; querying any
/// other cap is a wiring error and faults.
pub struct LinearSpeedLimiter {
    max_linear_speed: Scalar,
}

impl LinearSpeedLimiter {
    /// A limiter with the given caps.
    pub fn new(max_linear_speed: Scalar) -> (l: LinearSpeedLimiter)
        ensures
            l.max_linear_speed_spec() == max_linear_speed,
    {
        LinearSpeedLimiter { max_linear_speed }
    }
}

impl Limiter for LinearSpeedLimiter {
    open spec fn supports_zero_linear_speed_threshold(&self) -> bool {
        false
    }

    open spec fn supports_max_linear_speed(&self) -> bool {
        true
    }

    open spec fn supports_max_linear_acceleration(&self) -> bool {
        false
    }

    open spec fn supports_max_angular_speed(&self) -> bool {
        false
    }

    open spec fn supports_max_angular_acceleration(&self) -> bool {
        false
    }

    closed spec fn zero_linear_speed_threshold_spec(&self) -> Scalar {
        Scalar { raw: 0 }
    }

    closed spec fn max_linear_speed_spec(&self) -> Scalar {
        self.max_linear_speed
    }

    closed spec fn max_linear_acceleration_spec(&self) -> Scalar {
        Scalar { raw: 0 }
    }

    closed spec fn max_angular_speed_spec(&self) -> Scalar {
        Scalar { raw: 0 }
    }

    closed spec fn max_angular_acceleration_spec(&self) -> Scalar {
        Scalar { raw: 0 }
    }

    fn get_zero_linear_speed_threshold(&self) -> (r: Scalar) {
        unreached()
    }

    fn set_zero_linear_speed_threshold(&mut self, threshold: Scalar) {
        unreached::<()>()
    }

    fn get_max_linear_speed(&self) -> (r: Scalar) {
        self.max_linear_speed
    }

    fn set_max_linear_speed(&mut self, linear_speed: Scalar) {
        self.max_linear_speed = linear_speed;
    }

    fn get_max_linear_acceleration(&self) -> (r: Scalar) {
        unreached()
    }

    fn set_max_linear_acceleration(&mut self, linear_acceleration: Scalar) {
        unreached::<()>()
    }

    fn get_max_angular_speed(&self) -> (r: Scalar) {
        unreached()
    }

    fn set_max_angular_speed(&mut self, angular_speed: Scalar) {
        unreached::<()>()
    }

    fn get_max_angular_acceleration(&self) -> (r: Scalar) {
        unreached()
    }

    fn set_max_angular_acceleration(&mut self, angular_acceleration: Scalar) {
        unreached::<()>()
    }

}

} // verus!
