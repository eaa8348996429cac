use vstd::prelude::*;
use vstd::pervasive::unreached;

use crate::limiter::Limiter;
use crate::scalar::Scalar;

verus! {

/// Limits only the maximum linear acceleration; querying any
/// other cap is a wiring error and faults.
pub struct LinearAccelerationLimiter {
    max_linear_acceleration: Scalar,
}

impl LinearAccelerationLimiter {
    /// A limiter with the given caps.
    pub fn new(max_linear_acceleration: Scalar) -> (l: LinearAccelerationLimiter)
        ensures
            l.max_linear_acceleration_spec() == max_linear_acceleration,
    {
        LinearAccelerationLimiter { max_linear_acceleration }
    }
}

impl Limiter for LinearAccelerationLimiter {
    open spec fn supports_zero_linear_speed_threshold(&self) -> bool {
        false
    }

    open spec fn supports_max_linear_speed(&self) -> bool {
        false
    }

    open spec fn supports_max_linear_acceleration(&self) -> bool {
        true
    }

    open spec fn supports_max_angular_speed(&self) -> bool {
        false
    }

    open spec fn supports_max_angular_acceleration(&self) -> bool {
        false
    }

    closed spec fn zero_linear_speed_threshold_spec(&self) -> Scalar {
        Scalar { raw: 0 }
    }

    closed spec fn max_linear_speed_spec(&self) -> Scalar {
        Scalar { raw: 0 }
    }

    closed spec fn max_linear_acceleration_spec(&self) -> Scalar {
        self.max_linear_acceleration
    }

    closed spec fn max_angular_speed_spec(&self) -> Scalar {
        Scalar { raw: 0 }
    }

    closed spec fn max_angular_acceleration_spec(&self) -> Scalar {
        Scalar { raw: 0 }
    }

    fn get_zero_linear_speed_threshold(&self) -> (r: Scalar) {
        unreached()
    }

    fn set_zero_linear_speed_threshold(&mut self, threshold: Scalar) {
        unreached::<()>()
    }

    fn get_max_linear_speed(&self) -> (r: Scalar) {
        unreached()
    }

    fn set_max_linear_speed(&mut self, linear_speed: Scalar) {
        unreached::<()>()
    }

    fn get_max_linear_acceleration(&self) -> (r: Scalar) {
        self.max_linear_acceleration
    }

    fn set_max_linear_acceleration(&mut self, linear_acceleration: Scalar) {
        self.max_linear_acceleration = linear_acceleration;
    }

    fn get_max_angular_speed(&self) -> (r: Scalar) {
        unreached()
    }

    fn set_max_angular_speed(&mut self, angular_speed: Scalar) {
        unreached::<()>()
    }

    fn get_max_angular_acceleration(&self) -> (r: Scalar) {
        unreached()
    }

    fn set_max_angular_acceleration(&mut self, angular_acceleration: Scalar) {
        unreached::<()>()
    }

}

} // verus!
