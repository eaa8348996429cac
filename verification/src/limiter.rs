use vstd::prelude::*;

use crate::scalar::Scalar;

verus! {

/// Caps on linear and angular speed and acceleration, plus the
/// zero-linear-speed threshold that guards degenerate geometry.
///
/// A specialized limiter may model only the subset of caps relevant to the
/// behaviors it is paired with; querying a cap it does not support is a
/// wiring error, so each accessor requires the matching `supports_*`
/// capability.  Each setter leaves every other cap and every capability
/// flag unchanged.
pub trait Limiter: Sized {
    /// Whether this limiter models the zero-linear-speed threshold.
    spec fn supports_zero_linear_speed_threshold(&self) -> bool;

    /// Whether this limiter models the maximum linear speed.
    spec fn supports_max_linear_speed(&self) -> bool;

    /// Whether this limiter models the maximum linear acceleration.
    spec fn supports_max_linear_acceleration(&self) -> bool;

    /// Whether this limiter models the maximum angular speed.
    spec fn supports_max_angular_speed(&self) -> bool;

    /// Whether this limiter models the maximum angular acceleration.
    spec fn supports_max_angular_acceleration(&self) -> bool;

    /// The modeled zero-linear-speed threshold.
    spec fn zero_linear_speed_threshold_spec(&self) -> Scalar;

    /// The modeled maximum linear speed.
    spec fn max_linear_speed_spec(&self) -> Scalar;

    /// The modeled maximum linear acceleration.
    spec fn max_linear_acceleration_spec(&self) -> Scalar;

    /// The modeled maximum angular speed.
    spec fn max_angular_speed_spec(&self) -> Scalar;

    /// The modeled maximum angular acceleration.
    spec fn max_angular_acceleration_spec(&self) -> Scalar;

    fn get_zero_linear_speed_threshold(&self) -> (r: Scalar)
        requires
            self.supports_zero_linear_speed_threshold(),
        ensures
            r == self.zero_linear_speed_threshold_spec(),
    ;

    fn set_zero_linear_speed_threshold(&mut self, threshold: Scalar)
        requires
            old(self).supports_zero_linear_speed_threshold(),
        ensures
            final(self).zero_linear_speed_threshold_spec() == threshold,
            final(self).supports_zero_linear_speed_threshold() == old(
                self,
            ).supports_zero_linear_speed_threshold(),
            final(self).supports_max_linear_speed() == old(self).supports_max_linear_speed(),
            final(self).supports_max_linear_acceleration() == old(
                self,
            ).supports_max_linear_acceleration(),
            final(self).supports_max_angular_speed() == old(self).supports_max_angular_speed(),
            final(self).supports_max_angular_acceleration() == old(
                self,
            ).supports_max_angular_acceleration(),
            final(self).max_linear_speed_spec() == old(self).max_linear_speed_spec(),
            final(self).max_linear_acceleration_spec() == old(self).max_linear_acceleration_spec(),
            final(self).max_angular_speed_spec() == old(self).max_angular_speed_spec(),
            final(self).max_angular_acceleration_spec() == old(
                self,
            ).max_angular_acceleration_spec(),
    ;

    fn get_max_linear_speed(&self) -> (r: Scalar)
        requires
            self.supports_max_linear_speed(),
        ensures
            r == self.max_linear_speed_spec(),
    ;

    fn set_max_linear_speed(&mut self, linear_speed: Scalar)
        requires
            old(self).supports_max_linear_speed(),
        ensures
            final(self).max_linear_speed_spec() == linear_speed,
            final(self).supports_zero_linear_speed_threshold() == old(
                self,
            ).supports_zero_linear_speed_threshold(),
            final(self).supports_max_linear_speed() == old(self).supports_max_linear_speed(),
            final(self).supports_max_linear_acceleration() == old(
                self,
            ).supports_max_linear_acceleration(),
            final(self).supports_max_angular_speed() == old(self).supports_max_angular_speed(),
            final(self).supports_max_angular_acceleration() == old(
                self,
            ).supports_max_angular_acceleration(),
            final(self).zero_linear_speed_threshold_spec() == old(
                self,
            ).zero_linear_speed_threshold_spec(),
            final(self).max_linear_acceleration_spec() == old(self).max_linear_acceleration_spec(),
            final(self).max_angular_speed_spec() == old(self).max_angular_speed_spec(),
            final(self).max_angular_acceleration_spec() == old(
                self,
            ).max_angular_acceleration_spec(),
    ;

    fn get_max_linear_acceleration(&self) -> (r: Scalar)
        requires
            self.supports_max_linear_acceleration(),
        ensures
            r == self.max_linear_acceleration_spec(),
    ;

    fn set_max_linear_acceleration(&mut self, linear_acceleration: Scalar)
        requires
            old(self).supports_max_linear_acceleration(),
        ensures
            final(self).max_linear_acceleration_spec() == linear_acceleration,
            final(self).supports_zero_linear_speed_threshold() == old(
                self,
            ).supports_zero_linear_speed_threshold(),
            final(self).supports_max_linear_speed() == old(self).supports_max_linear_speed(),
            final(self).supports_max_linear_acceleration() == old(
                self,
            ).supports_max_linear_acceleration(),
            final(self).supports_max_angular_speed() == old(self).supports_max_angular_speed(),
            final(self).supports_max_angular_acceleration() == old(
                self,
            ).supports_max_angular_acceleration(),
            final(self).zero_linear_speed_threshold_spec() == old(
                self,
            ).zero_linear_speed_threshold_spec(),
            final(self).max_linear_speed_spec() == old(self).max_linear_speed_spec(),
            final(self).max_angular_speed_spec() == old(self).max_angular_speed_spec(),
            final(self).max_angular_acceleration_spec() == old(
                self,
            ).max_angular_acceleration_spec(),
    ;

    fn get_max_angular_speed(&self) -> (r: Scalar)
        requires
            self.supports_max_angular_speed(),
        ensures
            r == self.max_angular_speed_spec(),
    ;

    fn set_max_angular_speed(&mut self, angular_speed: Scalar)
        requires
            old(self).supports_max_angular_speed(),
        ensures
            final(self).max_angular_speed_spec() == angular_speed,
            final(self).supports_zero_linear_speed_threshold() == old(
                self,
            ).supports_zero_linear_speed_threshold(),
            final(self).supports_max_linear_speed() == old(self).supports_max_linear_speed(),
            final(self).supports_max_linear_acceleration() == old(
                self,
            ).supports_max_linear_acceleration(),
            final(self).supports_max_angular_speed() == old(self).supports_max_angular_speed(),
            final(self).supports_max_angular_acceleration() == old(
                self,
            ).supports_max_angular_acceleration(),
            final(self).zero_linear_speed_threshold_spec() == old(
                self,
            ).zero_linear_speed_threshold_spec(),
            final(self).max_linear_speed_spec() == old(self).max_linear_speed_spec(),
            final(self).max_linear_acceleration_spec() == old(self).max_linear_acceleration_spec(),
            final(self).max_angular_acceleration_spec() == old(
                self,
            ).max_angular_acceleration_spec(),
    ;

    fn get_max_angular_acceleration(&self) -> (r: Scalar)
        requires
            self.supports_max_angular_acceleration(),
        ensures
            r == self.max_angular_acceleration_spec(),
    ;

    fn set_max_angular_acceleration(&mut self, angular_acceleration: Scalar)
        requires
            old(self).supports_max_angular_acceleration(),
        ensures
            final(self).max_angular_acceleration_spec() == angular_acceleration,
            final(self).supports_zero_linear_speed_threshold() == old(
                self,
            ).supports_zero_linear_speed_threshold(),
            final(self).supports_max_linear_speed() == old(self).supports_max_linear_speed(),
            final(self).supports_max_linear_acceleration() == old(
                self,
            ).supports_max_linear_acceleration(),
            final(self).supports_max_angular_speed() == old(self).supports_max_angular_speed(),
            final(self).supports_max_angular_acceleration() == old(
                self,
            ).supports_max_angular_acceleration(),
            final(self).zero_linear_speed_threshold_spec() == old(
                self,
            ).zero_linear_speed_threshold_spec(),
            final(self).max_linear_speed_spec() == old(self).max_linear_speed_spec(),
            final(self).max_linear_acceleration_spec() == old(self).max_linear_acceleration_spec(),
            final(self).max_angular_speed_spec() == old(self).max_angular_speed_spec(),
    ;
}

} // verus!
