use vstd::prelude::*;

use crate::limiter::Limiter;
use crate::scalar::Scalar;
use crate::steering_acceleration::linear_acceleration;
use crate::steering_acceleration::zero_acceleration;
use crate::steering_acceleration::SteeringAcceleration;
use crate::steering_acceleration::SteeringAccelerationCalculator;
use crate::steering_behavior::HasSteeringBehavior;
use crate::steering_behavior::IsEnabled;
use crate::steering_behavior::SteeringBehavior;
use crate::vector::scaled_direction;

verus! {

/// The acceleration Seek produces: maximum linear acceleration along the
/// direction from the owner to the target, no angular component.  When the
/// two positions coincide the direction is undefined and the result is, by
/// policy, zero.
pub open spec fn seek_acceleration<L: Limiter>(b: SteeringBehavior<L>) -> SteeringAcceleration {
    let d = b.target.position@.minus(b.owner.position@);
    if d.is_origin() {
        zero_acceleration()
    } else {
        linear_acceleration(d.unit_scaled(b.linear_acceleration_cap()))
    }
}

/// Owner and target at the same position leave Seek's direction
/// undefined; by the documented policy the output is zero, whatever the
/// limiter and velocities.
pub proof fn lemma_seek_same_position<L: Limiter>(b: SteeringBehavior<L>)
    requires
        b.owner.position == b.target.position,
    ensures
        seek_acceleration(b) == zero_acceleration(),
{
}

/// Seek's output is bounded: no component of the linear part exceeds the
/// linear acceleration cap, and the angular part is zero.
pub proof fn lemma_seek_bounded<L: Limiter>(b: SteeringBehavior<L>)
    requires
        b.linear_acceleration_cap_ok(),
    ensures
        seek_acceleration(b).within(b.linear_acceleration_cap()),
        seek_acceleration(b).angular@ == 0,
{
    let d = b.target.position@.minus(b.owner.position@);
    if !d.is_origin() {
        crate::vector::lemma_unit_scaled_bounded(d, b.linear_acceleration_cap());
    }
}

/// Seek calculates the maximum linear acceleration to reach the target
/// location.
pub struct Seek<L: Limiter> {
    /// common steering behavior attributes
    pub behavior: SteeringBehavior<L>,
}

impl<L: Limiter> HasSteeringBehavior<L> for Seek<L> {
    open spec fn steering_behavior_spec(&self) -> SteeringBehavior<L> {
        self.behavior
    }

    fn get_steering_behavior(&self) -> (b: &SteeringBehavior<L>) {
        &self.behavior
    }
}

impl<L: Limiter> IsEnabled for Seek<L> {
    open spec fn enabled_flag(&self) -> bool {
        self.behavior.enabled
    }

    fn is_enabled(&self) -> (r: bool) {
        self.behavior.enabled
    }

    fn set_enabled(&mut self, value: bool) {
        self.behavior.enabled = value;
    }
}

impl<L: Limiter> SteeringAccelerationCalculator for Seek<L> {
    open spec fn real_steering_spec(&self) -> SteeringAcceleration {
        seek_acceleration(self.behavior)
    }

    open spec fn valid_inputs(&self) -> bool {
        self.behavior.kinematics_bounded() && self.behavior.linear_acceleration_cap_ok()
    }

    open spec fn enabled_spec(&self) -> bool {
        self.behavior.enabled
    }

    fn is_enabled(&self) -> (r: bool) {
        self.behavior.enabled
    }

    fn calculate_real_steering(&self, steering_acceleration: &mut SteeringAcceleration) {
        let b = &self.behavior;
        let dx = b.target.position.x.raw - b.owner.position.x.raw;
        let dy = b.target.position.y.raw - b.owner.position.y.raw;
        let dz = b.target.position.z.raw - b.owner.position.z.raw;
        if dx == 0 && dy == 0 && dz == 0 {
            steering_acceleration.set_zero();
        } else {
            let cap = b.read_linear_acceleration_cap();
            steering_acceleration.linear = scaled_direction(dx, dy, dz, cap);
            steering_acceleration.angular = Scalar { raw: 0 };
        }
    }
}

} // verus!
