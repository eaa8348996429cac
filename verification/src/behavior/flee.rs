use vstd::prelude::*;

use crate::limiter::Limiter;
use crate::scalar::Scalar;
use crate::steering_acceleration::linear_acceleration;
use crate::steering_acceleration::zero_acceleration;
use crate::steering_acceleration::SteeringAcceleration;
use crate::steering_acceleration::SteeringAccelerationCalculator;
use crate::steering_behavior::HasSteeringBehavior;
use crate::steering_behavior::IsEnabled;
use crate::steering_behavior::SteeringBehavior;
use crate::vector::scaled_direction;

verus! {

/// The acceleration Flee produces: the mirror of Seek, maximum linear
/// acceleration along the direction from the target to the owner, no
/// angular component.  When the two positions coincide the result is, by
/// the same policy as Seek, zero.
pub open spec fn flee_acceleration<L: Limiter>(b: SteeringBehavior<L>) -> SteeringAcceleration {
    let d = b.owner.position@.minus(b.target.position@);
    if d.is_origin() {
        zero_acceleration()
    } else {
        linear_acceleration(d.unit_scaled(b.linear_acceleration_cap()))
    }
}

/// Owner and target at the same position leave Flee's direction
/// undefined; by the same policy as Seek the output is zero.
pub proof fn lemma_flee_same_position<L: Limiter>(b: SteeringBehavior<L>)
    requires
        b.owner.position == b.target.position,
    ensures
        flee_acceleration(b) == zero_acceleration(),
{
}

/// Flee's output is bounded: no component of the linear part exceeds the
/// linear acceleration cap, and the angular part is zero.
pub proof fn lemma_flee_bounded<L: Limiter>(b: SteeringBehavior<L>)
    requires
        b.linear_acceleration_cap_ok(),
    ensures
        flee_acceleration(b).within(b.linear_acceleration_cap()),
        flee_acceleration(b).angular@ == 0,
{
    let d = b.owner.position@.minus(b.target.position@);
    if !d.is_origin() {
        crate::vector::lemma_unit_scaled_bounded(d, b.linear_acceleration_cap());
    }
}

/// Flee is the opposite of Seek: it produces the linear steering
/// acceleration to go away from the target.
pub struct Flee<L: Limiter> {
    /// common steering behavior attributes
    pub behavior: SteeringBehavior<L>,
}

impl<L: Limiter> HasSteeringBehavior<L> for Flee<L> {
    open spec fn steering_behavior_spec(&self) -> SteeringBehavior<L> {
        self.behavior
    }

    fn get_steering_behavior(&self) -> (b: &SteeringBehavior<L>) {
        &self.behavior
    }
}

impl<L: Limiter> IsEnabled for Flee<L> {
    open spec fn enabled_flag(&self) -> bool {
        self.behavior.enabled
    }

    fn is_enabled(&self) -> (r: bool) {
        self.behavior.enabled
    }

    fn set_enabled(&mut self, value: bool) {
        self.behavior.enabled = value;
    }
}

impl<L: Limiter> SteeringAccelerationCalculator for Flee<L> {
    open spec fn real_steering_spec(&self) -> SteeringAcceleration {
        flee_acceleration(self.behavior)
    }

    open spec fn valid_inputs(&self) -> bool {
        self.behavior.kinematics_bounded() && self.behavior.linear_acceleration_cap_ok()
    }

    open spec fn enabled_spec(&self) -> bool {
        self.behavior.enabled
    }

    fn is_enabled(&self) -> (r: bool) {
        self.behavior.enabled
    }

    fn calculate_real_steering(&self, steering_acceleration: &mut SteeringAcceleration) {
        let b = &self.behavior;
        let dx = b.owner.position.x.raw - b.target.position.x.raw;
        let dy = b.owner.position.y.raw - b.target.position.y.raw;
        let dz = b.owner.position.z.raw - b.target.position.z.raw;
        if dx == 0 && dy == 0 && dz == 0 {
            steering_acceleration.set_zero();
        } else {
            let cap = b.read_linear_acceleration_cap();
            steering_acceleration.linear = scaled_direction(dx, dy, dz, cap);
            steering_acceleration.angular = Scalar { raw: 0 };
        }
    }
}

} // verus!
