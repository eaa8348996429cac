use vstd::prelude::*;

use crate::behavior::pursue::predicted_offset_raw;
use crate::behavior::pursue::predict_time_raw;
use crate::behavior::pursue::predicted_position;
use crate::limiter::Limiter;
use crate::scalar::Scalar;
use crate::scalar::COORD_LIMIT;
use crate::steering_acceleration::linear_acceleration;
use crate::steering_acceleration::zero_acceleration;
use crate::steering_acceleration::SteeringAcceleration;
use crate::steering_acceleration::SteeringAccelerationCalculator;
use crate::steering_behavior::HasSteeringBehavior;
use crate::steering_behavior::IsEnabled;
use crate::steering_behavior::SteeringBehavior;
use crate::vector::scaled_direction;

verus! {

/// The acceleration Evade produces: the mirror of Pursue, maximum linear
/// acceleration away from the predicted target position, no angular
/// component.  The sign of the linear acceleration cap is inverted, so the
/// agent steers away from where the threat will be, not where it is now.
/// When the owner already stands on the predicted position the result is,
/// by the same policy as Seek, zero.
pub open spec fn evade_acceleration<L: Limiter>(
    b: SteeringBehavior<L>,
    max_prediction_time: int,
) -> SteeringAcceleration {
    let d = predicted_position(b, max_prediction_time).minus(b.owner.position@);
    if d.is_origin() {
        zero_acceleration()
    } else {
        linear_acceleration(d.unit_scaled(-b.linear_acceleration_cap()))
    }
}

/// Evade's output is bounded: no component of the linear part exceeds the
/// linear acceleration cap's magnitude, and the angular part is zero.
pub proof fn lemma_evade_bounded<L: Limiter>(b: SteeringBehavior<L>, max_prediction_time: int)
    requires
        b.linear_acceleration_cap_ok(),
    ensures
        evade_acceleration(b, max_prediction_time).within(b.linear_acceleration_cap()),
        evade_acceleration(b, max_prediction_time).angular@ == 0,
{
    let d = predicted_position(b, max_prediction_time).minus(b.owner.position@);
    if !d.is_origin() {
        crate::vector::lemma_unit_scaled_bounded(d, -b.linear_acceleration_cap());
    }
}

/// Evade steers the agent away from the target's predicted position, with
/// the same bounded look-ahead as Pursue.
pub struct Evade<L: Limiter> {
    /// common steering behavior attributes
    pub behavior: SteeringBehavior<L>,
    /// upper bound on the look-ahead horizon
    pub max_prediction_time: Scalar,
}

impl<L: Limiter> HasSteeringBehavior<L> for Evade<L> {
    open spec fn steering_behavior_spec(&self) -> SteeringBehavior<L> {
        self.behavior
    }

    fn get_steering_behavior(&self) -> (b: &SteeringBehavior<L>) {
        &self.behavior
    }
}

impl<L: Limiter> IsEnabled for Evade<L> {
    open spec fn enabled_flag(&self) -> bool {
        self.behavior.enabled
    }

    fn is_enabled(&self) -> (r: bool) {
        self.behavior.enabled
    }

    fn set_enabled(&mut self, value: bool) {
        self.behavior.enabled = value;
    }
}

impl<L: Limiter> SteeringAccelerationCalculator for Evade<L> {
    open spec fn real_steering_spec(&self) -> SteeringAcceleration {
        evade_acceleration(self.behavior, self.max_prediction_time@)
    }

    open spec fn valid_inputs(&self) -> bool {
        &&& self.behavior.kinematics_bounded()
        &&& self.behavior.linear_acceleration_cap_ok()
        &&& 0 <= self.max_prediction_time@ <= COORD_LIMIT
    }

    open spec fn enabled_spec(&self) -> bool {
        self.behavior.enabled
    }

    fn is_enabled(&self) -> (r: bool) {
        self.behavior.enabled
    }

    fn calculate_real_steering(&self, steering_acceleration: &mut SteeringAcceleration) {
        let b = &self.behavior;
        let pred = predict_time_raw(b, self.max_prediction_time.raw);
        let (ddx, ddy, ddz) = predicted_offset_raw(b, pred, Ghost(self.max_prediction_time@));
        if ddx == 0 && ddy == 0 && ddz == 0 {
            steering_acceleration.set_zero();
        } else {
            let cap = b.read_linear_acceleration_cap();
            steering_acceleration.linear = scaled_direction(ddx, ddy, ddz, -cap);
            steering_acceleration.angular = Scalar { raw: 0 };
        }
    }
}

} // verus!
