use vstd::prelude::*;

use crate::behavior::seek_acceleration;
use crate::limiter::Limiter;
use crate::math::div_q;
use crate::math::div_tz;
use crate::math::isqrt;
use crate::math::lemma_div_tz_bound;
use crate::math::lemma_div_tz_nonneg;
use crate::math::lemma_mul_magnitude;
use crate::math::lemma_sqrt_lt_of_lt_square;
use crate::math::lemma_square_bound;
use crate::math::mul_wide;
use crate::math::sqrt_floor;
use crate::scalar::Scalar;
use crate::scalar::COORD_LIMIT;
use crate::scalar::SCALE;
use crate::steering_acceleration::linear_acceleration;
use crate::steering_acceleration::zero_acceleration;
use crate::steering_acceleration::SteeringAcceleration;
use crate::steering_acceleration::SteeringAccelerationCalculator;
use crate::steering_behavior::HasSteeringBehavior;
use crate::steering_behavior::IsEnabled;
use crate::steering_behavior::SteeringBehavior;
use crate::vector::scaled_direction;
use crate::vector::sq_norm_raw;
use crate::vector::Vec3i;

verus! {

/// The look-ahead horizon Pursue and Evade extrapolate over: the full
/// `max_prediction_time` by default, tightened to the time the owner needs
/// to cover the current distance at its current speed whenever that is
/// shorter.  Squared quantities are compared, so the tightened horizon is
/// the rounded-down square root of the squared-distance-over-squared-speed
/// ratio.
pub open spec fn prediction_time<L: Limiter>(
    b: SteeringBehavior<L>,
    max_prediction_time: int,
) -> int {
    let square_distance = b.target.position@.minus(b.owner.position@).sq_norm();
    let square_speed = b.owner.linear_velocity@.sq_norm();
    if square_speed > 0 {
        let square_ratio = div_tz(square_distance * SCALE * SCALE, square_speed);
        if square_ratio < max_prediction_time * max_prediction_time {
            sqrt_floor(square_ratio)
        } else {
            max_prediction_time
        }
    } else {
        max_prediction_time
    }
}

/// The look-ahead horizon never exceeds `max_prediction_time`: tightening
/// only shortens it, which keeps the prediction from overshooting a far,
/// slow target.
pub proof fn lemma_prediction_time_bounded<L: Limiter>(
    b: SteeringBehavior<L>,
    max_prediction_time: int,
)
    requires
        0 <= max_prediction_time,
    ensures
        0 <= prediction_time(b, max_prediction_time) <= max_prediction_time,
{
    let d = b.target.position@.minus(b.owner.position@);
    let v = b.owner.linear_velocity@;
    lemma_square_bound(d.x, vstd::math::abs(d.x) as int);
    lemma_square_bound(d.y, vstd::math::abs(d.y) as int);
    lemma_square_bound(d.z, vstd::math::abs(d.z) as int);
    let square_distance = d.sq_norm();
    let square_speed = v.sq_norm();
    if square_speed > 0 {
        let square_ratio = div_tz(square_distance * SCALE * SCALE, square_speed);
        assert(square_distance * SCALE * SCALE >= 0) by (nonlinear_arith)
            requires
                square_distance >= 0,
        ;
        lemma_div_tz_nonneg(square_distance * SCALE * SCALE, square_speed);
        if square_ratio < max_prediction_time * max_prediction_time {
            crate::math::lemma_sqrt_floor_exists(square_ratio);
            lemma_sqrt_lt_of_lt_square(
                square_ratio,
                sqrt_floor(square_ratio),
                max_prediction_time,
            );
        }
    }
}

/// Where the target will stand after the prediction horizon: its position
/// advanced by its linear velocity times the horizon.
pub open spec fn predicted_position<L: Limiter>(
    b: SteeringBehavior<L>,
    max_prediction_time: int,
) -> Vec3i {
    let t = prediction_time(b, max_prediction_time);
    Vec3i {
        x: b.target.position@.x + div_tz(b.target.linear_velocity@.x * t, SCALE as int),
        y: b.target.position@.y + div_tz(b.target.linear_velocity@.y * t, SCALE as int),
        z: b.target.position@.z + div_tz(b.target.linear_velocity@.z * t, SCALE as int),
    }
}

/// The acceleration Pursue produces: maximum linear acceleration toward
/// the predicted target position, no angular component.  When the owner
/// already stands on the predicted position the direction is undefined and
/// the result is, by the same policy as Seek, zero.
pub open spec fn pursue_acceleration<L: Limiter>(
    b: SteeringBehavior<L>,
    max_prediction_time: int,
) -> SteeringAcceleration {
    let d = predicted_position(b, max_prediction_time).minus(b.owner.position@);
    if d.is_origin() {
        zero_acceleration()
    } else {
        linear_acceleration(d.unit_scaled(b.linear_acceleration_cap()))
    }
}

/// Pursue steers the agent toward the target by predicting where the
/// target will be after a bounded look-ahead time: aiming at a moving
/// target.
pub struct Pursue<L: Limiter> {
    /// common steering behavior attributes
    pub behavior: SteeringBehavior<L>,
    /// upper bound on the look-ahead horizon
    pub max_prediction_time: Scalar,
}

impl<L: Limiter> HasSteeringBehavior<L> for Pursue<L> {
    open spec fn steering_behavior_spec(&self) -> SteeringBehavior<L> {
        self.behavior
    }

    fn get_steering_behavior(&self) -> (b: &SteeringBehavior<L>) {
        &self.behavior
    }
}

impl<L: Limiter> IsEnabled for Pursue<L> {
    open spec fn enabled_flag(&self) -> bool {
        self.behavior.enabled
    }

    fn is_enabled(&self) -> (r: bool) {
        self.behavior.enabled
    }

    fn set_enabled(&mut self, value: bool) {
        self.behavior.enabled = value;
    }
}

impl<L: Limiter> SteeringAccelerationCalculator for Pursue<L> {
    open spec fn real_steering_spec(&self) -> SteeringAcceleration {
        pursue_acceleration(self.behavior, self.max_prediction_time@)
    }

    open spec fn valid_inputs(&self) -> bool {
        &&& self.behavior.kinematics_bounded()
        &&& self.behavior.linear_acceleration_cap_ok()
        &&& 0 <= self.max_prediction_time@ <= COORD_LIMIT
    }

    open spec fn enabled_spec(&self) -> bool {
        self.behavior.enabled
    }

    fn is_enabled(&self) -> (r: bool) {
        self.behavior.enabled
    }

    fn calculate_real_steering(&self, steering_acceleration: &mut SteeringAcceleration) {
        let b = &self.behavior;
        let pred = predict_time_raw(b, self.max_prediction_time.raw);
        let (ddx, ddy, ddz) = predicted_offset_raw(b, pred, Ghost(self.max_prediction_time@));
        if ddx == 0 && ddy == 0 && ddz == 0 {
            steering_acceleration.set_zero();
        } else {
            let cap = b.read_linear_acceleration_cap();
            steering_acceleration.linear = scaled_direction(ddx, ddy, ddz, cap);
            steering_acceleration.angular = Scalar { raw: 0 };
        }
    }
}

/// The bounded look-ahead horizon, as raw fixed-point steps.
pub(crate) fn predict_time_raw<L: Limiter>(b: &SteeringBehavior<L>, max_prediction_time: i64) -> (t:
    i64)
    requires
        b.kinematics_bounded(),
        0 <= max_prediction_time <= COORD_LIMIT,
    ensures
        t == prediction_time(*b, max_prediction_time as int),
        0 <= t <= max_prediction_time,
{
    let dx = b.target.position.x.raw - b.owner.position.x.raw;
    let dy = b.target.position.y.raw - b.owner.position.y.raw;
    let dz = b.target.position.z.raw - b.owner.position.z.raw;
    let square_distance = sq_norm_raw(dx, dy, dz);
    let vx = b.owner.linear_velocity.x.raw;
    let vy = b.owner.linear_velocity.y.raw;
    let vz = b.owner.linear_velocity.z.raw;
    let square_speed = sq_norm_raw(vx, vy, vz);
    proof {
        lemma_square_bound(dx as int, 2 * COORD_LIMIT as int);
        lemma_square_bound(dy as int, 2 * COORD_LIMIT as int);
        lemma_square_bound(dz as int, 2 * COORD_LIMIT as int);
    }
    if square_speed > 0 {
        let num = square_distance * (1_000_000_000_000i128);
        assert(num == square_distance * (SCALE as int) * (SCALE as int));
        let square_ratio = div_q(num, square_speed);
        proof {
            lemma_div_tz_nonneg(num as int, square_speed as int);
        }
        let m2 = mul_wide(max_prediction_time, max_prediction_time);
        proof {
            lemma_square_bound(max_prediction_time as int, COORD_LIMIT as int);
        }
        if square_ratio < m2 {
            let r = isqrt(square_ratio);
            proof {
                lemma_sqrt_lt_of_lt_square(
                    square_ratio as int,
                    r as int,
                    max_prediction_time as int,
                );
            }
            r as i64
        } else {
            max_prediction_time
        }
    } else {
        max_prediction_time
    }
}

/// The difference between the predicted target position and the owner's
/// position, as raw components; they stay inside the range that
/// `scaled_direction` accepts.
pub(crate) fn predicted_offset_raw<L: Limiter>(
    b: &SteeringBehavior<L>,
    pred: i64,
    max_prediction_time: Ghost<int>,
) -> (dd: (i64, i64, i64))
    requires
        b.kinematics_bounded(),
        0 <= max_prediction_time@ <= COORD_LIMIT,
        pred == prediction_time(*b, max_prediction_time@),
        0 <= pred <= COORD_LIMIT,
    ensures
        ({
            let d = predicted_position(*b, max_prediction_time@).minus(b.owner.position@);
            &&& dd.0 == d.x
            &&& dd.1 == d.y
            &&& dd.2 == d.z
            &&& d.within(crate::vector::DIR_LIMIT as int)
        }),
{
    let ddx = predicted_component(b.target.position.x.raw, b.target.linear_velocity.x.raw, pred)
        - (b.owner.position.x.raw as i128);
    let ddy = predicted_component(b.target.position.y.raw, b.target.linear_velocity.y.raw, pred)
        - (b.owner.position.y.raw as i128);
    let ddz = predicted_component(b.target.position.z.raw, b.target.linear_velocity.z.raw, pred)
        - (b.owner.position.z.raw as i128);
    (ddx as i64, ddy as i64, ddz as i64)
}

/// One component of the predicted position: `position + velocity * pred`,
/// with the fixed-point product truncated toward zero.
fn predicted_component(position: i64, velocity: i64, pred: i64) -> (p: i128)
    requires
        -COORD_LIMIT <= position <= COORD_LIMIT,
        -COORD_LIMIT <= velocity <= COORD_LIMIT,
        0 <= pred <= COORD_LIMIT,
    ensures
        p == position + div_tz(velocity * pred, SCALE as int),
        -1_000_001_000_000_000_000 <= p <= 1_000_001_000_000_000_000,
{
    let shift = mul_wide(velocity, pred);
    proof {
        lemma_mul_magnitude(velocity as int, pred as int, COORD_LIMIT as int, COORD_LIMIT as int);
        lemma_div_tz_bound(shift as int, SCALE as int, 1_000_000_000_000_000_000);
    }
    let travelled = div_q(shift, SCALE as i128);
    (position as i128) + travelled
}

/// Pursue's output is bounded: no component of the linear part exceeds
/// the linear acceleration cap, and the angular part is zero.
pub proof fn lemma_pursue_bounded<L: Limiter>(b: SteeringBehavior<L>, max_prediction_time: int)
    requires
        b.linear_acceleration_cap_ok(),
    ensures
        pursue_acceleration(b, max_prediction_time).within(b.linear_acceleration_cap()),
        pursue_acceleration(b, max_prediction_time).angular@ == 0,
{
    let d = predicted_position(b, max_prediction_time).minus(b.owner.position@);
    if !d.is_origin() {
        crate::vector::lemma_unit_scaled_bounded(d, b.linear_acceleration_cap());
    }
}

/// A stationary target is intercepted where it stands: with a zero target
/// velocity the predicted position is the target's current position, and
/// Pursue's acceleration is exactly Seek's.
pub proof fn lemma_pursue_stationary_reduces_to_seek<L: Limiter>(
    b: SteeringBehavior<L>,
    max_prediction_time: int,
)
    requires
        b.target.linear_velocity@.is_origin(),
    ensures
        predicted_position(b, max_prediction_time) == b.target.position@,
        pursue_acceleration(b, max_prediction_time) == seek_acceleration(b),
{
    let t = prediction_time(b, max_prediction_time);
    assert(div_tz(0 * t, SCALE as int) == 0) by (nonlinear_arith);
}

} // verus!
