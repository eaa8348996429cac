use vstd::prelude::*;

use crate::limiter::Limiter;
use crate::math::div_q;
use crate::math::div_tz;
use crate::math::isqrt;
use crate::math::lemma_component_le_sqrt;
use crate::math::lemma_div_tz_bound;
use crate::math::lemma_sqrt_lt_of_lt_square;
use crate::math::lemma_square_bound;
use crate::math::mul_wide;
use crate::math::sqrt_floor;
use crate::scalar::Scalar;
use crate::scalar::COORD_LIMIT;
use crate::scalar::SCALE;
use crate::steering_acceleration::linear_acceleration;
use crate::steering_acceleration::zero_acceleration;
use crate::steering_acceleration::SteeringAcceleration;
use crate::steering_acceleration::SteeringAccelerationCalculator;
use crate::steering_behavior::HasSteeringBehavior;
use crate::steering_behavior::IsEnabled;
use crate::steering_behavior::SteeringBehavior;
use crate::vector::sq_norm_raw;
use crate::vector::Vec3;
use crate::vector::Vec3i;

verus! {

/// The target speed Arrive aims for: the maximum linear speed, ramped
/// down linearly once the distance falls inside the deceleration radius.
pub open spec fn arrive_target_speed<L: Limiter>(
    b: SteeringBehavior<L>,
    dist: int,
    deceleration_radius: int,
) -> int {
    let base = b.linear_speed_cap();
    if dist <= deceleration_radius {
        div_tz(base * dist, deceleration_radius)
    } else {
        base
    }
}

/// The acceleration Arrive produces: a velocity-matching impulse toward
/// the target, ramping the aimed-for speed down inside the deceleration
/// radius and converging over `time_to_target`; zero once the distance is
/// within `tolerance`, even while the owner still moves.
pub open spec fn arrive_acceleration<L: Limiter>(
    b: SteeringBehavior<L>,
    tolerance: int,
    deceleration_radius: int,
    time_to_target: int,
) -> SteeringAcceleration {
    let d = b.target.position@.minus(b.owner.position@);
    let dist = sqrt_floor(d.sq_norm());
    if dist <= tolerance {
        zero_acceleration()
    } else {
        let ts = arrive_target_speed(b, dist, deceleration_radius);
        let v = b.owner.linear_velocity@;
        linear_acceleration(
            Vec3i {
                x: div_tz((div_tz(d.x * ts, dist) - v.x) * SCALE, time_to_target),
                y: div_tz((div_tz(d.y * ts, dist) - v.y) * SCALE, time_to_target),
                z: div_tz((div_tz(d.z * ts, dist) - v.z) * SCALE, time_to_target),
            },
        )
    }
}

/// Arrive approaches the target and decelerates smoothly into it,
/// stopping within `tolerance`, ramping the speed down from
/// `deceleration_radius` and converging over `time_to_target`.
pub struct Arrive<L: Limiter> {
    /// common steering behavior attributes
    pub behavior: SteeringBehavior<L>,
    /// distance under which the agent counts as arrived
    pub tolerance: Scalar,
    /// distance under which the aimed-for speed ramps down linearly
    pub deceleration_radius: Scalar,
    /// time over which the velocity gap is to be closed
    pub time_to_target: Scalar,
}

impl<L: Limiter> HasSteeringBehavior<L> for Arrive<L> {
    open spec fn steering_behavior_spec(&self) -> SteeringBehavior<L> {
        self.behavior
    }

    fn get_steering_behavior(&self) -> (b: &SteeringBehavior<L>) {
        &self.behavior
    }
}

impl<L: Limiter> IsEnabled for Arrive<L> {
    open spec fn enabled_flag(&self) -> bool {
        self.behavior.enabled
    }

    fn is_enabled(&self) -> (r: bool) {
        self.behavior.enabled
    }

    fn set_enabled(&mut self, value: bool) {
        self.behavior.enabled = value;
    }
}

impl<L: Limiter> SteeringAccelerationCalculator for Arrive<L> {
    open spec fn real_steering_spec(&self) -> SteeringAcceleration {
        arrive_acceleration(
            self.behavior,
            self.tolerance@,
            self.deceleration_radius@,
            self.time_to_target@,
        )
    }

    open spec fn valid_inputs(&self) -> bool {
        &&& self.behavior.kinematics_bounded()
        &&& self.behavior.linear_speed_cap_ok()
        &&& 0 <= self.tolerance@ <= COORD_LIMIT
        &&& 0 <= self.deceleration_radius@ <= COORD_LIMIT
        &&& 1 <= self.time_to_target@ <= COORD_LIMIT
    }

    open spec fn enabled_spec(&self) -> bool {
        self.behavior.enabled
    }

    fn is_enabled(&self) -> (r: bool) {
        self.behavior.enabled
    }

    fn calculate_real_steering(&self, steering_acceleration: &mut SteeringAcceleration) {
        let b = &self.behavior;
        let dx = b.target.position.x.raw - b.owner.position.x.raw;
        let dy = b.target.position.y.raw - b.owner.position.y.raw;
        let dz = b.target.position.z.raw - b.owner.position.z.raw;
        let ghost d = Vec3i { x: dx as int, y: dy as int, z: dz as int };
        let sq = sq_norm_raw(dx, dy, dz);
        proof {
            lemma_square_bound(dx as int, 2 * COORD_LIMIT as int);
            lemma_square_bound(dy as int, 2 * COORD_LIMIT as int);
            lemma_square_bound(dz as int, 2 * COORD_LIMIT as int);
        }
        let dist128 = isqrt(sq);
        proof {
            lemma_sqrt_lt_of_lt_square(sq as int, dist128 as int, 3_500_000_000_000);
            lemma_component_le_sqrt(d.x, d.sq_norm(), dist128 as int);
            lemma_component_le_sqrt(d.y, d.sq_norm(), dist128 as int);
            lemma_component_le_sqrt(d.z, d.sq_norm(), dist128 as int);
        }
        let dist = dist128 as i64;
        if dist <= self.tolerance.raw {
            steering_acceleration.set_zero();
        } else {
            let base = b.read_linear_speed_cap();
            let radius = self.deceleration_radius.raw;
            let ts: i64 = if dist <= radius {
                let p = mul_wide(base, dist);
                proof {
                    assert(0 <= (base as int) * (dist as int) <= (base as int) * (radius as int))
                        by (nonlinear_arith)
                        requires
                            0 <= base,
                            0 < dist <= radius,
                    ;
                    lemma_div_tz_bound(p as int, radius as int, base as int);
                }
                div_q(p, radius as i128) as i64
            } else {
                base
            };
            let x = arrive_component(dx, ts, dist, b.owner.linear_velocity.x.raw,
                self.time_to_target.raw);
            let y = arrive_component(dy, ts, dist, b.owner.linear_velocity.y.raw,
                self.time_to_target.raw);
            let z = arrive_component(dz, ts, dist, b.owner.linear_velocity.z.raw,
                self.time_to_target.raw);
            steering_acceleration.linear = Vec3 { x, y, z };
            steering_acceleration.angular = Scalar { raw: 0 };
        }
    }
}

/// One component of Arrive's velocity-matching impulse:
/// `(c * ts / dist - velocity) * SCALE / time_to_target`.
fn arrive_component(c: i64, ts: i64, dist: i64, velocity: i64, time_to_target: i64) -> (s: Scalar)
    requires
        0 < dist,
        -dist <= c <= dist,
        0 <= ts <= COORD_LIMIT,
        -COORD_LIMIT <= velocity <= COORD_LIMIT,
        1 <= time_to_target,
    ensures
        s@ == div_tz((div_tz(c * ts, dist as int) - velocity) * SCALE, time_to_target as int),
{
    let p = mul_wide(c, ts);
    proof {
        assert(-((ts as int) * (dist as int)) <= p <= (ts as int) * (dist as int))
            by (nonlinear_arith)
            requires
                p == (c as int) * (ts as int),
                -dist <= c <= dist,
                0 <= ts,
        ;
        lemma_div_tz_bound(p as int, dist as int, ts as int);
    }
    let tv = div_q(p, dist as i128);
    let rel = tv - (velocity as i128);
    proof {
        lemma_div_tz_bound(
            (rel as int) * (SCALE as int),
            time_to_target as int,
            2_000_000_000_000_000_000,
        );
    }
    let num = rel * (SCALE as i128);
    let r = div_q(num, time_to_target as i128);
    Scalar { raw: r as i64 }
}

/// Inside the tolerance the agent counts as arrived: whenever the
/// distance between owner and target is at most `tolerance`, Arrive
/// produces a zero acceleration, whatever the owner's velocity.
pub proof fn lemma_arrive_within_tolerance<L: Limiter>(
    b: SteeringBehavior<L>,
    tolerance: int,
    deceleration_radius: int,
    time_to_target: int,
)
    requires
        sqrt_floor(b.target.position@.minus(b.owner.position@).sq_norm()) <= tolerance,
    ensures
        arrive_acceleration(b, tolerance, deceleration_radius, time_to_target)
            == zero_acceleration(),
{
}

} // verus!
