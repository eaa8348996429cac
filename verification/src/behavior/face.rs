use vstd::prelude::*;

use crate::limiter::Limiter;
use crate::math::div_q;
use crate::math::div_tz;
use crate::math::is_sqrt;
use crate::math::isqrt;
use crate::math::lemma_component_le_sqrt;
use crate::math::lemma_div_tz_bound;
use crate::math::lemma_div_tz_sign;
use crate::math::lemma_square_bound;
use crate::math::mul_wide;
use crate::math::sqrt_floor;
use crate::math::wrap_angle_around_zero;
use crate::math::wrapped;
use crate::scalar::Scalar;
use crate::scalar::COORD_LIMIT;
use crate::scalar::PI;
use crate::scalar::SCALE;
use crate::steering_acceleration::zero_acceleration;
use crate::steering_acceleration::SteeringAcceleration;
use crate::steering_acceleration::SteeringAccelerationCalculator;
use crate::steering_behavior::HasSteeringBehavior;
use crate::steering_behavior::IsEnabled;
use crate::steering_behavior::SteeringBehavior;
use crate::vector::sq_norm_raw;
use crate::vector::Vec3;
use crate::vector::Vec3i;

verus! {

/// The quarter turn, in raw steps: exactly half of `PI`.
pub const HALF_PI: i64 = 1_570_796;

/// The sixth of a turn, in raw steps: a third of `PI`, rounded down.
pub const THIRD_PI: i64 = 1_047_197;

/// Half a unit of cosine, in raw steps: half of `SCALE`.
pub const HALF_UNIT: i64 = 500_000;

/// The arc cosine for a nonnegative fixed-point cosine in `[0, SCALE]`: a
/// piecewise-linear approximation through the exact anchors at cosine
/// `0`, `1/2` and `1`, whose angles are the quarter turn, the sixth of a
/// turn and zero.
pub open spec fn acos_nonneg(x: int) -> int {
    if x <= HALF_UNIT {
        HALF_PI - div_tz(x * (HALF_PI - THIRD_PI), HALF_UNIT as int)
    } else {
        THIRD_PI - div_tz((x - HALF_UNIT) * (THIRD_PI as int), HALF_UNIT as int)
    }
}

/// The arc cosine for a fixed-point cosine in `[-SCALE, SCALE]`, in
/// `[0, PI]`: negative cosines go through the reflection
/// `acos(-x) == PI - acos(x)`.
pub open spec fn acos_approx(x: int) -> int {
    if x >= 0 {
        acos_nonneg(x)
    } else {
        PI - acos_nonneg(-x)
    }
}

/// The heading of `d` measured against the fixed reference axis
/// `(0, 1, 0)`: the arc cosine of `d`'s normalized second component.
pub open spec fn orientation_to_target(d: Vec3i) -> int {
    acos_approx(div_tz(d.y * SCALE, sqrt_floor(d.sq_norm())))
}

/// Whether the target stands too close for a meaningful heading: the
/// squared distance, brought to raw steps, lies under the limiter's
/// zero-linear-speed threshold.  Without a limiter nothing is too close.
pub open spec fn face_too_close<L: Limiter>(b: SteeringBehavior<L>, square_distance: int) -> bool {
    match b.limiter {
        Some(l) => div_tz(square_distance, SCALE as int) < l.zero_linear_speed_threshold_spec()@,
        None => false,
    }
}

/// The angular acceleration that rotates the owner to `target_orientation`:
/// the orientation difference is wrapped into `(-PI, PI]` so the rotation
/// never exceeds half a turn, the aimed-for angular speed ramps down
/// inside the deceleration radius, the velocity gap closes over
/// `time_to_target`, and the limiter's angular speed cap clamps the
/// outcome, preserving its sign.  Within `allign_tolerance` the result is
/// zero.
pub open spec fn reach_orientation_acceleration<L: Limiter>(
    b: SteeringBehavior<L>,
    target_orientation: int,
    allign_tolerance: int,
    deceleration_radius: int,
    time_to_target: int,
) -> SteeringAcceleration {
    let rotation = wrapped(target_orientation - b.owner.orientation@);
    let abs_rotation = vstd::math::abs(rotation);
    if abs_rotation <= allign_tolerance {
        zero_acceleration()
    } else {
        let cap = b.angular_speed_cap();
        let ramped = if abs_rotation < deceleration_radius {
            div_tz(cap * abs_rotation, deceleration_radius)
        } else {
            cap
        };
        let aimed = if rotation < 0 {
            -ramped
        } else {
            ramped
        };
        let raw = div_tz((aimed - b.owner.angular_velocity@) * SCALE, time_to_target);
        SteeringAcceleration {
            linear: Vec3 { x: Scalar { raw: 0 }, y: Scalar { raw: 0 }, z: Scalar { raw: 0 } },
            angular: Scalar { raw: clamp_angular(b, raw) as i64 },
        }
    }
}

/// The limiter's angular speed cap applied multiplicatively: a value whose
/// magnitude exceeds the cap is scaled down to exactly the cap, keeping
/// its sign; without a limiter nothing is clamped.
pub open spec fn clamp_angular<L: Limiter>(b: SteeringBehavior<L>, raw: int) -> int {
    match b.limiter {
        Some(l) => {
            let m = l.max_angular_speed_spec()@;
            if vstd::math::abs(raw) > m {
                div_tz(raw * m, vstd::math::abs(raw) as int)
            } else {
                raw
            }
        },
        None => raw,
    }
}

/// The sign of Face's angular output follows the shortest rotational
/// path: with the owner's angular velocity at rest, a positive wrapped
/// rotation never yields a negative angular acceleration, and a negative
/// wrapped rotation never yields a positive one.  (An owner already
/// spinning makes the velocity-matching step counter the spin, so the
/// sign can then differ from the path's.)
pub proof fn lemma_face_angular_sign<L: Limiter>(
    b: SteeringBehavior<L>,
    target_orientation: int,
    allign_tolerance: int,
    deceleration_radius: int,
    time_to_target: int,
)
    requires
        b.owner.angular_velocity@ == 0,
        b.angular_speed_cap_ok(),
        0 <= allign_tolerance,
        0 <= deceleration_radius <= COORD_LIMIT,
        1 <= time_to_target,
    ensures
        ({
            let rotation = wrapped(target_orientation - b.owner.orientation@);
            let sa = reach_orientation_acceleration(
                b,
                target_orientation,
                allign_tolerance,
                deceleration_radius,
                time_to_target,
            );
            &&& rotation >= 0 ==> sa.angular@ >= 0
            &&& rotation <= 0 ==> sa.angular@ <= 0
        }),
{
    let rotation = wrapped(target_orientation - b.owner.orientation@);
    let abs_rotation = vstd::math::abs(rotation);
    if abs_rotation <= allign_tolerance {
    } else {
        let cap = b.angular_speed_cap();
        let ramped = if abs_rotation < deceleration_radius {
            div_tz(cap * abs_rotation, deceleration_radius)
        } else {
            cap
        };
        assert(0 <= ramped <= cap) by (nonlinear_arith)
            requires
                0 <= cap,
                0 <= abs_rotation,
                ramped == (if abs_rotation < deceleration_radius {
                    div_tz(cap * abs_rotation, deceleration_radius)
                } else {
                    cap
                }),
        ;
        let aimed = if rotation < 0 {
            -ramped
        } else {
            ramped
        };
        let raw = div_tz((aimed - b.owner.angular_velocity@) * SCALE, time_to_target);
        assert(-(COORD_LIMIT * SCALE * time_to_target) <= aimed * SCALE <= COORD_LIMIT * SCALE
            * time_to_target) by (nonlinear_arith)
            requires
                -COORD_LIMIT <= aimed <= COORD_LIMIT,
                1 <= time_to_target,
                SCALE >= 1,
        ;
        lemma_div_tz_sign(aimed * SCALE, time_to_target);
        lemma_div_tz_bound(aimed * SCALE, time_to_target, COORD_LIMIT * SCALE);
        let clamped = clamp_angular(b, raw);
        match b.limiter {
            Some(l) => {
                let m = l.max_angular_speed_spec()@;
                let a = vstd::math::abs(raw) as int;
                if a > m {
                    assert(-(m * a) <= raw * m <= m * a) by (nonlinear_arith)
                        requires
                            0 <= m,
                            a == (if raw >= 0 {
                                raw
                            } else {
                                -raw
                            }),
                    ;
                    lemma_div_tz_sign(raw * m, a);
                    assert(raw >= 0 ==> raw * m >= 0) by (nonlinear_arith)
                        requires
                            0 <= m,
                    ;
                    assert(raw <= 0 ==> raw * m <= 0) by (nonlinear_arith)
                        requires
                            0 <= m,
                    ;
                    lemma_div_tz_bound(raw * m, a, m);
                }
            },
            None => {},
        }
        assert(-(COORD_LIMIT * SCALE) <= clamped <= COORD_LIMIT * SCALE);
        assert(clamped as i64 == clamped);
    }
}

/// With a limiter attached, Face's angular output never exceeds the
/// limiter's maximum angular speed in magnitude, whatever the geometry
/// and the owner's angular velocity.
pub proof fn lemma_face_angular_clamped<L: Limiter>(
    b: SteeringBehavior<L>,
    target_orientation: int,
    allign_tolerance: int,
    deceleration_radius: int,
    time_to_target: int,
)
    requires
        b.limiter is Some,
        b.angular_speed_cap_ok(),
        b.owner.bounded(),
        1 <= time_to_target,
    ensures
        ({
            let sa = reach_orientation_acceleration(
                b,
                target_orientation,
                allign_tolerance,
                deceleration_radius,
                time_to_target,
            );
            -b.angular_speed_cap() <= sa.angular@ <= b.angular_speed_cap()
        }),
{
    let rotation = wrapped(target_orientation - b.owner.orientation@);
    let abs_rotation = vstd::math::abs(rotation);
    if abs_rotation <= allign_tolerance {
    } else {
        let cap = b.angular_speed_cap();
        let ramped = if abs_rotation < deceleration_radius {
            div_tz(cap * abs_rotation, deceleration_radius)
        } else {
            cap
        };
        assert(0 <= ramped <= cap) by (nonlinear_arith)
            requires
                0 <= cap,
                0 <= abs_rotation,
                ramped == (if abs_rotation < deceleration_radius {
                    div_tz(cap * abs_rotation, deceleration_radius)
                } else {
                    cap
                }),
        ;
        let aimed = if rotation < 0 {
            -ramped
        } else {
            ramped
        };
        let gap = aimed - b.owner.angular_velocity@;
        let raw = div_tz(gap * SCALE, time_to_target);
        assert(-(2 * COORD_LIMIT * SCALE * time_to_target) <= gap * SCALE <= 2 * COORD_LIMIT
            * SCALE * time_to_target) by (nonlinear_arith)
            requires
                -(2 * COORD_LIMIT) <= gap <= 2 * COORD_LIMIT,
                1 <= time_to_target,
                SCALE >= 1,
        ;
        lemma_div_tz_bound(gap * SCALE, time_to_target, 2 * COORD_LIMIT * SCALE);
        let m = cap;
        let a = vstd::math::abs(raw) as int;
        if a > m {
            assert(-(m * a) <= raw * m <= m * a) by (nonlinear_arith)
                requires
                    0 <= m,
                    a == (if raw >= 0 {
                        raw
                    } else {
                        -raw
                    }),
            ;
            lemma_div_tz_bound(raw * m, a, m);
        }
    }
}

/// The acceleration Face produces: pure angular control toward the
/// direction of the target, no linear component.  Degenerate geometry,
/// coinciding positions or a target under the zero-linear-speed
/// threshold, yields zero.
pub open spec fn face_acceleration<L: Limiter>(
    b: SteeringBehavior<L>,
    allign_tolerance: int,
    deceleration_radius: int,
    time_to_target: int,
) -> SteeringAcceleration {
    let d = b.target.position@.minus(b.owner.position@);
    if d.is_origin() || face_too_close(b, d.sq_norm()) {
        zero_acceleration()
    } else {
        reach_orientation_acceleration(
            b,
            orientation_to_target(d),
            allign_tolerance,
            deceleration_radius,
            time_to_target,
        )
    }
}

/// Face rotates the owner toward the target: pure angular control,
/// independent of translation.
pub struct Face<L: Limiter> {
    /// common steering behavior attributes
    pub behavior: SteeringBehavior<L>,
    /// orientation difference under which the agent counts as aligned
    pub allign_tolerance: Scalar,
    /// orientation difference under which the aimed-for angular speed
    /// ramps down linearly
    pub deceleration_radius: Scalar,
    /// time over which the angular velocity gap is to be closed
    pub time_to_target: Scalar,
}

impl<L: Limiter> HasSteeringBehavior<L> for Face<L> {
    open spec fn steering_behavior_spec(&self) -> SteeringBehavior<L> {
        self.behavior
    }

    fn get_steering_behavior(&self) -> (b: &SteeringBehavior<L>) {
        &self.behavior
    }
}

impl<L: Limiter> IsEnabled for Face<L> {
    open spec fn enabled_flag(&self) -> bool {
        self.behavior.enabled
    }

    fn is_enabled(&self) -> (r: bool) {
        self.behavior.enabled
    }

    fn set_enabled(&mut self, value: bool) {
        self.behavior.enabled = value;
    }
}

impl<L: Limiter> SteeringAccelerationCalculator for Face<L> {
    open spec fn real_steering_spec(&self) -> SteeringAcceleration {
        face_acceleration(
            self.behavior,
            self.allign_tolerance@,
            self.deceleration_radius@,
            self.time_to_target@,
        )
    }

    open spec fn valid_inputs(&self) -> bool {
        &&& self.behavior.kinematics_bounded()
        &&& self.behavior.angular_speed_cap_ok()
        &&& self.behavior.zero_linear_speed_threshold_ok()
        &&& 0 <= self.allign_tolerance@ <= COORD_LIMIT
        &&& 0 <= self.deceleration_radius@ <= COORD_LIMIT
        &&& 1 <= self.time_to_target@ <= COORD_LIMIT
    }

    open spec fn enabled_spec(&self) -> bool {
        self.behavior.enabled
    }

    fn is_enabled(&self) -> (r: bool) {
        self.behavior.enabled
    }

    fn calculate_real_steering(&self, steering_acceleration: &mut SteeringAcceleration) {
        let b = &self.behavior;
        let dx = b.target.position.x.raw - b.owner.position.x.raw;
        let dy = b.target.position.y.raw - b.owner.position.y.raw;
        let dz = b.target.position.z.raw - b.owner.position.z.raw;
        let ghost d = Vec3i { x: dx as int, y: dy as int, z: dz as int };
        let sq = sq_norm_raw(dx, dy, dz);
        let too_close = match &b.limiter {
            Some(l) => {
                let threshold = l.get_zero_linear_speed_threshold();
                div_q(sq, SCALE as i128) < threshold.raw as i128
            },
            None => false,
        };
        if (dx == 0 && dy == 0 && dz == 0) || too_close {
            steering_acceleration.set_zero();
        } else {
            proof {
                assert(sq >= 1) by (nonlinear_arith)
                    requires
                        sq == d.x * d.x + d.y * d.y + d.z * d.z,
                        !(d.x == 0 && d.y == 0 && d.z == 0),
                ;
                lemma_square_bound(d.x, 2 * COORD_LIMIT as int);
                lemma_square_bound(d.y, 2 * COORD_LIMIT as int);
                lemma_square_bound(d.z, 2 * COORD_LIMIT as int);
            }
            let dist = isqrt(sq);
            proof {
                assert(dist >= 1) by (nonlinear_arith)
                    requires
                        is_sqrt(sq as int, dist as int),
                        sq >= 1,
                ;
                lemma_component_le_sqrt(d.y, d.sq_norm(), dist as int);
                lemma_div_tz_bound((d.y * SCALE) as int, dist as int, SCALE as int);
            }
            let cos_raw = div_q(mul_wide(dy, SCALE), dist);
            let target_orientation = acos_raw(cos_raw as i64);
            self.reach_orientation(steering_acceleration, target_orientation);
        }
    }
}

impl<L: Limiter> Face<L> {
    /// The angular half of Face: steers the owner's orientation to
    /// `target_orientation` along the shortest rotational path.
    fn reach_orientation(
        &self,
        steering_acceleration: &mut SteeringAcceleration,
        target_orientation: i64,
    )
        requires
            self.valid_inputs(),
            0 <= target_orientation <= PI,
        ensures
            *final(steering_acceleration) == reach_orientation_acceleration(
                self.behavior,
                target_orientation as int,
                self.allign_tolerance@,
                self.deceleration_radius@,
                self.time_to_target@,
            ),
    {
        let b = &self.behavior;
        let rotation = wrap_angle_around_zero(target_orientation - b.owner.orientation.raw);
        let abs_rotation = if rotation >= 0 {
            rotation
        } else {
            -rotation
        };
        if abs_rotation <= self.allign_tolerance.raw {
            steering_acceleration.set_zero();
        } else {
            let cap = b.read_angular_speed_cap();
            let radius = self.deceleration_radius.raw;
            let ramped: i64 = if abs_rotation < radius {
                let p = mul_wide(cap, abs_rotation);
                proof {
                    assert(0 <= (cap as int) * (abs_rotation as int) <= (cap as int) * (
                    radius as int)) by (nonlinear_arith)
                        requires
                            0 <= cap,
                            0 < abs_rotation <= radius,
                    ;
                    lemma_div_tz_bound(p as int, radius as int, cap as int);
                }
                div_q(p, radius as i128) as i64
            } else {
                cap
            };
            let aimed: i64 = if rotation < 0 {
                -ramped
            } else {
                ramped
            };
            let gap = (aimed as i128) - (b.owner.angular_velocity.raw as i128);
            proof {
                lemma_div_tz_bound(
                    (gap as int) * (SCALE as int),
                    self.time_to_target@,
                    3_000_000_000_000_000_000,
                );
            }
            let raw = div_q(gap * (SCALE as i128), self.time_to_target.raw as i128);
            let angular = clamp_angular_raw(b, raw as i64);
            steering_acceleration.linear = Vec3::zero();
            steering_acceleration.angular = Scalar { raw: angular };
        }
    }
}

/// Applies the limiter's angular speed cap multiplicatively, keeping the
/// sign of `raw`.
fn clamp_angular_raw<L: Limiter>(b: &SteeringBehavior<L>, raw: i64) -> (r: i64)
    requires
        b.angular_speed_cap_ok(),
        i64::MIN < raw,
    ensures
        r == clamp_angular(*b, raw as int),
{
    match &b.limiter {
        Some(l) => {
            let m = l.get_max_angular_speed().raw;
            let a = if raw >= 0 {
                raw
            } else {
                -raw
            };
            if a > m {
                let p = mul_wide(raw, m);
                proof {
                    assert(-((m as int) * (a as int)) <= p <= (m as int) * (a as int))
                        by (nonlinear_arith)
                        requires
                            p == (raw as int) * (m as int),
                            a == vstd::math::abs(raw as int),
                            0 <= m,
                    ;
                    lemma_div_tz_bound(p as int, a as int, m as int);
                }
                div_q(p, a as i128) as i64
            } else {
                raw
            }
        },
        None => raw,
    }
}

/// The arc cosine of a fixed-point cosine, in `[0, PI]`.
fn acos_raw(x: i64) -> (r: i64)
    requires
        -SCALE <= x <= SCALE,
    ensures
        r == acos_approx(x as int),
        0 <= r <= PI,
{
    if x >= 0 {
        acos_nonneg_raw(x)
    } else {
        PI - acos_nonneg_raw(-x)
    }
}

/// The arc cosine of a nonnegative fixed-point cosine, in `[0, HALF_PI]`.
fn acos_nonneg_raw(x: i64) -> (r: i64)
    requires
        0 <= x <= SCALE,
    ensures
        r == acos_nonneg(x as int),
        0 <= r <= HALF_PI,
{
    if x <= HALF_UNIT {
        let p = mul_wide(x, HALF_PI - THIRD_PI);
        proof {
            lemma_div_tz_bound(p as int, HALF_UNIT as int, (HALF_PI - THIRD_PI) as int);
            crate::math::lemma_div_tz_nonneg(p as int, HALF_UNIT as int);
        }
        let drop = div_q(p, HALF_UNIT as i128);
        HALF_PI - (drop as i64)
    } else {
        let p = mul_wide(x - HALF_UNIT, THIRD_PI);
        proof {
            lemma_div_tz_bound(p as int, HALF_UNIT as int, THIRD_PI as int);
            crate::math::lemma_div_tz_nonneg(p as int, HALF_UNIT as int);
        }
        let drop = div_q(p, HALF_UNIT as i128);
        THIRD_PI - (drop as i64)
    }
}

} // verus!
