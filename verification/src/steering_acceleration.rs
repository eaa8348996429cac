use vstd::prelude::*;

use crate::math::div_q;
use crate::math::div_tz;
use crate::math::isqrt;
use crate::math::lemma_div_tz_bound;
use crate::math::lemma_square_bound;
use crate::math::mul_wide;
use crate::math::sqrt_floor;
use crate::scalar::Scalar;
use crate::scalar::COORD_LIMIT;
use crate::scalar::SCALE;
use crate::vector::Vec3;
use crate::vector::Vec3i;

verus! {

/// The steering acceleration whose components are all zero.
pub open spec fn zero_acceleration() -> SteeringAcceleration {
    SteeringAcceleration {
        linear: Vec3 { x: Scalar { raw: 0 }, y: Scalar { raw: 0 }, z: Scalar { raw: 0 } },
        angular: Scalar { raw: 0 },
    }
}

/// A linear-only steering acceleration: the integer components of `v` as
/// the linear part and a zero angular part.
pub open spec fn linear_acceleration(v: Vec3i) -> SteeringAcceleration {
    SteeringAcceleration { linear: crate::vector::vec3_from(v), angular: Scalar { raw: 0 } }
}

/// The component-wise scaled accumulation `sa + other * scale`, each
/// fixed-point product truncated toward zero: what `mul_add` computes.
pub open spec fn scaled_accumulate(
    sa: SteeringAcceleration,
    other: SteeringAcceleration,
    scale: Scalar,
) -> SteeringAcceleration {
    SteeringAcceleration {
        linear: Vec3 {
            x: Scalar {
                raw: (sa.linear@.x + div_tz(other.linear@.x * scale@, SCALE as int)) as i64,
            },
            y: Scalar {
                raw: (sa.linear@.y + div_tz(other.linear@.y * scale@, SCALE as int)) as i64,
            },
            z: Scalar {
                raw: (sa.linear@.z + div_tz(other.linear@.z * scale@, SCALE as int)) as i64,
            },
        },
        angular: Scalar {
            raw: (sa.angular@ + div_tz(other.angular@ * scale@, SCALE as int)) as i64,
        },
    }
}

/// Scaled accumulation by a zero scale is the identity: `mul_add` with
/// `scale == 0` leaves the accumulator unchanged.
pub proof fn lemma_mul_add_zero_scale(sa: SteeringAcceleration, other: SteeringAcceleration)
    ensures
        scaled_accumulate(sa, other, Scalar { raw: 0 }) == sa,
{
    assert(div_tz(other.linear@.x * 0, SCALE as int) == 0);
    assert(div_tz(other.linear@.y * 0, SCALE as int) == 0);
    assert(div_tz(other.linear@.z * 0, SCALE as int) == 0);
    assert(div_tz(other.angular@ * 0, SCALE as int) == 0);
}

/// A freshly zeroed acceleration always reports zero: `set_zero` followed
/// by `is_zero` yields true.
pub proof fn lemma_set_zero_is_zero()
    ensures
        zero_acceleration().all_zero(),
{
}

/// The result of a steering computation: a linear acceleration vector and
/// an angular acceleration scalar.  More than one behavior's result can be
/// aggregated into a single value with `add` and `mul_add`.
#[derive(Clone, Copy, Debug, PartialEq, Eq, Structural)]
pub struct SteeringAcceleration {
    /// linear acceleration component
    pub linear: Vec3,
    /// angular acceleration component
    pub angular: Scalar,
}

impl SteeringAcceleration {
    /// Both components are exactly zero.
    pub open spec fn all_zero(self) -> bool {
        self.linear@.is_origin() && self.angular@ == 0
    }

    /// Every raw component, linear and angular, has magnitude at most
    /// `bound`.
    pub open spec fn within(self, bound: int) -> bool {
        self.linear@.within(bound) && -bound <= self.angular@ <= bound
    }

    /// The squared magnitude over all four components, as a fixed-point
    /// raw count.
    pub open spec fn sq_magnitude(self) -> int {
        div_tz(self.linear@.sq_norm() + self.angular@ * self.angular@, SCALE as int)
    }

    /// The magnitude over all four components, rounded down, as a
    /// fixed-point raw count.
    pub open spec fn magnitude(self) -> int {
        sqrt_floor(self.sq_magnitude() * SCALE)
    }

    /// Creates a steering acceleration from its linear and angular
    /// components.
    pub fn new(linear_acceleration: Vec3, angular_acceleration: Scalar) -> (sa:
        SteeringAcceleration)
        ensures
            sa.linear == linear_acceleration,
            sa.angular == angular_acceleration,
    {
        SteeringAcceleration { linear: linear_acceleration, angular: angular_acceleration }
    }

    /// Tests whether both the linear and the angular component are zero.
    pub fn is_zero(&self) -> (r: bool)
        ensures
            r == self.all_zero(),
    {
        self.angular.raw == 0 && self.linear.x.raw == 0 && self.linear.y.raw == 0
            && self.linear.z.raw == 0
    }

    /// Sets both components to zero.
    pub fn set_zero(&mut self)
        ensures
            final(self).all_zero(),
            *final(self) == zero_acceleration(),
    {
        self.angular = Scalar { raw: 0 };
        self.linear = Vec3::zero();
    }

    /// Adds `other` component-wise.
    pub fn add(&mut self, other: SteeringAcceleration)
        requires
            i64::MIN <= old(self).linear@.x + other.linear@.x <= i64::MAX,
            i64::MIN <= old(self).linear@.y + other.linear@.y <= i64::MAX,
            i64::MIN <= old(self).linear@.z + other.linear@.z <= i64::MAX,
            i64::MIN <= old(self).angular@ + other.angular@ <= i64::MAX,
        ensures
            final(self).linear@ == old(self).linear@.plus(other.linear@),
            final(self).angular@ == old(self).angular@ + other.angular@,
    {
        self.angular = Scalar { raw: self.angular.raw + other.angular.raw };
        self.linear = Vec3 {
            x: Scalar { raw: self.linear.x.raw + other.linear.x.raw },
            y: Scalar { raw: self.linear.y.raw + other.linear.y.raw },
            z: Scalar { raw: self.linear.z.raw + other.linear.z.raw },
        };
    }

    /// Scales both components by the fixed-point factor `scale`.
    pub fn scl(&mut self, scale: Scalar)
        requires
            i64::MIN <= div_tz(old(self).linear@.x * scale@, SCALE as int) <= i64::MAX,
            i64::MIN <= div_tz(old(self).linear@.y * scale@, SCALE as int) <= i64::MAX,
            i64::MIN <= div_tz(old(self).linear@.z * scale@, SCALE as int) <= i64::MAX,
            i64::MIN <= div_tz(old(self).angular@ * scale@, SCALE as int) <= i64::MAX,
        ensures
            final(self).linear@.x == div_tz(old(self).linear@.x * scale@, SCALE as int),
            final(self).linear@.y == div_tz(old(self).linear@.y * scale@, SCALE as int),
            final(self).linear@.z == div_tz(old(self).linear@.z * scale@, SCALE as int),
            final(self).angular@ == div_tz(old(self).angular@ * scale@, SCALE as int),
    {
        self.angular = scale_raw(self.angular.raw, scale.raw);
        self.linear = Vec3 {
            x: scale_raw(self.linear.x.raw, scale.raw),
            y: scale_raw(self.linear.y.raw, scale.raw),
            z: scale_raw(self.linear.z.raw, scale.raw),
        };
    }

    /// Adds `other * scale` component-wise: a scaled accumulate.
    pub fn mul_add(&mut self, other: SteeringAcceleration, scale: Scalar)
        requires
            i64::MIN <= old(self).linear@.x + div_tz(other.linear@.x * scale@, SCALE as int)
                <= i64::MAX,
            i64::MIN <= old(self).linear@.y + div_tz(other.linear@.y * scale@, SCALE as int)
                <= i64::MAX,
            i64::MIN <= old(self).linear@.z + div_tz(other.linear@.z * scale@, SCALE as int)
                <= i64::MAX,
            i64::MIN <= old(self).angular@ + div_tz(other.angular@ * scale@, SCALE as int)
                <= i64::MAX,
        ensures
            *final(self) == scaled_accumulate(*old(self), other, scale),
            final(self).linear@.x == old(self).linear@.x + div_tz(
                other.linear@.x * scale@,
                SCALE as int,
            ),
            final(self).linear@.y == old(self).linear@.y + div_tz(
                other.linear@.y * scale@,
                SCALE as int,
            ),
            final(self).linear@.z == old(self).linear@.z + div_tz(
                other.linear@.z * scale@,
                SCALE as int,
            ),
            final(self).angular@ == old(self).angular@ + div_tz(
                other.angular@ * scale@,
                SCALE as int,
            ),
    {
        self.angular = accumulate_raw(self.angular.raw, other.angular.raw, scale.raw);
        self.linear = Vec3 {
            x: accumulate_raw(self.linear.x.raw, other.linear.x.raw, scale.raw),
            y: accumulate_raw(self.linear.y.raw, other.linear.y.raw, scale.raw),
            z: accumulate_raw(self.linear.z.raw, other.linear.z.raw, scale.raw),
        };
    }

    /// The squared magnitude over all four components.
    pub fn calculate_square_magnitude(&self) -> (s: Scalar)
        requires
            self.within(COORD_LIMIT as int),
        ensures
            s@ == self.sq_magnitude(),
            0 <= s@ <= 4_000_000_000_000_000_000,
    {
        let s = self.square_sum();
        let r = div_q(s, SCALE as i128);
        proof {
            lemma_div_tz_bound(s as int, SCALE as int, 4_000_000_000_000_000_000);
        }
        Scalar { raw: r as i64 }
    }

    /// The magnitude over all four components, rounded down.
    pub fn calculate_magnitude(&self) -> (s: Scalar)
        requires
            self.within(COORD_LIMIT as int),
        ensures
            s@ == self.magnitude(),
    {
        let sq = self.calculate_square_magnitude();
        let t = mul_wide(sq.raw, SCALE);
        let r = isqrt(t);
        proof {
            assert(r * r <= t < i64::MAX * i64::MAX) by (nonlinear_arith)
                requires
                    crate::math::is_sqrt(t as int, r as int),
                    t < (i64::MAX as int) * (i64::MAX as int),
            ;
            assert(r < i64::MAX) by (nonlinear_arith)
                requires
                    r * r < (i64::MAX as int) * (i64::MAX as int),
                    r >= 0,
            ;
        }
        Scalar { raw: r as i64 }
    }

    /// The sum of the four squared raw components, exactly.
    fn square_sum(&self) -> (s: i128)
        requires
            self.within(COORD_LIMIT as int),
        ensures
            s == self.linear@.sq_norm() + self.angular@ * self.angular@,
            0 <= s <= 4 * (COORD_LIMIT as int) * (COORD_LIMIT as int),
    {
        let xx = mul_wide(self.linear.x.raw, self.linear.x.raw);
        let yy = mul_wide(self.linear.y.raw, self.linear.y.raw);
        let zz = mul_wide(self.linear.z.raw, self.linear.z.raw);
        let aa = mul_wide(self.angular.raw, self.angular.raw);
        proof {
            lemma_square_bound(self.linear@.x, COORD_LIMIT as int);
            lemma_square_bound(self.linear@.y, COORD_LIMIT as int);
            lemma_square_bound(self.linear@.z, COORD_LIMIT as int);
            lemma_square_bound(self.angular@, COORD_LIMIT as int);
        }
        xx + yy + zz + aa
    }
}

/// One fixed-point product: `a * scale / SCALE`, truncated toward zero.
fn scale_raw(a: i64, scale: i64) -> (s: Scalar)
    requires
        i64::MIN <= div_tz(a as int * scale as int, SCALE as int) <= i64::MAX,
    ensures
        s@ == div_tz(a as int * scale as int, SCALE as int),
{
    let p = mul_wide(a, scale);
    let q = div_q(p, SCALE as i128);
    Scalar { raw: q as i64 }
}

/// One fixed-point scaled accumulate: `a + other * scale / SCALE`.
fn accumulate_raw(a: i64, other: i64, scale: i64) -> (s: Scalar)
    requires
        i64::MIN <= a + div_tz(other as int * scale as int, SCALE as int) <= i64::MAX,
    ensures
        s@ == a + div_tz(other as int * scale as int, SCALE as int),
{
    let p = mul_wide(other, scale);
    let q = div_q(p, SCALE as i128);
    let r = (a as i128) + q;
    Scalar { raw: r as i64 }
}

/// What every behavior calculator offers: a gated entry point that yields
/// the behavior's exact acceleration when the behavior is enabled and a
/// zero acceleration when it is not.
pub trait SteeringAccelerationCalculator: Sized {
    /// The acceleration this calculator's mathematics produces from the
    /// current owner, target and parameters.
    spec fn real_steering_spec(&self) -> SteeringAcceleration;

    /// The inputs on which the mathematics is defined: kinematics and caps
    /// inside the library's working range, and the caps this calculator
    /// reads supported by the attached limiter.
    spec fn valid_inputs(&self) -> bool;

    /// Whether the behavior is switched on.
    spec fn enabled_spec(&self) -> bool;

    /// Reports whether the behavior is switched on.
    fn is_enabled(&self) -> (r: bool)
        ensures
            r == self.enabled_spec(),
    ;

    /// The behavior's own mathematics, without the enabled gate.
    fn calculate_real_steering(&self, steering_acceleration: &mut SteeringAcceleration)
        requires
            self.valid_inputs(),
        ensures
            *final(steering_acceleration) == self.real_steering_spec(),
    ;

    /// The gated entry point: the behavior's acceleration when enabled, a
    /// zero acceleration otherwise.
    fn calculate_steering(&self, steering_acceleration: &mut SteeringAcceleration)
        requires
            self.enabled_spec() ==> self.valid_inputs(),
        ensures
            self.enabled_spec() ==> *final(steering_acceleration) == self.real_steering_spec(),
            !self.enabled_spec() ==> final(steering_acceleration).all_zero(),
    {
        if self.is_enabled() {
            self.calculate_real_steering(steering_acceleration)
        } else {
            steering_acceleration.set_zero()
        }
    }
}

} // verus!
