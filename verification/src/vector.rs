use vstd::prelude::*;

use crate::math::div_q;
use crate::math::mul_wide;
use crate::math::div_tz;
use crate::math::is_sqrt;
use crate::math::isqrt;
use crate::math::lemma_component_le_sqrt;
use crate::math::lemma_div_tz_bound;
use crate::math::lemma_square_bound;
use crate::math::sqrt_floor;
use crate::scalar::Scalar;
use crate::scalar::COORD_LIMIT;
use crate::scalar::SCALE;

verus! {

/// Largest magnitude, in raw steps, that a component handed to
/// [`scaled_direction`] may have.  Differences of predicted positions stay
/// well inside this bound whenever the inputs respect [`COORD_LIMIT`].
pub(crate) const DIR_LIMIT: i64 = 2_000_000_000_000_000_000;

/// The mathematical value of a [`Vec3`]: three raw step counts as
/// unbounded integers.
pub struct Vec3i {
    pub x: int,
    pub y: int,
    pub z: int,
}

impl Vec3i {
    /// The squared magnitude, in squared raw steps.
    pub open spec fn sq_norm(self) -> int {
        self.x * self.x + self.y * self.y + self.z * self.z
    }

    /// The magnitude rounded down, in raw steps times `SCALE`.
    pub open spec fn norm(self) -> int {
        sqrt_floor(self.sq_norm())
    }

    /// Component-wise sum.
    pub open spec fn plus(self, other: Vec3i) -> Vec3i {
        Vec3i { x: self.x + other.x, y: self.y + other.y, z: self.z + other.z }
    }

    /// Component-wise difference.
    pub open spec fn minus(self, other: Vec3i) -> Vec3i {
        Vec3i { x: self.x - other.x, y: self.y - other.y, z: self.z - other.z }
    }

    /// All three components are zero.
    pub open spec fn is_origin(self) -> bool {
        self.x == 0 && self.y == 0 && self.z == 0
    }

    /// Every component has magnitude at most `bound`.
    pub open spec fn within(self, bound: int) -> bool {
        &&& -bound <= self.x <= bound
        &&& -bound <= self.y <= bound
        &&& -bound <= self.z <= bound
    }

    /// The unit vector along `self`, times the fixed-point factor `cap`:
    /// each component is divided by the rounded-down magnitude and then
    /// scaled, with both divisions truncating toward zero.
    pub open spec fn unit_scaled(self, cap: int) -> Vec3i {
        let n = self.norm();
        Vec3i {
            x: div_tz(div_tz(self.x * SCALE, n) * cap, SCALE as int),
            y: div_tz(div_tz(self.y * SCALE, n) * cap, SCALE as int),
            z: div_tz(div_tz(self.z * SCALE, n) * cap, SCALE as int),
        }
    }
}

/// A unit direction scaled by `cap` never exceeds `cap`: each component
/// of `unit_scaled` has magnitude at most the magnitude of `cap`.
pub proof fn lemma_unit_scaled_bounded(d: Vec3i, cap: int)
    requires
        !d.is_origin(),
    ensures
        d.unit_scaled(cap).within(vstd::math::abs(cap) as int),
{
    lemma_square_bound(d.x, vstd::math::abs(d.x) as int);
    lemma_square_bound(d.y, vstd::math::abs(d.y) as int);
    lemma_square_bound(d.z, vstd::math::abs(d.z) as int);
    assert(d.sq_norm() >= 1) by (nonlinear_arith)
        requires
            !(d.x == 0 && d.y == 0 && d.z == 0),
    ;
    crate::math::lemma_sqrt_floor_exists(d.sq_norm());
    let n = d.norm();
    assert(n >= 1) by (nonlinear_arith)
        requires
            is_sqrt(d.sq_norm(), n),
            d.sq_norm() >= 1,
    ;
    lemma_component_le_sqrt(d.x, d.sq_norm(), n);
    lemma_component_le_sqrt(d.y, d.sq_norm(), n);
    lemma_component_le_sqrt(d.z, d.sq_norm(), n);
    lemma_scaled_component_bounded(d.x, n, cap);
    lemma_scaled_component_bounded(d.y, n, cap);
    lemma_scaled_component_bounded(d.z, n, cap);
}

/// One component of `unit_scaled` stays within the scaling factor's
/// magnitude.
proof fn lemma_scaled_component_bounded(c: int, n: int, cap: int)
    requires
        n >= 1,
        -n <= c <= n,
    ensures
        -(vstd::math::abs(cap) as int) <= div_tz(div_tz(c * SCALE, n) * cap, SCALE as int) <= (
        vstd::math::abs(cap) as int),
{
    assert(-(SCALE as int) * n <= c * SCALE <= (SCALE as int) * n) by (nonlinear_arith)
        requires
            -n <= c <= n,
            n >= 1,
            SCALE > 0,
    ;
    lemma_div_tz_bound(c * SCALE, n, SCALE as int);
    let u = div_tz(c * SCALE, n);
    let capmag = vstd::math::abs(cap) as int;
    assert(-(capmag * (SCALE as int)) <= u * cap <= capmag * (SCALE as int)) by (nonlinear_arith)
        requires
            -SCALE <= u <= SCALE,
            capmag == (if cap >= 0 {
                cap
            } else {
                -cap
            }),
    ;
    lemma_div_tz_bound(u * cap, SCALE as int, capmag);
}

/// The fixed-point vector holding the integer components of `v`, each
/// assumed to fit a raw `i64`.
pub open spec fn vec3_from(v: Vec3i) -> Vec3 {
    Vec3 { x: Scalar { raw: v.x as i64 }, y: Scalar { raw: v.y as i64 }, z: Scalar { raw: v.z as i64 } }
}

/// A three-component fixed-point vector, the library's positions,
/// velocities and linear accelerations.
#[derive(Clone, Copy, Debug, PartialEq, Eq, Structural)]
pub struct Vec3 {
    pub x: Scalar,
    pub y: Scalar,
    pub z: Scalar,
}

impl View for Vec3 {
    type V = Vec3i;

    open spec fn view(&self) -> Vec3i {
        Vec3i { x: self.x@, y: self.y@, z: self.z@ }
    }
}

impl Vec3 {
    /// The vector with the given components.
    pub fn new(x: Scalar, y: Scalar, z: Scalar) -> (v: Vec3)
        ensures
            v@ == (Vec3i { x: x@, y: y@, z: z@ }),
    {
        Vec3 { x, y, z }
    }

    /// The origin.
    pub fn zero() -> (v: Vec3)
        ensures
            v@.is_origin(),
    {
        Vec3 { x: Scalar { raw: 0 }, y: Scalar { raw: 0 }, z: Scalar { raw: 0 } }
    }
}

/// The exact sum of the three squared raw components, in 128 bits.
pub(crate) fn sq_norm_raw(dx: i64, dy: i64, dz: i64) -> (s: i128)
    requires
        -DIR_LIMIT <= dx <= DIR_LIMIT,
        -DIR_LIMIT <= dy <= DIR_LIMIT,
        -DIR_LIMIT <= dz <= DIR_LIMIT,
    ensures
        s == (Vec3i { x: dx as int, y: dy as int, z: dz as int }).sq_norm(),
        0 <= s <= 12_000_000_000_000_000_000_000_000_000_000_000_000,
{
    let xx = mul_wide(dx, dx);
    let yy = mul_wide(dy, dy);
    let zz = mul_wide(dz, dz);
    proof {
        lemma_square_bound(dx as int, DIR_LIMIT as int);
        lemma_square_bound(dy as int, DIR_LIMIT as int);
        lemma_square_bound(dz as int, DIR_LIMIT as int);
    }
    xx + yy + zz
}

/// The unit vector along `(dx, dy, dz)` times the fixed-point factor `cap`:
/// the shared direction-and-cap step of the linear behaviors.  The result's
/// components never exceed `cap` in magnitude.
pub(crate) fn scaled_direction(dx: i64, dy: i64, dz: i64, cap: i64) -> (v: Vec3)
    requires
        -DIR_LIMIT <= dx <= DIR_LIMIT,
        -DIR_LIMIT <= dy <= DIR_LIMIT,
        -DIR_LIMIT <= dz <= DIR_LIMIT,
        -COORD_LIMIT <= cap <= COORD_LIMIT,
        !(dx == 0 && dy == 0 && dz == 0),
    ensures
        v@ == (Vec3i { x: dx as int, y: dy as int, z: dz as int }).unit_scaled(cap as int),
        v@.within(if cap >= 0 {
            cap as int
        } else {
            -(cap as int)
        }),
{
    let ghost d = Vec3i { x: dx as int, y: dy as int, z: dz as int };
    let sq = sq_norm_raw(dx, dy, dz);
    proof {
        assert(sq >= 1) by (nonlinear_arith)
            requires
                sq == d.x * d.x + d.y * d.y + d.z * d.z,
                !(d.x == 0 && d.y == 0 && d.z == 0),
        ;
    }
    let n = isqrt(sq);
    proof {
        assert(n >= 1) by (nonlinear_arith)
            requires
                is_sqrt(sq as int, n as int),
                sq >= 1,
        ;
        lemma_square_bound(d.x, DIR_LIMIT as int);
        lemma_square_bound(d.y, DIR_LIMIT as int);
        lemma_square_bound(d.z, DIR_LIMIT as int);
        lemma_component_le_sqrt(d.x, d.sq_norm(), n as int);
        lemma_component_le_sqrt(d.y, d.sq_norm(), n as int);
        lemma_component_le_sqrt(d.z, d.sq_norm(), n as int);
    }
    let x = scale_component(dx, n, cap);
    let y = scale_component(dy, n, cap);
    let z = scale_component(dz, n, cap);
    Vec3 { x, y, z }
}

/// One component of [`scaled_direction`]: `c * SCALE / n`, then times the
/// fixed-point factor `cap`.
fn scale_component(c: i64, n: i128, cap: i64) -> (s: Scalar)
    requires
        n >= 1,
        -n <= c as int <= n,
        -COORD_LIMIT <= cap <= COORD_LIMIT,
    ensures
        s@ == div_tz(div_tz(c * SCALE, n as int) * cap, SCALE as int),
        -(if cap >= 0 {
            cap as int
        } else {
            -(cap as int)
        }) <= s@ <= (if cap >= 0 {
            cap as int
        } else {
            -(cap as int)
        }),
{
    let t = mul_wide(c, SCALE);
    proof {
        assert(-(SCALE as int) * (n as int) <= t <= (SCALE as int) * (n as int))
            by (nonlinear_arith)
            requires
                t == (c as int) * (SCALE as int),
                -n <= c as int <= n,
                n >= 1,
                SCALE > 0,
        ;
        lemma_div_tz_bound(t as int, n as int, SCALE as int);
    }
    let u = div_q(t, n);
    let ghost capmag: int = if cap >= 0 {
        cap as int
    } else {
        -(cap as int)
    };
    proof {
        assert(-(capmag * (SCALE as int)) <= (u as int) * (cap as int) <= capmag * (SCALE as int))
            by (nonlinear_arith)
            requires
                -SCALE <= u as int <= SCALE,
                capmag == (if cap >= 0 {
                    cap as int
                } else {
                    -(cap as int)
                }),
        ;
        lemma_div_tz_bound((u as int) * (cap as int), SCALE as int, capmag);
    }
    let w = u * (cap as i128);
    let r = div_q(w, SCALE as i128);
    Scalar { raw: r as i64 }
}

} // verus!
