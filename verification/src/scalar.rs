use vstd::prelude::*;

verus! {

/// Number of raw steps in one unit: all scalar quantities in this library
/// are fixed-point numbers counted in raw steps of `1 / SCALE` unit.
pub const SCALE: i64 = 1_000_000;

/// Largest magnitude, in raw steps, that a kinematic input (a position or
/// velocity component, an orientation, a limiter cap, a behavior parameter)
/// may have: one million units.  Keeping inputs inside this range lets every
/// intermediate product of the behavior calculations fit in 128 bits and
/// every result fit in a raw `i64`.
pub const COORD_LIMIT: i64 = 1_000_000_000_000;

/// The half turn, in raw steps.  `PI / SCALE` approximates the real number pi;
/// angle wrapping is exact arithmetic modulo `TWO_PI`.
pub const PI: i64 = 3_141_592;

/// The full turn, in raw steps: exactly `2 * PI`.
pub const TWO_PI: i64 = 2 * PI;

/// A fixed-point scalar: the value `raw / SCALE` in world units.
///
/// Contracts throughout the library speak of the raw step count `s@`,
/// an integer, so every stated result is exact.
#[derive(Clone, Copy, Debug, PartialEq, Eq, Structural)]
pub struct Scalar {
    pub raw: i64,
}

impl View for Scalar {
    type V = int;

    open spec fn view(&self) -> int {
        self.raw as int
    }
}

impl Scalar {
    /// The scalar holding `raw` steps of `1 / SCALE` unit each.
    pub fn new(raw: i64) -> (s: Scalar)
        ensures
            s@ == raw as int,
    {
        Scalar { raw }
    }

    /// Zero.
    pub fn zero() -> (s: Scalar)
        ensures
            s@ == 0,
    {
        Scalar { raw: 0 }
    }

    /// The scalar worth `units` whole units.
    pub fn from_units(units: i64) -> (s: Scalar)
        requires
            units * SCALE <= i64::MAX,
            i64::MIN <= units * SCALE,
        ensures
            s@ == units * SCALE,
    {
        Scalar { raw: units * SCALE }
    }
}

} // verus!
