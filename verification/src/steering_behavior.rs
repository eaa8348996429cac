use vstd::prelude::*;

use crate::limiter::Limiter;
use crate::scalar::COORD_LIMIT;
use crate::scalar::SCALE;
use crate::steerable::Steerable;

verus! {

/// Common properties of steering behaviors: the enabled flag, an optional
/// limiter, and the kinematics of the steered agent and of the agent or
/// point it reacts to.  Owner and target may be the same agent; every
/// behavior then falls back to its documented degenerate-geometry policy.
#[derive(Clone)]
pub struct SteeringBehavior<L: Limiter> {
    /// is this behavior enabled
    pub enabled: bool,
    /// limitations on speed and velocity calculations
    pub limiter: Option<L>,
    /// the agent being steered
    pub owner: Steerable,
    /// the agent or point being reacted to
    pub target: Steerable,
}

impl<L: Limiter> SteeringBehavior<L> {
    /// Owner and target kinematics lie inside the library's working range.
    pub open spec fn kinematics_bounded(self) -> bool {
        self.owner.bounded() && self.target.bounded()
    }

    /// The attached limiter models the maximum linear acceleration with a
    /// nonnegative cap inside the working range; a missing limiter always
    /// qualifies.
    pub open spec fn linear_acceleration_cap_ok(self) -> bool {
        match self.limiter {
            Some(l) => l.supports_max_linear_acceleration() && 0
                <= l.max_linear_acceleration_spec()@ <= COORD_LIMIT,
            None => true,
        }
    }

    /// The maximum linear acceleration used to scale directions: the
    /// limiter's cap, or one unit when no limiter is attached.
    pub open spec fn linear_acceleration_cap(self) -> int {
        match self.limiter {
            Some(l) => l.max_linear_acceleration_spec()@,
            None => SCALE as int,
        }
    }

    /// The attached limiter models the maximum linear speed with a
    /// nonnegative cap inside the working range; a missing limiter always
    /// qualifies.
    pub open spec fn linear_speed_cap_ok(self) -> bool {
        match self.limiter {
            Some(l) => l.supports_max_linear_speed() && 0 <= l.max_linear_speed_spec()@
                <= COORD_LIMIT,
            None => true,
        }
    }

    /// The maximum linear speed a behavior aims for: the limiter's cap, or
    /// one unit when no limiter is attached.
    pub open spec fn linear_speed_cap(self) -> int {
        match self.limiter {
            Some(l) => l.max_linear_speed_spec()@,
            None => SCALE as int,
        }
    }

    /// The attached limiter models the maximum angular speed with a
    /// nonnegative cap inside the working range; a missing limiter always
    /// qualifies.
    pub open spec fn angular_speed_cap_ok(self) -> bool {
        match self.limiter {
            Some(l) => l.supports_max_angular_speed() && 0 <= l.max_angular_speed_spec()@
                <= COORD_LIMIT,
            None => true,
        }
    }

    /// The maximum angular speed a behavior aims for: the limiter's cap,
    /// or the top of the working range when no limiter constrains it.
    pub open spec fn angular_speed_cap(self) -> int {
        match self.limiter {
            Some(l) => l.max_angular_speed_spec()@,
            None => COORD_LIMIT as int,
        }
    }

    /// The attached limiter models the zero-linear-speed threshold; a
    /// missing limiter always qualifies.
    pub open spec fn zero_linear_speed_threshold_ok(self) -> bool {
        match self.limiter {
            Some(l) => l.supports_zero_linear_speed_threshold(),
            None => true,
        }
    }

    /// Reads the maximum linear acceleration, one unit when no limiter is
    /// attached.
    pub fn read_linear_acceleration_cap(&self) -> (r: i64)
        requires
            self.linear_acceleration_cap_ok(),
        ensures
            r as int == self.linear_acceleration_cap(),
    {
        match &self.limiter {
            Some(l) => l.get_max_linear_acceleration().raw,
            None => SCALE,
        }
    }

    /// Reads the maximum linear speed, one unit when no limiter is
    /// attached.
    pub fn read_linear_speed_cap(&self) -> (r: i64)
        requires
            self.linear_speed_cap_ok(),
        ensures
            r as int == self.linear_speed_cap(),
    {
        match &self.limiter {
            Some(l) => l.get_max_linear_speed().raw,
            None => SCALE,
        }
    }

    /// Reads the maximum angular speed, the top of the working range when
    /// no limiter constrains it.
    pub fn read_angular_speed_cap(&self) -> (r: i64)
        requires
            self.angular_speed_cap_ok(),
        ensures
            r as int == self.angular_speed_cap(),
    {
        match &self.limiter {
            Some(l) => l.get_max_angular_speed().raw,
            None => COORD_LIMIT,
        }
    }
}

/// Access to the shared behavior configuration a calculator holds.
pub trait HasSteeringBehavior<L: Limiter>: Sized {
    /// The held configuration.
    spec fn steering_behavior_spec(&self) -> SteeringBehavior<L>;

    /// Borrows the held configuration.
    fn get_steering_behavior(&self) -> (b: &SteeringBehavior<L>)
        ensures
            *b == self.steering_behavior_spec(),
    ;
}

/// Switching a behavior on and off.
pub trait IsEnabled: Sized {
    /// Whether the behavior is switched on.
    spec fn enabled_flag(&self) -> bool;

    /// Reports whether the behavior is switched on.
    fn is_enabled(&self) -> (r: bool)
        ensures
            r == self.enabled_flag(),
    ;

    /// Switches the behavior on or off, leaving everything else unchanged.
    fn set_enabled(&mut self, value: bool)
        ensures
            final(self).enabled_flag() == value,
    ;
}

} // verus!
