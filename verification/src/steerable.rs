use vstd::prelude::*;

use crate::scalar::Scalar;
use crate::scalar::COORD_LIMIT;
use crate::vector::Vec3;

verus! {

/// The read-only kinematic view of an agent: what a behavior reads about
/// its owner and its target.  The host application owns the agent's state
/// and hands a `Steerable` to the engine for the duration of one
/// calculation; no calculator mutates it.
#[derive(Clone, Copy, Debug, PartialEq, Eq, Structural)]
pub struct Steerable {
    /// position of the agent
    pub position: Vec3,
    /// linear velocity vector of the agent
    pub linear_velocity: Vec3,
    /// angular velocity of the agent
    pub angular_velocity: Scalar,
    /// bounding circle radius of the agent
    pub bounding_radius: Scalar,
    /// heading angle of the agent
    pub orientation: Scalar,
}

impl Steerable {
    /// Every kinematic quantity lies inside the library's working range.
    pub open spec fn bounded(self) -> bool {
        &&& self.position@.within(COORD_LIMIT as int)
        &&& self.linear_velocity@.within(COORD_LIMIT as int)
        &&& -COORD_LIMIT <= self.angular_velocity@ <= COORD_LIMIT
        &&& 0 <= self.bounding_radius@ <= COORD_LIMIT
        &&& -COORD_LIMIT <= self.orientation@ <= COORD_LIMIT
    }

    /// An agent at rest at the origin.
    pub fn new() -> (s: Steerable)
        ensures
            s.position@.is_origin(),
            s.linear_velocity@.is_origin(),
            s.angular_velocity@ == 0,
            s.bounding_radius@ == 0,
            s.orientation@ == 0,
    {
        Steerable {
            position: Vec3::zero(),
            linear_velocity: Vec3::zero(),
            angular_velocity: Scalar { raw: 0 },
            bounding_radius: Scalar { raw: 0 },
            orientation: Scalar { raw: 0 },
        }
    }

    /// returns the position of the agent
    pub fn get_position(&self) -> (r: Vec3)
        ensures
            r == self.position,
    {
        self.position
    }

    /// returns the linear velocity vector of the agent
    pub fn get_linear_velocity(&self) -> (r: Vec3)
        ensures
            r == self.linear_velocity,
    {
        self.linear_velocity
    }

    /// returns the angular velocity of the agent
    pub fn get_angular_velocity(&self) -> (r: Scalar)
        ensures
            r == self.angular_velocity,
    {
        self.angular_velocity
    }

    /// returns the bounding circle radius of the agent
    pub fn get_bounding_radius(&self) -> (r: Scalar)
        ensures
            r == self.bounding_radius,
    {
        self.bounding_radius
    }

    /// returns the heading angle of the agent
    pub fn get_orientation(&self) -> (r: Scalar)
        ensures
            r == self.orientation,
    {
        self.orientation
    }

    /// Replaces the position; the host's integration step uses this
    /// between calculations.
    pub fn set_position(&mut self, position: Vec3)
        ensures
            *final(self) == (Steerable { position, ..*old(self) }),
    {
        self.position = position;
    }
}

} // verus!
