//! Steering behaviors for autonomous agents.
//!
//! An agent is described by the [`Steerable`] kinematic view; a behavior
//! (Seek, Flee, Pursue, Evade, Arrive, Face) turns the owner's and the
//! target's kinematics into a bounded linear and angular acceleration.
//! All quantities are fixed-point scalars with [`SCALE`] raw steps per
//! unit, so every calculation is exact integer arithmetic and each
//! behavior's result is pinned down by its contract.  Degenerate geometry
//! (owner and target coinciding, a target under the zero-linear-speed
//! threshold) falls back to a zero output by documented policy rather
//! than surfacing as an error.

mod behavior;
mod limiter;
mod limiters;
mod math;
mod scalar;
mod steerable;
mod steering_acceleration;
mod steering_behavior;
mod vector;

pub use behavior::acos_approx;
pub use behavior::arrive_acceleration;
pub use behavior::arrive_target_speed;
pub use behavior::clamp_angular;
pub use behavior::evade_acceleration;
pub use behavior::face_acceleration;
pub use behavior::flee_acceleration;
pub use behavior::lemma_arrive_within_tolerance;
pub use behavior::lemma_evade_bounded;
pub use behavior::lemma_face_angular_clamped;
pub use behavior::lemma_flee_bounded;
pub use behavior::lemma_prediction_time_bounded;
pub use behavior::lemma_pursue_bounded;
pub use behavior::lemma_seek_bounded;
pub use behavior::lemma_face_angular_sign;
pub use behavior::lemma_flee_same_position;
pub use behavior::lemma_pursue_stationary_reduces_to_seek;
pub use behavior::lemma_seek_same_position;
pub use behavior::predicted_position;
pub use behavior::prediction_time;
pub use behavior::pursue_acceleration;
pub use behavior::reach_orientation_acceleration;
pub use behavior::seek_acceleration;
pub use behavior::Arrive;
pub use behavior::Evade;
pub use behavior::Face;
pub use behavior::Flee;
pub use behavior::Pursue;
pub use behavior::Seek;
pub use limiter::Limiter;
pub use limiters::AngularAccelerationLimiter;
pub use limiters::AngularLimiter;
pub use limiters::AngularSpeedLimiter;
pub use limiters::FullLimiter;
pub use limiters::LinearAccelerationLimiter;
pub use limiters::LinearLimiter;
pub use limiters::LinearSpeedLimiter;
pub use math::div_tz;
pub use math::is_sqrt;
pub use math::sqrt_floor;
pub use math::wrap_angle_around_zero;
pub use math::wrapped;
pub use math::lemma_wrapped_range;
pub use scalar::Scalar;
pub use scalar::COORD_LIMIT;
pub use scalar::PI;
pub use scalar::SCALE;
pub use scalar::TWO_PI;
pub use steerable::Steerable;
pub use steering_acceleration::lemma_mul_add_zero_scale;
pub use steering_acceleration::lemma_set_zero_is_zero;
pub use steering_acceleration::linear_acceleration;
pub use steering_acceleration::scaled_accumulate;
pub use steering_acceleration::zero_acceleration;
pub use steering_acceleration::SteeringAcceleration;
pub use steering_acceleration::SteeringAccelerationCalculator;
pub use steering_behavior::HasSteeringBehavior;
pub use steering_behavior::IsEnabled;
pub use steering_behavior::SteeringBehavior;
pub use vector::lemma_unit_scaled_bounded;
pub use vector::vec3_from;
pub use vector::Vec3;
pub use vector::Vec3i;
