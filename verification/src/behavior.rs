mod arrive;
mod evade;
mod face;
mod flee;
mod pursue;
mod seek;

pub use self::arrive::arrive_acceleration;
pub use self::arrive::arrive_target_speed;
pub use self::arrive::lemma_arrive_within_tolerance;
pub use self::arrive::Arrive;
pub use self::evade::evade_acceleration;
pub use self::evade::lemma_evade_bounded;
pub use self::evade::Evade;
pub use self::face::acos_approx;
pub use self::face::clamp_angular;
pub use self::face::lemma_face_angular_clamped;
pub use self::face::lemma_face_angular_sign;
pub use self::face::face_acceleration;
pub use self::face::reach_orientation_acceleration;
pub use self::face::Face;
pub use self::flee::flee_acceleration;
pub use self::flee::lemma_flee_bounded;
pub use self::flee::lemma_flee_same_position;
pub use self::flee::Flee;
pub use self::pursue::lemma_prediction_time_bounded;
pub use self::pursue::lemma_pursue_bounded;
pub use self::pursue::lemma_pursue_stationary_reduces_to_seek;
pub use self::pursue::predicted_position;
pub use self::pursue::prediction_time;
pub use self::pursue::pursue_acceleration;
pub use self::pursue::Pursue;
pub use self::seek::lemma_seek_bounded;
pub use self::seek::lemma_seek_same_position;
pub use self::seek::seek_acceleration;
pub use self::seek::Seek;
