mod angular_acceleration_limiter;
mod angular_limiter;
mod angular_speed_limiter;
mod full_limiter;
mod linear_acceleration_limiter;
mod linear_limiter;
mod linear_speed_limiter;

pub use self::angular_acceleration_limiter::AngularAccelerationLimiter;
pub use self::angular_limiter::AngularLimiter;
pub use self::angular_speed_limiter::AngularSpeedLimiter;
pub use self::full_limiter::FullLimiter;
pub use self::linear_acceleration_limiter::LinearAccelerationLimiter;
pub use self::linear_limiter::LinearLimiter;
pub use self::linear_speed_limiter::LinearSpeedLimiter;
