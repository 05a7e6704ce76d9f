//! Expression selection and bounce motion for an audio-reactive avatar.
//!
//! Every tick the avatar's expression catalog is scanned for the expression
//! with the highest threshold that the current audio level reaches; an
//! activation gate with attack and release timing decides whether that
//! expression replaces the one on screen, and a bounce curve yields the
//! avatar's vertical offset.
//!
//! All quantities are integers: audio levels and thresholds share one
//! fixed-point scale chosen by the caller, durations are nanoseconds or
//! milliseconds, and bounce velocities are fixed-point values whose unit is
//! the square of the unit of an expression's `max_velocity`.

pub mod catalog;
pub mod device;
pub mod engine;
pub mod expression;
pub mod laws;
pub mod layout;
pub mod motion;
pub mod overlay;
pub mod selector;
