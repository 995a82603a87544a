//! Gesture recognition for multi-touch trackpads: per-touch tracking, session
//! lifecycle and geometric classification into edge swipes, directional swipes,
//! pinch and spread, and the table of actions that gestures trigger.
pub mod actions;
pub mod classify;
pub mod direction;
pub mod finger;
pub mod orientation;
pub mod session;

pub use actions::{Actions, Command};
pub use classify::Geometry;
pub use direction::Direction;
pub use finger::{Finger, dist2};
pub use orientation::Orientation;
pub use session::{Event, GestureSession};
