//! Device-independent input queries over keyboard, mouse and gamepad state.
//!
//! Raw device state is borrowed from `bevy`'s input collections.  Abstract inputs
//! (`UserInput`, `InputKind`) are evaluated against it by `PreparedInputStreams`,
//! which answers whether an input is pressed, what its scalar value is and what
//! its two-dimensional value is.  Analog magnitudes are fixed-point numbers, see
//! the `scalar` module.

pub mod axislike;
pub mod buttonlike;
pub mod devices;
pub mod input_streams;
pub mod laws;
pub mod mouse;
pub mod scalar;
pub mod user_input;

pub use crate::input_streams::{InputStreams, MutableInputStreams, PreparedInputStreams};
