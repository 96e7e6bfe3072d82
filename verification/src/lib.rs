//! Control logic of a Lissajous oscillator: how the ratio and frequency
//! entries are read, and how the player's settings change in response to
//! the user's actions.

pub mod text;
pub mod expression;
pub mod controls;
pub mod presets;
pub mod laws;

