//! The values that all systems share.

pub mod player_input;
pub mod sound;
pub mod timing;
