//! The entities that the game is set up with.

pub mod player;
