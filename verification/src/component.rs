//! The data that entities carry.

pub mod bullet_physics;
pub mod player_animation;
pub mod player_physics;
pub mod player_weapon;
pub mod position;
pub mod sprite;
pub mod track_position;
