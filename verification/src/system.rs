//! The systems that run on the store.

pub mod bullet_physics;
pub mod player_animation;
pub mod player_movement;
pub mod player_weapon;
pub mod render;
pub mod track_position;
