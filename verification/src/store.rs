//! The entity-component store: entity lifetimes, one storage per kind of
//! component, and the queue of structural changes that wait for the end of
//! the tick.

pub mod commands;
pub mod entity;
pub mod lifecycle;
pub mod storage;
pub mod world;
