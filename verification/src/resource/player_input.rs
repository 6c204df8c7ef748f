//! What the player wants the unit to do.

use vstd::prelude::*;

verus! {

/// The keys that the game listens to; every other key is `Other`.
#[derive(Clone, Copy, Debug, PartialEq, Eq, Structural)]
pub enum Key {
    Left,
    Right,
    Up,
    Down,
    Fire,
    Other,
}

/// What the input device reported, reduced to what the game listens to.
#[derive(Clone, Copy, Debug, PartialEq, Eq, Structural)]
pub enum InputEvent {
    KeyDown(Key),
    KeyUp(Key),
    Other,
}

/// The intents of the player: each is set while its key is held.
#[derive(Clone, Copy, Debug, PartialEq, Eq, Structural)]
pub struct PlayerInput {
    pub left: bool,
    pub right: bool,
    pub up: bool,
    pub down: bool,
    pub fire: bool,
}

impl Default for PlayerInput {
    /// No key is held.
    fn default() -> (r: Self)
        ensures
            r == (PlayerInput { left: false, right: false, up: false, down: false, fire: false }),
    {
        Self { left: false, right: false, up: false, down: false, fire: false }
    }
}

impl PlayerInput {
    /// The intents with the one that `key` stands for set to `held`.
    pub open spec fn with_key(self, key: Key, held: bool) -> PlayerInput {
        match key {
            Key::Left => PlayerInput { left: held, ..self },
            Key::Right => PlayerInput { right: held, ..self },
            Key::Up => PlayerInput { up: held, ..self },
            Key::Down => PlayerInput { down: held, ..self },
            Key::Fire => PlayerInput { fire: held, ..self },
            Key::Other => self,
        }
    }

    /// The intents after `event`: a key that goes down sets its intent, a
    /// key that goes up clears it, and nothing else changes anything.
    pub open spec fn after_event(self, event: InputEvent) -> PlayerInput {
        match event {
            InputEvent::KeyDown(key) => self.with_key(key, true),
            InputEvent::KeyUp(key) => self.with_key(key, false),
            InputEvent::Other => self,
        }
    }

    /// Takes one event of the input device.
    pub fn update_player_input(&mut self, event: InputEvent)
        ensures
            *final(self) == old(self).after_event(event),
    {
        match event {
            InputEvent::KeyDown(Key::Left) => self.left = true,
            InputEvent::KeyDown(Key::Right) => self.right = true,
            InputEvent::KeyDown(Key::Up) => self.up = true,
            InputEvent::KeyDown(Key::Down) => self.down = true,
            InputEvent::KeyDown(Key::Fire) => self.fire = true,
            InputEvent::KeyUp(Key::Left) => self.left = false,
            InputEvent::KeyUp(Key::Right) => self.right = false,
            InputEvent::KeyUp(Key::Up) => self.up = false,
            InputEvent::KeyUp(Key::Down) => self.down = false,
            InputEvent::KeyUp(Key::Fire) => self.fire = false,
            _ => {},
        }
    }
}

} // verus!
