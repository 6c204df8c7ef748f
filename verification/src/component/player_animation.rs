//! The animation state of a player-controlled unit and of its weapon glow.

use crate::store::entity::Entity;
use vstd::prelude::*;

verus! {

/// Ticks that a banking state is held before the next one may follow.
pub const ANIMATION_DURATION: usize = 1;

/// Ticks that a phase of the weapon glow is held.
pub const GLOW_ANIMATION_DURATION: usize = 2;

/// How a unit banks, with the ticks left before its state may change.
#[derive(Debug, Copy, Clone, PartialEq, Eq, Structural)]
pub enum PlayerAnimationState {
    Neutral(usize),
    Left1(usize),
    Left2(usize),
    Left3(usize),
    Right1(usize),
    Right2(usize),
    Right3(usize),
}

/// The pulse of the weapon glow, with the ticks left in its phase.
#[derive(Debug, Copy, Clone, PartialEq, Eq, Structural)]
pub enum GlowAnimationState {
    Off,
    Fire,
    Fire1(usize),
    Fire2(usize),
    Fire3(usize),
    Cooldown1(usize),
    Cooldown2(usize),
    Cooldown3(usize),
}

impl PlayerAnimationState {
    /// How far the unit banks: one to three steps, negative to the left and
    /// positive to the right, and zero when it flies level.
    pub open spec fn bank(self) -> int {
        match self {
            PlayerAnimationState::Neutral(_) => 0,
            PlayerAnimationState::Left1(_) => -1,
            PlayerAnimationState::Left2(_) => -2,
            PlayerAnimationState::Left3(_) => -3,
            PlayerAnimationState::Right1(_) => 1,
            PlayerAnimationState::Right2(_) => 2,
            PlayerAnimationState::Right3(_) => 3,
        }
    }

    /// The ticks left before the state may change.
    pub open spec fn hold(self) -> usize {
        match self {
            PlayerAnimationState::Neutral(n) => n,
            PlayerAnimationState::Left1(n) => n,
            PlayerAnimationState::Left2(n) => n,
            PlayerAnimationState::Left3(n) => n,
            PlayerAnimationState::Right1(n) => n,
            PlayerAnimationState::Right2(n) => n,
            PlayerAnimationState::Right3(n) => n,
        }
    }

    /// The state that banks by `bank` steps and is held for `hold` ticks.
    pub open spec fn banked(bank: int, hold: usize) -> PlayerAnimationState {
        if bank <= -3 {
            PlayerAnimationState::Left3(hold)
        } else if bank == -2 {
            PlayerAnimationState::Left2(hold)
        } else if bank == -1 {
            PlayerAnimationState::Left1(hold)
        } else if bank == 0 {
            PlayerAnimationState::Neutral(hold)
        } else if bank == 1 {
            PlayerAnimationState::Right1(hold)
        } else if bank == 2 {
            PlayerAnimationState::Right2(hold)
        } else {
            PlayerAnimationState::Right3(hold)
        }
    }

    /// The sprite frame that shows the state: frame 0 flies level, frames 1
    /// to 3 bank to the left and frames 4 to 6 to the right.
    pub open spec fn frame_index_spec(self) -> int {
        if self.bank() < 0 {
            -self.bank()
        } else if self.bank() > 0 {
            3 + self.bank()
        } else {
            0
        }
    }

    /// The state one tick later, for a unit with horizontal acceleration `ax`
    /// and horizontal velocity `vx`.
    ///
    /// A state that is still held counts down and stays. Otherwise a level
    /// unit starts to bank the way it accelerates; a banking unit banks one
    /// step further, up to the third, while it accelerates that way, levels
    /// out when it accelerates the other way or stands still, and else waits.
    pub open spec fn advance_spec(self, ax: int, vx: int) -> PlayerAnimationState {
        let bank = self.bank();
        if self.hold() > 0 {
            Self::banked(bank, (self.hold() - 1) as usize)
        } else if bank == 0 {
            if ax < 0 {
                Self::banked(-1, ANIMATION_DURATION)
            } else if ax > 0 {
                Self::banked(1, ANIMATION_DURATION)
            } else {
                Self::banked(0, 0)
            }
        } else if (bank < 0 && ax < 0) || (bank > 0 && ax > 0) {
            Self::banked(if bank < 0 { bank - 1 } else { bank + 1 }, ANIMATION_DURATION)
        } else if ax != 0 || vx == 0 {
            Self::banked(0, ANIMATION_DURATION)
        } else {
            Self::banked(bank, 0)
        }
    }

    /// Advances the state by one tick.
    pub fn advance(self, ax: i32, vx: i32) -> (r: Self)
        ensures
            r == self.advance_spec(ax as int, vx as int),
    {
        match self {
            PlayerAnimationState::Neutral(n) => {
                if n > 0 {
                    PlayerAnimationState::Neutral(n - 1)
                } else if ax < 0 {
                    PlayerAnimationState::Left1(ANIMATION_DURATION)
                } else if ax > 0 {
                    PlayerAnimationState::Right1(ANIMATION_DURATION)
                } else {
                    PlayerAnimationState::Neutral(0)
                }
            },
            PlayerAnimationState::Left1(n) => {
                if n > 0 {
                    PlayerAnimationState::Left1(n - 1)
                } else if ax < 0 {
                    PlayerAnimationState::Left2(ANIMATION_DURATION)
                } else if ax > 0 || vx == 0 {
                    PlayerAnimationState::Neutral(ANIMATION_DURATION)
                } else {
                    PlayerAnimationState::Left1(0)
                }
            },
            PlayerAnimationState::Left2(n) => {
                if n > 0 {
                    PlayerAnimationState::Left2(n - 1)
                } else if ax < 0 {
                    PlayerAnimationState::Left3(ANIMATION_DURATION)
                } else if ax > 0 || vx == 0 {
                    PlayerAnimationState::Neutral(ANIMATION_DURATION)
                } else {
                    PlayerAnimationState::Left2(0)
                }
            },
            PlayerAnimationState::Left3(n) => {
                if n > 0 {
                    PlayerAnimationState::Left3(n - 1)
                } else if ax < 0 {
                    PlayerAnimationState::Left3(ANIMATION_DURATION)
                } else if ax > 0 || vx == 0 {
                    PlayerAnimationState::Neutral(ANIMATION_DURATION)
                } else {
                    PlayerAnimationState::Left3(0)
                }
            },
            PlayerAnimationState::Right1(n) => {
                if n > 0 {
                    PlayerAnimationState::Right1(n - 1)
                } else if ax > 0 {
                    PlayerAnimationState::Right2(ANIMATION_DURATION)
                } else if ax < 0 || vx == 0 {
                    PlayerAnimationState::Neutral(ANIMATION_DURATION)
                } else {
                    PlayerAnimationState::Right1(0)
                }
            },
            PlayerAnimationState::Right2(n) => {
                if n > 0 {
                    PlayerAnimationState::Right2(n - 1)
                } else if ax > 0 {
                    PlayerAnimationState::Right3(ANIMATION_DURATION)
                } else if ax < 0 || vx == 0 {
                    PlayerAnimationState::Neutral(ANIMATION_DURATION)
                } else {
                    PlayerAnimationState::Right2(0)
                }
            },
            PlayerAnimationState::Right3(n) => {
                if n > 0 {
                    PlayerAnimationState::Right3(n - 1)
                } else if ax > 0 {
                    PlayerAnimationState::Right3(ANIMATION_DURATION)
                } else if ax < 0 || vx == 0 {
                    PlayerAnimationState::Neutral(ANIMATION_DURATION)
                } else {
                    PlayerAnimationState::Right3(0)
                }
            },
        }
    }

    /// The sprite frame that shows the state.
    pub fn frame_index(self) -> (r: usize)
        ensures
            r as int == self.frame_index_spec(),
            r <= 6,
    {
        match self {
            PlayerAnimationState::Neutral(_) => 0,
            PlayerAnimationState::Left1(_) => 1,
            PlayerAnimationState::Left2(_) => 2,
            PlayerAnimationState::Left3(_) => 3,
            PlayerAnimationState::Right1(_) => 4,
            PlayerAnimationState::Right2(_) => 5,
            PlayerAnimationState::Right3(_) => 6,
        }
    }
}

impl GlowAnimationState {
    /// The place of the state in the pulse: 0 for `Off`, 1 for `Fire`, 2 to 4
    /// for the rising phases and 5 to 7 for the falling ones.
    pub open spec fn phase(self) -> int {
        match self {
            GlowAnimationState::Off => 0,
            GlowAnimationState::Fire => 1,
            GlowAnimationState::Fire1(_) => 2,
            GlowAnimationState::Fire2(_) => 3,
            GlowAnimationState::Fire3(_) => 4,
            GlowAnimationState::Cooldown1(_) => 5,
            GlowAnimationState::Cooldown2(_) => 6,
            GlowAnimationState::Cooldown3(_) => 7,
        }
    }

    /// The ticks left in the phase. `Off` and `Fire` are never held.
    pub open spec fn hold(self) -> usize {
        match self {
            GlowAnimationState::Off => 0,
            GlowAnimationState::Fire => 0,
            GlowAnimationState::Fire1(n) => n,
            GlowAnimationState::Fire2(n) => n,
            GlowAnimationState::Fire3(n) => n,
            GlowAnimationState::Cooldown1(n) => n,
            GlowAnimationState::Cooldown2(n) => n,
            GlowAnimationState::Cooldown3(n) => n,
        }
    }

    /// The state at place `phase` of the pulse, held for `hold` ticks.
    pub open spec fn in_phase(phase: int, hold: usize) -> GlowAnimationState {
        if phase == 1 {
            GlowAnimationState::Fire
        } else if phase == 2 {
            GlowAnimationState::Fire1(hold)
        } else if phase == 3 {
            GlowAnimationState::Fire2(hold)
        } else if phase == 4 {
            GlowAnimationState::Fire3(hold)
        } else if phase == 5 {
            GlowAnimationState::Cooldown1(hold)
        } else if phase == 6 {
            GlowAnimationState::Cooldown2(hold)
        } else if phase == 7 {
            GlowAnimationState::Cooldown3(hold)
        } else {
            GlowAnimationState::Off
        }
    }

    /// The state one tick later: `Off` stays off, a phase that is still held
    /// counts down, and any other state gives way to the next phase of the
    /// pulse, the last one to `Off`.
    pub open spec fn advance_spec(self) -> GlowAnimationState {
        if self.phase() == 0 {
            GlowAnimationState::Off
        } else if self.hold() > 0 {
            Self::in_phase(self.phase(), (self.hold() - 1) as usize)
        } else {
            Self::in_phase(self.phase() + 1, GLOW_ANIMATION_DURATION)
        }
    }

    /// The state after a shot was signalled: a glow that is off starts its
    /// pulse, a glow that is pulsing goes on as it was.
    pub open spec fn trigger_fire_spec(self) -> GlowAnimationState {
        if self.phase() == 0 {
            GlowAnimationState::Fire
        } else {
            self
        }
    }

    /// The scale of the glow sprite in percent: half size when off, full
    /// size at the start of the pulse, a tenth more with each rising phase
    /// and a tenth less with each falling one.
    pub open spec fn scale_factor_spec(self) -> int {
        let phase = self.phase();
        if phase == 0 {
            50
        } else if phase <= 2 {
            100
        } else if phase <= 4 {
            100 + 10 * (phase - 2)
        } else {
            120 - 10 * (phase - 4)
        }
    }

    /// Advances the pulse by one tick.
    pub fn advance(self) -> (r: Self)
        ensures
            r == self.advance_spec(),
    {
        match self {
            GlowAnimationState::Off => GlowAnimationState::Off,
            GlowAnimationState::Fire => GlowAnimationState::Fire1(GLOW_ANIMATION_DURATION),
            GlowAnimationState::Fire1(n) => if n > 0 {
                GlowAnimationState::Fire1(n - 1)
            } else {
                GlowAnimationState::Fire2(GLOW_ANIMATION_DURATION)
            },
            GlowAnimationState::Fire2(n) => if n > 0 {
                GlowAnimationState::Fire2(n - 1)
            } else {
                GlowAnimationState::Fire3(GLOW_ANIMATION_DURATION)
            },
            GlowAnimationState::Fire3(n) => if n > 0 {
                GlowAnimationState::Fire3(n - 1)
            } else {
                GlowAnimationState::Cooldown1(GLOW_ANIMATION_DURATION)
            },
            GlowAnimationState::Cooldown1(n) => if n > 0 {
                GlowAnimationState::Cooldown1(n - 1)
            } else {
                GlowAnimationState::Cooldown2(GLOW_ANIMATION_DURATION)
            },
            GlowAnimationState::Cooldown2(n) => if n > 0 {
                GlowAnimationState::Cooldown2(n - 1)
            } else {
                GlowAnimationState::Cooldown3(GLOW_ANIMATION_DURATION)
            },
            GlowAnimationState::Cooldown3(n) => if n > 0 {
                GlowAnimationState::Cooldown3(n - 1)
            } else {
                GlowAnimationState::Off
            },
        }
    }

    /// Takes the signal that a shot was fired.
    pub fn trigger_fire(self) -> (r: Self)
        ensures
            r == self.trigger_fire_spec(),
    {
        match self {
            GlowAnimationState::Off => GlowAnimationState::Fire,
            other => other,
        }
    }

    /// The scale of the glow sprite in percent.
    pub fn scale_factor(self) -> (r: u32)
        ensures
            r as int == self.scale_factor_spec(),
            50 <= r <= 120,
    {
        match self {
            GlowAnimationState::Off => 50,
            GlowAnimationState::Fire => 100,
            GlowAnimationState::Fire1(_) => 100,
            GlowAnimationState::Fire2(_) => 110,
            GlowAnimationState::Fire3(_) => 120,
            GlowAnimationState::Cooldown1(_) => 110,
            GlowAnimationState::Cooldown2(_) => 100,
            GlowAnimationState::Cooldown3(_) => 90,
        }
    }
}

/// The banking state after the ticks whose horizontal accelerations and
/// velocities are `motion`, in order.
pub open spec fn banking_after(state: PlayerAnimationState, motion: Seq<(int, int)>) -> PlayerAnimationState
    decreases motion.len(),
{
    if motion.len() == 0 {
        state
    } else {
        banking_after(state, motion.drop_last()).advance_spec(motion.last().0, motion.last().1)
    }
}

/// The glow after `n` ticks.
pub open spec fn glow_after(state: GlowAnimationState, n: nat) -> GlowAnimationState
    decreases n,
{
    if n == 0 {
        state
    } else {
        glow_after(state, (n - 1) as nat).advance_spec()
    }
}

/// Hold delay. A state that is held for `hold` ticks keeps its name through
/// the next `hold` ticks, whatever the unit does, and only counts down; the
/// frame that shows it stays the same. The transition table is not looked
/// at before the tick after those.
pub proof fn lemma_hold_delays(state: PlayerAnimationState, motion: Seq<(int, int)>, k: int)
    requires
        0 <= k <= state.hold(),
        k <= motion.len(),
    ensures
        banking_after(state, motion.take(k)) == PlayerAnimationState::banked(
            state.bank(),
            (state.hold() - k) as usize,
        ),
        banking_after(state, motion.take(k)).frame_index_spec() == state.frame_index_spec(),
    decreases k,
{
    if k > 0 {
        lemma_hold_delays(state, motion, k - 1);
        assert(motion.take(k).drop_last() == motion.take(k - 1));
    } else {
        assert(motion.take(0).len() == 0);
    }
}

/// Every state shows one of the seven frames, and every transition moves
/// the banking by one step at most or levels the unit out.
pub proof fn lemma_banking_is_gradual(state: PlayerAnimationState, ax: int, vx: int)
    ensures
        0 <= state.frame_index_spec() <= 6,
        -3 <= state.bank() <= 3,
        ({
            let next = state.advance_spec(ax, vx);
            ||| next.bank() == state.bank()
            ||| next.bank() == 0
            ||| next.bank() == state.bank() + 1 && state.bank() >= 0
            ||| next.bank() == state.bank() - 1 && state.bank() <= 0
        }),
        state.advance_spec(ax, vx).hold() <= state.hold() || state.advance_spec(ax, vx).hold()
            == ANIMATION_DURATION,
{
}

/// The pulse of the glow. Once triggered the glow runs through its phases
/// without further input: it is in each of the six phases after `Fire` for
/// one tick more than [`GLOW_ANIMATION_DURATION`], it is off again after
/// nineteen ticks and not before, and then stays off.
pub proof fn lemma_glow_pulse(n: nat)
    ensures
        glow_after(GlowAnimationState::Fire, n) == if n == 0 {
            GlowAnimationState::Fire
        } else if n <= 18 {
            GlowAnimationState::in_phase(2 + (n - 1) / 3, (2 - (n - 1) % 3) as usize)
        } else {
            GlowAnimationState::Off
        },
    decreases n,
{
    if n > 0 {
        lemma_glow_pulse((n - 1) as nat);
    }
}

/// The animation of a unit: how it banks, and the pulse of the glow that an
/// entity of its own shows for its weapon, if the unit has one.
#[derive(Debug, Copy, Clone, PartialEq, Eq)]
pub struct PlayerAnimationComponent {
    pub animation_state: PlayerAnimationState,
    pub weapon_glow_entity: Option<Entity>,
    pub glow_animation_state: GlowAnimationState,
}

impl Default for PlayerAnimationComponent {
    /// A unit that flies level, without a glow entity, its glow off.
    fn default() -> (r: Self)
        ensures
            r == (PlayerAnimationComponent {
                animation_state: PlayerAnimationState::Neutral(0),
                weapon_glow_entity: None,
                glow_animation_state: GlowAnimationState::Off,
            }),
    {
        Self {
            animation_state: PlayerAnimationState::Neutral(0),
            weapon_glow_entity: None,
            glow_animation_state: GlowAnimationState::Off,
        }
    }
}

impl PlayerAnimationComponent {
    /// Passes the signal that a shot was fired on to the glow.
    pub fn trigger_fire(&mut self)
        ensures
            *final(self) == (PlayerAnimationComponent {
                glow_animation_state: old(self).glow_animation_state.trigger_fire_spec(),
                ..*old(self)
            }),
    {
        self.glow_animation_state = self.glow_animation_state.trigger_fire();
    }
}

} // verus!
