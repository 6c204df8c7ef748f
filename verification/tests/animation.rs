use deimos::component::player_animation::GlowAnimationState::{
    Cooldown1, Cooldown2, Cooldown3, Fire, Fire1, Fire2, Fire3, Off,
};
use deimos::component::player_animation::PlayerAnimationState::{
    Left1, Left2, Left3, Neutral, Right1, Right2, Right3,
};
use deimos::component::player_animation::{
    GlowAnimationState, PlayerAnimationComponent, PlayerAnimationState, ANIMATION_DURATION,
    GLOW_ANIMATION_DURATION,
};

#[test]
fn animation_durations() {
    assert_eq!(ANIMATION_DURATION, 1);
    assert_eq!(GLOW_ANIMATION_DURATION, 2);
}

#[test]
fn scripted_banking_to_the_left_and_back() {
    // (ax, vx) of each tick, and the state after it
    let script = [
        ((0, 0), Neutral(0)),
        ((-5, -5), Left1(1)),
        ((-5, -10), Left1(0)),
        ((-5, -15), Left2(1)),
        ((-5, -20), Left2(0)),
        ((-5, -25), Left3(1)),
        ((-5, -25), Left3(0)),
        ((-5, -25), Left3(1)),
        ((0, -25), Left3(0)),
        ((0, -25), Left3(0)),
        ((0, 0), Neutral(1)),
        ((-5, -5), Neutral(0)),
        ((-5, -10), Left1(1)),
        ((5, -5), Left1(0)),
        ((5, 0), Neutral(1)),
    ];
    let mut state = Neutral(0);
    for k in 0..script.len() {
        let ((ax, vx), expected) = script[k];
        state = state.advance(ax, vx);
        assert_eq!(state, expected);
    }
}

#[test]
fn scripted_banking_to_the_right_and_back() {
    let script = [
        ((5, 5), Right1(1)),
        ((5, 10), Right1(0)),
        ((5, 15), Right2(1)),
        ((0, 15), Right2(0)),
        ((0, 15), Right2(0)),
        ((5, 20), Right3(1)),
        ((5, 25), Right3(0)),
        ((5, 25), Right3(1)),
        ((-5, 20), Right3(0)),
        ((-5, 15), Neutral(1)),
        ((-5, 10), Neutral(0)),
        ((0, 10), Neutral(0)),
    ];
    let mut state = Neutral(0);
    for k in 0..script.len() {
        let ((ax, vx), expected) = script[k];
        state = state.advance(ax, vx);
        assert_eq!(state, expected);
    }
}

#[test]
fn a_held_state_only_counts_down() {
    assert_eq!(Neutral(3).advance(-5, -5), Neutral(2));
    assert_eq!(Left2(2).advance(5, 0), Left2(1));
    assert_eq!(Right3(1).advance(-5, 0), Right3(0));
}

#[test]
fn every_banking_state_levels_out_against_the_acceleration_or_at_rest() {
    let left = [Left1(0), Left2(0), Left3(0)];
    let right = [Right1(0), Right2(0), Right3(0)];
    for k in 0..3 {
        assert_eq!(left[k].advance(1, -9), Neutral(1));
        assert_eq!(left[k].advance(0, 0), Neutral(1));
        assert_eq!(left[k].advance(0, -9), left[k]);
        assert_eq!(left[k].advance(0, 9), left[k]);
        assert_eq!(right[k].advance(-1, 9), Neutral(1));
        assert_eq!(right[k].advance(0, 0), Neutral(1));
        assert_eq!(right[k].advance(0, 9), right[k]);
    }
}

#[test]
fn frame_of_each_state() {
    let states = [Neutral(0), Left1(0), Left2(1), Left3(0), Right1(1), Right2(0), Right3(5)];
    for k in 0..states.len() {
        assert_eq!(states[k].frame_index(), k);
    }
}

#[test]
fn glow_pulse_runs_through_all_phases() {
    let expected = [
        Fire1(2),
        Fire1(1),
        Fire1(0),
        Fire2(2),
        Fire2(1),
        Fire2(0),
        Fire3(2),
        Fire3(1),
        Fire3(0),
        Cooldown1(2),
        Cooldown1(1),
        Cooldown1(0),
        Cooldown2(2),
        Cooldown2(1),
        Cooldown2(0),
        Cooldown3(2),
        Cooldown3(1),
        Cooldown3(0),
        Off,
        Off,
    ];
    let mut state = Fire;
    for k in 0..expected.len() {
        state = state.advance();
        assert_eq!(state, expected[k]);
    }
}

#[test]
fn glow_stays_off_until_triggered() {
    let mut state = GlowAnimationState::Off;
    state = state.advance();
    assert_eq!(state, GlowAnimationState::Off);
    state = state.trigger_fire();
    assert_eq!(state, GlowAnimationState::Fire);
}

#[test]
fn trigger_leaves_a_running_pulse_alone() {
    assert_eq!(Fire.trigger_fire(), Fire);
    assert_eq!(Fire2(1).trigger_fire(), Fire2(1));
    assert_eq!(Cooldown3(0).trigger_fire(), Cooldown3(0));
}

#[test]
fn glow_scale_of_each_phase() {
    assert_eq!(Off.scale_factor(), 50);
    assert_eq!(Fire.scale_factor(), 100);
    assert_eq!(Fire1(2).scale_factor(), 100);
    assert_eq!(Fire2(0).scale_factor(), 110);
    assert_eq!(Fire3(1).scale_factor(), 120);
    assert_eq!(Cooldown1(2).scale_factor(), 110);
    assert_eq!(Cooldown2(2).scale_factor(), 100);
    assert_eq!(Cooldown3(2).scale_factor(), 90);
}

#[test]
fn default_animation_is_level_and_off() {
    let animation = PlayerAnimationComponent::default();
    assert_eq!(animation.animation_state, PlayerAnimationState::Neutral(0));
    assert_eq!(animation.weapon_glow_entity, None);
    assert_eq!(animation.glow_animation_state, GlowAnimationState::Off);
}

#[test]
fn component_passes_the_trigger_on() {
    let mut animation = PlayerAnimationComponent::default();
    animation.trigger_fire();
    assert_eq!(animation.glow_animation_state, GlowAnimationState::Fire);
    assert_eq!(animation.animation_state, PlayerAnimationState::Neutral(0));
}
