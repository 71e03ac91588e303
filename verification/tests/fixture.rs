//! Tests of the reconciler's transition function, its side effects, the
//! duty-cycle mapping, pacing, and the DMX interpretation.

use windmill::cli::Args;
use windmill::dmx::{desired_state, Bridge, Metadata};
use windmill::fixture::{
    advance_tick, duty_cycle_of_state, duty_of_speed, evaluate_update, state_change_evaluator,
    transition_side_effect, SideEffect, Windmill, MAX_SPEED_CHANGE_PER_CYCLE, UPDATE_TICKS,
};

#[test]
fn off_to_off() {
    assert_eq!(
        Windmill::Off,
        state_change_evaluator(Windmill::Off, Windmill::Off)
    );
}

#[test]
fn off_to_forward() {
    assert_eq!(
        Windmill::Forward(0),
        state_change_evaluator(Windmill::Off, Windmill::Forward(239))
    );
}

#[test]
fn forward_stopped_to_go() {
    assert_eq!(
        Windmill::Forward(MAX_SPEED_CHANGE_PER_CYCLE),
        state_change_evaluator(Windmill::Forward(0), Windmill::Forward(239))
    );
}

#[test]
fn off_to_reverse_starts_at_zero() {
    assert_eq!(
        Windmill::Reverse(0),
        state_change_evaluator(Windmill::Off, Windmill::Reverse(17))
    );
}

#[test]
fn cooldown_preempts_any_desire() {
    assert_eq!(
        Windmill::Cooldown(99),
        state_change_evaluator(Windmill::Cooldown(100), Windmill::Forward(255))
    );
    assert_eq!(
        Windmill::Cooldown(0),
        state_change_evaluator(Windmill::Cooldown(1), Windmill::Off)
    );
}

#[test]
fn drained_cooldown_parks_off() {
    assert_eq!(
        Windmill::Off,
        state_change_evaluator(Windmill::Cooldown(0), Windmill::Reverse(50))
    );
}

#[test]
fn desired_cooldown_is_rejected() {
    assert_eq!(
        Windmill::Off,
        state_change_evaluator(Windmill::Forward(10), Windmill::Cooldown(3))
    );
    assert_eq!(
        Windmill::Off,
        state_change_evaluator(Windmill::Off, Windmill::Cooldown(100))
    );
}

#[test]
fn equal_speed_holds() {
    assert_eq!(
        Windmill::Forward(42),
        state_change_evaluator(Windmill::Forward(42), Windmill::Forward(42))
    );
    assert_eq!(
        Windmill::Reverse(42),
        state_change_evaluator(Windmill::Reverse(42), Windmill::Reverse(42))
    );
}

#[test]
fn deceleration_steps_down() {
    assert_eq!(
        Windmill::Forward(4),
        state_change_evaluator(Windmill::Forward(5), Windmill::Forward(3))
    );
    assert_eq!(
        Windmill::Reverse(4),
        state_change_evaluator(Windmill::Reverse(5), Windmill::Reverse(0))
    );
}

#[test]
fn braking_from_motion_cools_down() {
    assert_eq!(
        Windmill::Cooldown(100),
        state_change_evaluator(Windmill::Forward(1), Windmill::Off)
    );
    assert_eq!(
        Windmill::Cooldown(100),
        state_change_evaluator(Windmill::Reverse(255), Windmill::Off)
    );
}

#[test]
fn reversal_triggers_cooldown_and_brake() {
    assert_eq!(
        Windmill::Cooldown(100),
        state_change_evaluator(Windmill::Forward(200), Windmill::Reverse(50))
    );
    assert_eq!(
        Windmill::Cooldown(100),
        state_change_evaluator(Windmill::Reverse(200), Windmill::Forward(50))
    );
    assert_eq!(
        SideEffect::Brake,
        transition_side_effect(Windmill::Forward(200), Windmill::Reverse(50))
    );
}

#[test]
fn cooldown_drains_then_reverses() {
    // Holding a reverse desire against a forward run: one update brakes,
    // 100 drain the cool-down, one parks at Off, then reverse motion starts
    // from speed 0 and eases upward.
    let desired = Windmill::Reverse(50);
    let mut state = Windmill::Forward(200);
    state = state_change_evaluator(state, desired);
    assert_eq!(Windmill::Cooldown(100), state);
    for expected in (0..100).rev() {
        state = state_change_evaluator(state, desired);
        assert_eq!(Windmill::Cooldown(expected), state);
    }
    state = state_change_evaluator(state, desired);
    assert_eq!(Windmill::Off, state);
    state = state_change_evaluator(state, desired);
    assert_eq!(Windmill::Reverse(0), state);
    state = state_change_evaluator(state, desired);
    assert_eq!(Windmill::Reverse(1), state);
}

#[test]
fn desiring_off_rests_within_102_updates() {
    let mut state = Windmill::Forward(200);
    for _ in 0..102 {
        state = state_change_evaluator(state, Windmill::Off);
    }
    assert_eq!(Windmill::Off, state);
    // And it stays at rest.
    assert_eq!(Windmill::Off, state_change_evaluator(state, Windmill::Off));
}

#[test]
fn ramp_reaches_target_in_target_updates() {
    let desired = Windmill::Forward(10);
    let mut state = Windmill::Forward(0);
    for step in 1..=10 {
        state = state_change_evaluator(state, desired);
        assert_eq!(Windmill::Forward(step), state);
    }
    state = state_change_evaluator(state, desired);
    assert_eq!(Windmill::Forward(10), state);
}

#[test]
fn side_effects_only_on_start_and_brake() {
    assert_eq!(
        SideEffect::StartForward,
        transition_side_effect(Windmill::Off, Windmill::Forward(239))
    );
    assert_eq!(
        SideEffect::StartReverse,
        transition_side_effect(Windmill::Off, Windmill::Reverse(239))
    );
    assert_eq!(
        SideEffect::Brake,
        transition_side_effect(Windmill::Forward(3), Windmill::Off)
    );
    assert_eq!(
        SideEffect::Keep,
        transition_side_effect(Windmill::Off, Windmill::Off)
    );
    assert_eq!(
        SideEffect::Keep,
        transition_side_effect(Windmill::Forward(3), Windmill::Forward(9))
    );
    assert_eq!(
        SideEffect::Keep,
        transition_side_effect(Windmill::Cooldown(40), Windmill::Reverse(9))
    );
}

#[test]
fn duty_mapping_endpoints_and_midpoint() {
    assert_eq!(0, duty_of_speed(0));
    assert_eq!(100, duty_of_speed(255));
    // floor(128 * 100 / 255) = floor(50.19...) = 50
    assert_eq!(50, duty_of_speed(128));
    // floor(239 * 100 / 255) = floor(93.7...) = 93
    assert_eq!(93, duty_of_speed(239));
    // Monotone non-decreasing over the whole domain.
    for speed in 1..=255u8 {
        assert!(duty_of_speed(speed - 1) <= duty_of_speed(speed));
    }
}

#[test]
fn deenergized_states_emit_zero_duty() {
    assert_eq!(0, duty_cycle_of_state(Windmill::Off));
    assert_eq!(0, duty_cycle_of_state(Windmill::Cooldown(7)));
    assert_eq!(50, duty_cycle_of_state(Windmill::Forward(128)));
    assert_eq!(100, duty_cycle_of_state(Windmill::Reverse(255)));
}

#[test]
fn update_emits_duty_only_on_change() {
    let unchanged = evaluate_update(Windmill::Off, Windmill::Off);
    assert_eq!(Windmill::Off, unchanged.new_state);
    assert_eq!(None, unchanged.duty_cycle);

    let started = evaluate_update(Windmill::Off, Windmill::Forward(239));
    assert_eq!(Windmill::Forward(0), started.new_state);
    assert_eq!(SideEffect::StartForward, started.side_effect);
    assert_eq!(Some(0), started.duty_cycle);

    let braked = evaluate_update(Windmill::Reverse(128), Windmill::Off);
    assert_eq!(Windmill::Cooldown(100), braked.new_state);
    assert_eq!(SideEffect::Brake, braked.side_effect);
    assert_eq!(Some(0), braked.duty_cycle);

    let eased = evaluate_update(Windmill::Forward(127), Windmill::Forward(255));
    assert_eq!(Windmill::Forward(128), eased.new_state);
    assert_eq!(SideEffect::Keep, eased.side_effect);
    assert_eq!(Some(50), eased.duty_cycle);

    let held = evaluate_update(Windmill::Forward(9), Windmill::Forward(9));
    assert_eq!(Windmill::Forward(9), held.new_state);
    assert_eq!(None, held.duty_cycle);
}

#[test]
fn ticks_update_every_sixth() {
    assert_eq!(6, UPDATE_TICKS);
    let mut tick = 0u8;
    let mut updates = 0u32;
    for _ in 0..12 {
        let (next_tick, update) = advance_tick(tick);
        tick = next_tick;
        if update {
            updates += 1;
        }
    }
    assert_eq!(0, tick);
    assert_eq!(2, updates);
    assert_eq!((1, false), advance_tick(0));
    assert_eq!((0, true), advance_tick(5));
}

#[test]
fn dmx_bytes_map_to_desired_states() {
    // Speed 0 rests the fixture whatever the direction byte says.
    assert_eq!(Windmill::Off, desired_state(0, 0));
    assert_eq!(Windmill::Off, desired_state(0, 200));
    // Direction bytes 0..=127 drive forward, 128..=255 reverse.
    assert_eq!(Windmill::Forward(5), desired_state(5, 0));
    assert_eq!(Windmill::Forward(5), desired_state(5, 127));
    assert_eq!(Windmill::Reverse(5), desired_state(5, 128));
    assert_eq!(Windmill::Reverse(255), desired_state(255, 255));
}

#[test]
fn bridge_filters_by_universe() {
    let bridge = Bridge::new(5);
    assert_eq!(5, bridge.get_universe());
    assert!(bridge.accepts(&Metadata {
        universe: 5,
        priority: 100
    }));
    assert!(!bridge.accepts(&Metadata {
        universe: 6,
        priority: 100
    }));
}

#[test]
fn args_default_to_shipped_settings() {
    let args = Args::default();
    assert_eq!(5, args.universe);
    assert_eq!(10, args.speed_channel);
    assert_eq!(11, args.direction_channel);
}
