//! Fixture state model and the reconciler's transition function.
//!
//! A `Windmill` value describes one posture of the fixture: parked, cooling
//! down after a brake, or driving in one direction at a speed. The reconciler
//! holds a current posture and, on every update, moves it one step toward the
//! latest desired posture with `state_change_evaluator`.

use vstd::arithmetic::div_mod::lemma_div_is_ordered;
use vstd::prelude::*;

verus! {

/// Number of updates the fixture dwells in cool-down after the brake engages.
pub const COOLDOWN_CYCLES: u8 = 100;

/// Largest change of speed the reconciler applies in a single update.
pub const MAX_SPEED_CHANGE_PER_CYCLE: u8 = 1;

/// Ticks between updates: the reconciler samples the inbox every tick and
/// commits a state transition on every `UPDATE_TICKS`-th tick.
pub const UPDATE_TICKS: u8 = 6;

/// Largest speed a state may carry.
pub const SPEED_MAX: u8 = 255;

/// Largest duty-cycle percentage the PWM sink accepts.
pub const DUTY_MAX: u8 = 100;

/// One state of the windmill: the current posture, a previous one, or a
/// desired one, depending on context. A desired state is never `Cooldown`;
/// the transition function parks at `Off` if one arrives anyway.
#[derive(Copy, Clone, Debug, PartialEq, Eq, Structural)]
pub enum Windmill {
    /// Motor de-energized, brake engaged, duty cycle 0.
    Off,
    /// Brake engaged and duty cycle 0 for the given number of further
    /// updates, after which the fixture parks at `Off`.
    Cooldown(u8),
    /// Motor energized in forward polarity at the given speed.
    Forward(u8),
    /// Motor energized in reverse polarity at the given speed.
    Reverse(u8),
}

/// Move `current` toward `desired` by at most `MAX_SPEED_CHANGE_PER_CYCLE`,
/// clamped so the speed never overshoots the target.
pub open spec fn approach(current: u8, desired: u8) -> u8 {
    if current == desired {
        current
    } else if current > desired {
        if current - MAX_SPEED_CHANGE_PER_CYCLE >= desired {
            (current - MAX_SPEED_CHANGE_PER_CYCLE) as u8
        } else {
            desired
        }
    } else {
        if current + MAX_SPEED_CHANGE_PER_CYCLE <= desired {
            (current + MAX_SPEED_CHANGE_PER_CYCLE) as u8
        } else {
            desired
        }
    }
}

/// The state the reconciler commits on one update, given the current state
/// and the most recent desired state.
pub open spec fn spec_next(current: Windmill, desired: Windmill) -> Windmill {
    match (current, desired) {
        (Windmill::Cooldown(cycles), _) => if cycles > 0 {
            Windmill::Cooldown((cycles - 1) as u8)
        } else {
            Windmill::Off
        },
        (_, Windmill::Cooldown(_)) => Windmill::Off,
        (Windmill::Off, Windmill::Off) => Windmill::Off,
        (Windmill::Off, Windmill::Forward(_)) => Windmill::Forward(0),
        (Windmill::Off, Windmill::Reverse(_)) => Windmill::Reverse(0),
        (Windmill::Forward(current_speed), Windmill::Forward(desired_speed)) =>
            Windmill::Forward(approach(current_speed, desired_speed)),
        (Windmill::Reverse(current_speed), Windmill::Reverse(desired_speed)) =>
            Windmill::Reverse(approach(current_speed, desired_speed)),
        (Windmill::Forward(_), Windmill::Off) => Windmill::Cooldown(COOLDOWN_CYCLES),
        (Windmill::Reverse(_), Windmill::Off) => Windmill::Cooldown(COOLDOWN_CYCLES),
        (Windmill::Forward(_), Windmill::Reverse(_)) => Windmill::Cooldown(COOLDOWN_CYCLES),
        (Windmill::Reverse(_), Windmill::Forward(_)) => Windmill::Cooldown(COOLDOWN_CYCLES),
    }
}

/// Reconcile the current state with the desired state: the next state the
/// fixture commits on this update.
pub fn state_change_evaluator(current_state: Windmill, desired_state: Windmill) -> (new_state: Windmill)
    ensures
        new_state == spec_next(current_state, desired_state),
{
    match (current_state, desired_state) {
        // Already resting, keep resting.
        (Windmill::Off, Windmill::Off) => Windmill::Off,

        // Cool-down is inviolable: it drains one cycle per update whatever
        // the console asks for.
        (Windmill::Cooldown(cycles), _) if cycles > 0 => Windmill::Cooldown(cycles - 1),

        // A drained cool-down parks at `Off`; the next update re-evaluates.
        (Windmill::Cooldown(_), _) => Windmill::Off,

        // A desired `Cooldown` is illegal input; park at `Off` defensively.
        (_, Windmill::Cooldown(_)) => Windmill::Off,

        // Leaving rest: the direction wiring and brake release are emitted by
        // the caller before committing; speed rises on subsequent updates.
        (Windmill::Off, Windmill::Forward(_)) => Windmill::Forward(0),
        (Windmill::Off, Windmill::Reverse(_)) => Windmill::Reverse(0),

        // Ease the speed toward the target, clamped so a larger step size
        // cannot oscillate around a non-congruent target.
        (Windmill::Forward(current), Windmill::Forward(desired)) if current == desired =>
            Windmill::Forward(current),
        (Windmill::Reverse(current), Windmill::Reverse(desired)) if current == desired =>
            Windmill::Reverse(current),
        (Windmill::Forward(current), Windmill::Forward(desired)) if current > desired =>
            Windmill::Forward(if current - MAX_SPEED_CHANGE_PER_CYCLE >= desired {
                current - MAX_SPEED_CHANGE_PER_CYCLE
            } else {
                desired
            }),
        (Windmill::Reverse(current), Windmill::Reverse(desired)) if current > desired =>
            Windmill::Reverse(if current - MAX_SPEED_CHANGE_PER_CYCLE >= desired {
                current - MAX_SPEED_CHANGE_PER_CYCLE
            } else {
                desired
            }),
        (Windmill::Forward(current), Windmill::Forward(desired)) =>
            Windmill::Forward(if current + MAX_SPEED_CHANGE_PER_CYCLE <= desired {
                current + MAX_SPEED_CHANGE_PER_CYCLE
            } else {
                desired
            }),
        (Windmill::Reverse(current), Windmill::Reverse(desired)) =>
            Windmill::Reverse(if current + MAX_SPEED_CHANGE_PER_CYCLE <= desired {
                current + MAX_SPEED_CHANGE_PER_CYCLE
            } else {
                desired
            }),

        // Braking to rest dwells in cool-down first.
        (_, Windmill::Off) => Windmill::Cooldown(COOLDOWN_CYCLES),

        // A hard reversal brakes first; the cool-down later drains to `Off`
        // and the following update starts the other direction from speed 0.
        (Windmill::Forward(_), Windmill::Reverse(_)) => Windmill::Cooldown(COOLDOWN_CYCLES),
        (Windmill::Reverse(_), Windmill::Forward(_)) => Windmill::Cooldown(COOLDOWN_CYCLES),
    }
}

/// A current state is well formed when a cool-down never dwells longer than
/// the mandated number of cycles.
pub open spec fn state_wf(state: Windmill) -> bool {
    match state {
        Windmill::Cooldown(cycles) => cycles <= COOLDOWN_CYCLES,
        _ => true,
    }
}

/// A desired state is legal when it is not `Cooldown`, which only the
/// reconciler itself may enter.
pub open spec fn desired_legal(desired: Windmill) -> bool {
    !(desired is Cooldown)
}

/// The relay writes a transition emits before its new state is committed.
#[derive(Copy, Clone, Debug, PartialEq, Eq, Structural)]
pub enum SideEffect {
    /// Leave the direction and brake relays as they are.
    Keep,
    /// Assert forward direction wiring and release the brake.
    StartForward,
    /// Assert reverse direction wiring and release the brake.
    StartReverse,
    /// Engage the brake.
    Brake,
}

/// The relay writes that accompany `spec_next(current, desired)`.
pub open spec fn spec_side_effect(current: Windmill, desired: Windmill) -> SideEffect {
    match (current, desired) {
        (Windmill::Cooldown(_), _) => SideEffect::Keep,
        (_, Windmill::Cooldown(_)) => SideEffect::Keep,
        (Windmill::Off, Windmill::Forward(_)) => SideEffect::StartForward,
        (Windmill::Off, Windmill::Reverse(_)) => SideEffect::StartReverse,
        (Windmill::Forward(_), Windmill::Off) => SideEffect::Brake,
        (Windmill::Reverse(_), Windmill::Off) => SideEffect::Brake,
        (Windmill::Forward(_), Windmill::Reverse(_)) => SideEffect::Brake,
        (Windmill::Reverse(_), Windmill::Forward(_)) => SideEffect::Brake,
        _ => SideEffect::Keep,
    }
}

/// The relay writes the reconciler must issue for this update, before it
/// commits the new state and before any duty-cycle write.
pub fn transition_side_effect(current_state: Windmill, desired_state: Windmill) -> (effect:
    SideEffect)
    ensures
        effect == spec_side_effect(current_state, desired_state),
{
    match (current_state, desired_state) {
        (Windmill::Cooldown(_), _) => SideEffect::Keep,
        (_, Windmill::Cooldown(_)) => SideEffect::Keep,
        (Windmill::Off, Windmill::Forward(_)) => SideEffect::StartForward,
        (Windmill::Off, Windmill::Reverse(_)) => SideEffect::StartReverse,
        (Windmill::Forward(_), Windmill::Off) => SideEffect::Brake,
        (Windmill::Reverse(_), Windmill::Off) => SideEffect::Brake,
        (Windmill::Forward(_), Windmill::Reverse(_)) => SideEffect::Brake,
        (Windmill::Reverse(_), Windmill::Forward(_)) => SideEffect::Brake,
        _ => SideEffect::Keep,
    }
}

/// Linear scaling of a speed byte to a duty-cycle percentage, truncated.
pub open spec fn spec_duty(speed: u8) -> u8 {
    ((speed * DUTY_MAX) / SPEED_MAX as int) as u8
}

/// The duty cycle a committed state asks of the PWM sink.
pub open spec fn spec_duty_of_state(state: Windmill) -> u8 {
    match state {
        Windmill::Off => 0,
        Windmill::Cooldown(_) => 0,
        Windmill::Forward(speed) => spec_duty(speed),
        Windmill::Reverse(speed) => spec_duty(speed),
    }
}

/// Scale a speed byte in [0, 255] to a duty-cycle percentage in [0, 100].
pub fn duty_of_speed(speed: u8) -> (duty: u8)
    ensures
        duty == spec_duty(speed),
        duty <= DUTY_MAX,
{
    proof {
        lemma_div_is_ordered(speed * DUTY_MAX, 255 * DUTY_MAX, SPEED_MAX as int);
    }
    ((speed as u32 * DUTY_MAX as u32) / SPEED_MAX as u32) as u8
}

/// The duty cycle to emit for a committed state: 0 whenever the motor is
/// de-energized, the scaled speed otherwise.
pub fn duty_cycle_of_state(state: Windmill) -> (duty: u8)
    ensures
        duty == spec_duty_of_state(state),
        duty <= DUTY_MAX,
{
    match state {
        Windmill::Off => 0,
        Windmill::Cooldown(_) => 0,
        Windmill::Forward(speed) => duty_of_speed(speed),
        Windmill::Reverse(speed) => duty_of_speed(speed),
    }
}

/// Advance the tick counter one 10 ms tick; the second component says
/// whether this tick performs an update.
pub fn advance_tick(tick: u8) -> (r: (u8, bool))
    requires
        tick < UPDATE_TICKS,
    ensures
        r.0 == (tick + 1) % (UPDATE_TICKS as int),
        r.0 < UPDATE_TICKS,
        r.1 == (r.0 == 0),
{
    let next_tick = (tick + 1) % UPDATE_TICKS;
    (next_tick, next_tick == 0)
}

/// Everything one update decides: the state to commit, the relay writes to
/// issue first, and the duty-cycle write to emit (only when the state
/// changes).
#[derive(Copy, Clone, Debug)]
pub struct UpdateOutcome {
    /// The state the reconciler commits after this update.
    pub new_state: Windmill,
    /// The relay writes to issue before committing `new_state`.
    pub side_effect: SideEffect,
    /// The duty-cycle percentage to write, or `None` if the state is
    /// unchanged and no write is emitted.
    pub duty_cycle: Option<u8>,
}

/// Compute one reconciler update from the current and the latest desired
/// state. The caller issues the side effect, then the duty-cycle write if one
/// is asked for, then commits the new state.
pub fn evaluate_update(current_state: Windmill, desired_state: Windmill) -> (outcome:
    UpdateOutcome)
    ensures
        outcome.new_state == spec_next(current_state, desired_state),
        outcome.side_effect == spec_side_effect(current_state, desired_state),
        outcome.new_state != current_state ==> outcome.duty_cycle == Some(
            spec_duty_of_state(outcome.new_state),
        ),
        outcome.new_state == current_state ==> outcome.duty_cycle is None,
{
    let side_effect = transition_side_effect(current_state, desired_state);
    let new_state = state_change_evaluator(current_state, desired_state);
    let duty_cycle = if new_state != current_state {
        Some(duty_cycle_of_state(new_state))
    } else {
        None
    };
    UpdateOutcome { new_state, side_effect, duty_cycle }
}

/// The state after `updates` reconciler updates, starting from `state`, with
/// the desired state held constant.
pub open spec fn spec_next_iter(state: Windmill, desired: Windmill, updates: nat) -> Windmill
    decreases updates,
{
    if updates == 0 {
        state
    } else {
        spec_next(spec_next_iter(state, desired, (updates - 1) as nat), desired)
    }
}

/// Iterating is the same whether the first transition is peeled off at the
/// front or the last at the back.
pub proof fn lemma_iter_unfold_front(state: Windmill, desired: Windmill, updates: nat)
    requires
        updates >= 1,
    ensures
        spec_next_iter(state, desired, updates) == spec_next_iter(
            spec_next(state, desired),
            desired,
            (updates - 1) as nat,
        ),
    decreases updates,
{
    if updates == 1 {
        assert(spec_next_iter(state, desired, 0) == state);
        assert(spec_next_iter(spec_next(state, desired), desired, 0) == spec_next(state, desired));
    } else {
        lemma_iter_unfold_front(state, desired, (updates - 1) as nat);
        assert(spec_next_iter(state, desired, updates) == spec_next(
            spec_next_iter(state, desired, (updates - 1) as nat),
            desired,
        ));
        assert(spec_next_iter(spec_next(state, desired), desired, (updates - 1) as nat)
            == spec_next(
            spec_next_iter(spec_next(state, desired), desired, (updates - 2) as nat),
            desired,
        ));
    }
}

/// Resting is idempotent: a fixture at rest asked to rest stays at rest.
pub proof fn lemma_rest_idempotent()
    ensures
        spec_next(Windmill::Off, Windmill::Off) == Windmill::Off,
{
}

/// Cool-down is preemptive: while cycles remain it drains by one per update,
/// whatever the console desires.
pub proof fn lemma_cooldown_preemptive(cycles: u8, desired: Windmill)
    requires
        cycles >= 1,
    ensures
        spec_next(Windmill::Cooldown(cycles), desired) == Windmill::Cooldown((cycles - 1) as u8),
{
}

/// A drained cool-down parks at `Off`, whatever the console desires.
pub proof fn lemma_cooldown_drains(desired: Windmill)
    ensures
        spec_next(Windmill::Cooldown(0), desired) == Windmill::Off,
{
}

/// Leaving rest starts at speed 0 in the desired direction.
pub proof fn lemma_start_from_rest(speed: u8)
    requires
        speed >= 1,
    ensures
        spec_next(Windmill::Off, Windmill::Forward(speed)) == Windmill::Forward(0),
        spec_next(Windmill::Off, Windmill::Reverse(speed)) == Windmill::Reverse(0),
{
}

/// Easing in one direction changes the speed by at most
/// `MAX_SPEED_CHANGE_PER_CYCLE` per update and moves it monotonically toward
/// the desired speed, never overshooting it.
pub proof fn lemma_speed_slew(current: u8, desired: u8)
    ensures
        spec_next(Windmill::Forward(current), Windmill::Forward(desired)) == Windmill::Forward(
            approach(current, desired),
        ),
        spec_next(Windmill::Reverse(current), Windmill::Reverse(desired)) == Windmill::Reverse(
            approach(current, desired),
        ),
        approach(current, desired) <= current + MAX_SPEED_CHANGE_PER_CYCLE,
        current <= approach(current, desired) + MAX_SPEED_CHANGE_PER_CYCLE,
        current <= desired ==> current <= approach(current, desired) <= desired,
        desired <= current ==> desired <= approach(current, desired) <= current,
        current != desired ==> approach(current, desired) != current,
{
}

/// A hard reversal of direction always brakes into a full cool-down.
pub proof fn lemma_reversal_cools_down(current_speed: u8, desired_speed: u8)
    ensures
        spec_next(Windmill::Forward(current_speed), Windmill::Reverse(desired_speed))
            == Windmill::Cooldown(COOLDOWN_CYCLES),
        spec_next(Windmill::Reverse(current_speed), Windmill::Forward(desired_speed))
            == Windmill::Cooldown(COOLDOWN_CYCLES),
{
}

/// Braking from motion always passes through a full cool-down.
pub proof fn lemma_braking_cools_down(current_speed: u8)
    ensures
        spec_next(Windmill::Forward(current_speed), Windmill::Off) == Windmill::Cooldown(
            COOLDOWN_CYCLES,
        ),
        spec_next(Windmill::Reverse(current_speed), Windmill::Off) == Windmill::Cooldown(
            COOLDOWN_CYCLES,
        ),
{
}

/// How many updates a state needs, with `Off` desired, until it rests.
pub open spec fn spec_updates_to_off(state: Windmill) -> nat {
    match state {
        Windmill::Off => 0,
        Windmill::Cooldown(cycles) => cycles as nat + 1,
        Windmill::Forward(_) => COOLDOWN_CYCLES as nat + 2,
        Windmill::Reverse(_) => COOLDOWN_CYCLES as nat + 2,
    }
}

/// Desiring `Off` reaches `Off` in `spec_updates_to_off(state)` updates and
/// stays there; a resting or cooling fixture needs at most 101 updates, and
/// every well-formed state, a moving one included, needs at most 102.
pub proof fn lemma_desiring_off_converges(state: Windmill, updates: nat)
    requires
        state_wf(state),
        updates >= spec_updates_to_off(state),
    ensures
        spec_next_iter(state, Windmill::Off, updates) == Windmill::Off,
        spec_updates_to_off(state) <= COOLDOWN_CYCLES + 2,
        !(state is Forward) && !(state is Reverse) ==> spec_updates_to_off(state)
            <= COOLDOWN_CYCLES + 1,
    decreases updates,
{
    if updates > 0 {
        lemma_iter_unfold_front(state, Windmill::Off, updates);
        let next = spec_next(state, Windmill::Off);
        assert(state_wf(next));
        assert(spec_updates_to_off(next) <= updates - 1);
        lemma_desiring_off_converges(next, (updates - 1) as nat);
    }
}

/// Starting at rest in a direction with a constant desired speed, the fixture
/// reaches the desired speed in exactly that many updates (one speed step per
/// update) and holds it afterwards.
pub proof fn lemma_ramp_to_speed(desired_speed: u8, updates: nat)
    ensures
        spec_next_iter(Windmill::Forward(0), Windmill::Forward(desired_speed), updates)
            == Windmill::Forward(
            if updates >= desired_speed {
                desired_speed
            } else {
                updates as u8
            },
        ),
    decreases updates,
{
    if updates > 0 {
        lemma_ramp_to_speed(desired_speed, (updates - 1) as nat);
    }
}

/// The duty-cycle mapping pins its endpoints and never decreases in speed.
pub proof fn lemma_duty_monotone(lower_speed: u8, higher_speed: u8)
    requires
        lower_speed <= higher_speed,
    ensures
        spec_duty(0) == 0,
        spec_duty(255) == 100,
        spec_duty(lower_speed) <= spec_duty(higher_speed),
{
    lemma_div_is_ordered(
        lower_speed * DUTY_MAX,
        higher_speed * DUTY_MAX,
        SPEED_MAX as int,
    );
}

/// A transition is well formed: from a well-formed current state, the
/// committed state is well formed again, and the brake side effect is issued
/// exactly when the transition enters a fresh full cool-down.
pub proof fn lemma_transition_sound(current: Windmill, desired: Windmill)
    requires
        state_wf(current),
    ensures
        state_wf(spec_next(current, desired)),
        (spec_side_effect(current, desired) == SideEffect::Brake) == (spec_next(current, desired)
            == Windmill::Cooldown(COOLDOWN_CYCLES)),
        (spec_side_effect(current, desired) == SideEffect::StartForward) == (current is Off
            && desired is Forward),
        (spec_side_effect(current, desired) == SideEffect::StartReverse) == (current is Off
            && desired is Reverse),
{
}

} // verus!
