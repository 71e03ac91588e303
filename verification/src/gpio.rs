//! GPIO pin assignments, line semantics, and the command sequences the
//! reconciler issues to the digital output sink.
//!
//! The library never touches hardware: each function here computes the exact,
//! ordered list of pin-mode and digital-write commands a posture change
//! requires, and the surrounding process plays them against the GPIO library.

use crate::fixture::SideEffect;
use vstd::prelude::*;

verus! {

/// Sink magic number that sets a pin to input (read) mode.
pub const PIN_MODE_INPUT: i32 = 0;

/// Sink magic number that sets a pin to output (write) mode.
pub const PIN_MODE_OUTPUT: i32 = 1;

/// A low digital level.
pub const DIGITAL_LOW: i32 = 0;

/// A high digital level.
pub const DIGITAL_HIGH: i32 = 1;

/// Relay line that engages (low) or releases (high) the brake.
pub const BRAKE_PIN: i32 = 3;

/// Relay line that selects the motor polarity.
pub const MOTOR_DIRECTION_PIN: i32 = 4;

/// Relay line that enables the forward driving circuit.
pub const FORWARD_DRIVING_PIN: i32 = 9;

/// Relay line that enables the reverse driving circuit.
pub const REVERSE_DRIVING_PIN: i32 = 10;

/// Hardware gate that must stay high for the PWM signal to reach the motor.
pub const SAFETY_PIN: i32 = 13;

/// Brake engaged: residual momentum dumps into the braking resistor.
pub const BRAKE_STOP: i32 = DIGITAL_LOW;

/// Brake released: the motor may run.
pub const BRAKE_RUN: i32 = DIGITAL_HIGH;

/// Motor polarity for forward travel.
pub const MOTOR_DIRECTION_FORWARD: i32 = DIGITAL_LOW;

/// Motor polarity for reverse travel.
pub const MOTOR_DIRECTION_REVERSE: i32 = DIGITAL_HIGH;

/// A driving circuit that is switched off.
pub const DRIVING_INACTIVE: i32 = DIGITAL_LOW;

/// A driving circuit that is switched on.
pub const DRIVING_ACTIVE: i32 = DIGITAL_HIGH;

/// Safety gate de-asserted: the PWM signal is blocked downstream.
pub const SAFETY_NO: i32 = DIGITAL_LOW;

/// Safety gate asserted: normal operation.
pub const SAFETY_GO: i32 = DIGITAL_HIGH;

/// One command for the GPIO sink, to be played in sequence order.
#[derive(Copy, Clone, Debug, PartialEq, Eq, Structural)]
pub enum PinCommand {
    /// Configure a pin as input or output.
    Mode { pin: i32, mode: i32 },
    /// Drive an output pin to a digital level.
    Write { pin: i32, value: i32 },
}

/// The writes that assert forward direction wiring: forward polarity, the
/// forward driver active, the reverse driver inactive.
pub open spec fn spec_direction_forward_commands() -> Seq<PinCommand> {
    seq![
        PinCommand::Write { pin: MOTOR_DIRECTION_PIN, value: MOTOR_DIRECTION_FORWARD },
        PinCommand::Write { pin: FORWARD_DRIVING_PIN, value: DRIVING_ACTIVE },
        PinCommand::Write { pin: REVERSE_DRIVING_PIN, value: DRIVING_INACTIVE },
    ]
}

/// The writes that assert reverse direction wiring: the mirror of forward.
pub open spec fn spec_direction_reverse_commands() -> Seq<PinCommand> {
    seq![
        PinCommand::Write { pin: MOTOR_DIRECTION_PIN, value: MOTOR_DIRECTION_REVERSE },
        PinCommand::Write { pin: FORWARD_DRIVING_PIN, value: DRIVING_INACTIVE },
        PinCommand::Write { pin: REVERSE_DRIVING_PIN, value: DRIVING_ACTIVE },
    ]
}

/// The writes a transition's side effect asks of the GPIO sink, in order.
pub open spec fn spec_effect_commands(effect: SideEffect) -> Seq<PinCommand> {
    match effect {
        SideEffect::Keep => seq![],
        SideEffect::StartForward => spec_direction_forward_commands() + seq![
            PinCommand::Write { pin: BRAKE_PIN, value: BRAKE_RUN },
        ],
        SideEffect::StartReverse => spec_direction_reverse_commands() + seq![
            PinCommand::Write { pin: BRAKE_PIN, value: BRAKE_RUN },
        ],
        SideEffect::Brake => seq![PinCommand::Write { pin: BRAKE_PIN, value: BRAKE_STOP }],
    }
}

/// The ordered GPIO commands that realize a transition's side effect:
/// starting a direction asserts its wiring and then releases the brake;
/// braking engages the brake.
pub fn effect_commands(effect: SideEffect) -> (commands: Vec<PinCommand>)
    ensures
        commands@ == spec_effect_commands(effect),
{
    let mut commands: Vec<PinCommand> = Vec::new();
    match effect {
        SideEffect::Keep => {},
        SideEffect::StartForward => {
            commands.push(PinCommand::Write { pin: MOTOR_DIRECTION_PIN, value: MOTOR_DIRECTION_FORWARD });
            commands.push(PinCommand::Write { pin: FORWARD_DRIVING_PIN, value: DRIVING_ACTIVE });
            commands.push(PinCommand::Write { pin: REVERSE_DRIVING_PIN, value: DRIVING_INACTIVE });
            commands.push(PinCommand::Write { pin: BRAKE_PIN, value: BRAKE_RUN });
        },
        SideEffect::StartReverse => {
            commands.push(PinCommand::Write { pin: MOTOR_DIRECTION_PIN, value: MOTOR_DIRECTION_REVERSE });
            commands.push(PinCommand::Write { pin: FORWARD_DRIVING_PIN, value: DRIVING_INACTIVE });
            commands.push(PinCommand::Write { pin: REVERSE_DRIVING_PIN, value: DRIVING_ACTIVE });
            commands.push(PinCommand::Write { pin: BRAKE_PIN, value: BRAKE_RUN });
        },
        SideEffect::Brake => {
            commands.push(PinCommand::Write { pin: BRAKE_PIN, value: BRAKE_STOP });
        },
    }
    proof {
        assert(commands@ =~= spec_effect_commands(effect));
    }
    commands
}

/// The known-safe startup posture: every line an output, forward wiring
/// asserted, the brake engaged, and the safety gate asserted last.
pub open spec fn spec_startup_commands() -> Seq<PinCommand> {
    seq![
        PinCommand::Mode { pin: BRAKE_PIN, mode: PIN_MODE_OUTPUT },
        PinCommand::Mode { pin: MOTOR_DIRECTION_PIN, mode: PIN_MODE_OUTPUT },
        PinCommand::Mode { pin: FORWARD_DRIVING_PIN, mode: PIN_MODE_OUTPUT },
        PinCommand::Mode { pin: REVERSE_DRIVING_PIN, mode: PIN_MODE_OUTPUT },
        PinCommand::Mode { pin: SAFETY_PIN, mode: PIN_MODE_OUTPUT },
    ] + spec_direction_forward_commands() + seq![
        PinCommand::Write { pin: BRAKE_PIN, value: BRAKE_STOP },
        PinCommand::Write { pin: SAFETY_PIN, value: SAFETY_GO },
    ]
}

/// The ordered GPIO commands that put the fixture in its startup posture
/// before the reconciler's first tick.
pub fn startup_commands() -> (commands: Vec<PinCommand>)
    ensures
        commands@ == spec_startup_commands(),
{
    let mut commands: Vec<PinCommand> = Vec::new();
    commands.push(PinCommand::Mode { pin: BRAKE_PIN, mode: PIN_MODE_OUTPUT });
    commands.push(PinCommand::Mode { pin: MOTOR_DIRECTION_PIN, mode: PIN_MODE_OUTPUT });
    commands.push(PinCommand::Mode { pin: FORWARD_DRIVING_PIN, mode: PIN_MODE_OUTPUT });
    commands.push(PinCommand::Mode { pin: REVERSE_DRIVING_PIN, mode: PIN_MODE_OUTPUT });
    commands.push(PinCommand::Mode { pin: SAFETY_PIN, mode: PIN_MODE_OUTPUT });
    commands.push(PinCommand::Write { pin: MOTOR_DIRECTION_PIN, value: MOTOR_DIRECTION_FORWARD });
    commands.push(PinCommand::Write { pin: FORWARD_DRIVING_PIN, value: DRIVING_ACTIVE });
    commands.push(PinCommand::Write { pin: REVERSE_DRIVING_PIN, value: DRIVING_INACTIVE });
    commands.push(PinCommand::Write { pin: BRAKE_PIN, value: BRAKE_STOP });
    commands.push(PinCommand::Write { pin: SAFETY_PIN, value: SAFETY_GO });
    proof {
        assert(commands@ =~= spec_startup_commands());
    }
    commands
}

/// The safe-shutdown writes, in mandatory order: engage the brake, then
/// de-assert the safety gate so the PWM signal is blocked downstream whatever
/// duty cycle is still pending.
pub open spec fn spec_shutdown_commands() -> Seq<PinCommand> {
    seq![
        PinCommand::Write { pin: BRAKE_PIN, value: BRAKE_STOP },
        PinCommand::Write { pin: SAFETY_PIN, value: SAFETY_NO },
    ]
}

/// The ordered GPIO commands of the safe-shutdown sequence, to run on every
/// signal-initiated exit path before the process terminates.
pub fn shutdown_commands() -> (commands: Vec<PinCommand>)
    ensures
        commands@ == spec_shutdown_commands(),
        commands@.len() == 2,
        commands@[0] == (PinCommand::Write { pin: BRAKE_PIN, value: BRAKE_STOP }),
        commands@[1] == (PinCommand::Write { pin: SAFETY_PIN, value: SAFETY_NO }),
{
    let mut commands: Vec<PinCommand> = Vec::new();
    commands.push(PinCommand::Write { pin: BRAKE_PIN, value: BRAKE_STOP });
    commands.push(PinCommand::Write { pin: SAFETY_PIN, value: SAFETY_NO });
    proof {
        assert(commands@ =~= spec_shutdown_commands());
    }
    commands
}

} // verus!
