//! DMX frame interpretation: from channel bytes to a desired fixture state.
//!
//! The lighting-protocol listener hands the reconciler two bytes of the
//! configured universe: a speed byte and a direction byte. This module owns
//! the mapping from those bytes to a desired `Windmill` state, and the
//! per-universe filter the receive bridge applies before forwarding a frame.

use crate::fixture::{desired_legal, Windmill};
use vstd::prelude::*;

verus! {

/// Information that accompanies one received DMX buffer.
#[derive(Copy, Clone, Debug, PartialEq, Eq, Structural)]
pub struct Metadata {
    /// The universe the data buffer belongs to.
    pub universe: u32,
    /// The priority the buffer was sent with.
    pub priority: u8,
}

/// The desired state encoded by a speed byte and a direction byte: speed 0
/// rests the fixture; otherwise the direction byte's high bit picks the
/// travel direction.
pub open spec fn spec_desired_state(speed: u8, direction: u8) -> Windmill {
    if speed == 0 {
        Windmill::Off
    } else if direction <= 127 {
        Windmill::Forward(speed)
    } else {
        Windmill::Reverse(speed)
    }
}

/// Map the received speed and direction bytes to the desired state the
/// listener pushes into the reconciler's inbox. The result is always a legal
/// desired state: never `Cooldown`.
pub fn desired_state(speed: u8, direction: u8) -> (desired: Windmill)
    ensures
        desired == spec_desired_state(speed, direction),
        desired_legal(desired),
{
    if speed == 0 {
        Windmill::Off
    } else if direction <= 127 {
        Windmill::Forward(speed)
    } else {
        Windmill::Reverse(speed)
    }
}

/// The receive-side filter: it accepts frames for one configured universe and
/// rejects every other, so that a stray patch cannot drive the motor.
pub struct Bridge {
    universe: u32,
}

impl Bridge {
    /// The universe this bridge is bound to.
    pub closed spec fn spec_universe(&self) -> u32 {
        self.universe
    }

    /// A bridge that listens for frames of the given universe.
    pub fn new(universe: u32) -> (bridge: Bridge)
        ensures
            bridge.spec_universe() == universe,
    {
        Bridge { universe }
    }

    /// The universe the bridge listens to.
    pub fn get_universe(&self) -> (universe: u32)
        ensures
            universe == self.spec_universe(),
    {
        self.universe
    }

    /// Whether a received frame belongs to the configured universe and may be
    /// forwarded; frames for any other universe must be dropped.
    pub fn accepts(&self, metadata: &Metadata) -> (accepted: bool)
        ensures
            accepted == (metadata.universe == self.spec_universe()),
    {
        self.universe == metadata.universe
    }
}

} // verus!
