//! The fixture's configuration surface: which universe to listen on and
//! which channels carry the speed and direction bytes.

use vstd::prelude::*;

verus! {

/// Settings the operator may pass to the fixture. Channels are 1-indexed DMX
/// channel numbers, as a console displays them.
#[derive(Copy, Clone, Debug, PartialEq, Eq, Structural)]
pub struct Args {
    /// The universe to listen on.
    pub universe: u32,
    /// The channel to pick up speed signals from.
    pub speed_channel: u32,
    /// The channel to pick up direction signals from.
    pub direction_channel: u32,
}

impl Default for Args {
    /// The defaults the fixture ships with.
    fn default() -> (args: Args)
        ensures
            args.universe == 5,
            args.speed_channel == 10,
            args.direction_channel == 11,
    {
        Args { universe: 5, speed_channel: 10, direction_channel: 11 }
    }
}

} // verus!
