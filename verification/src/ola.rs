//! Patch discovery for the lighting daemon.
//!
//! Before the listener connects, the daemon's device listing must show the
//! configured universe patched on both transports. The process obtains the
//! listing from the operator tool; this module decides, from that text alone,
//! whether the required patches are present, and carries the retry tuning the
//! process uses while they are not.

use crate::text::{contains_seq, push_decimal, spec_decimal, str_contains};
use vstd::prelude::*;

verus! {

/// First delay, in milliseconds, of the exponential back-off between patch
/// discovery attempts.
pub const PATCH_RETRY_BASE_MS: u64 = 5000;

/// Largest number of patch discovery attempts before startup fails.
pub const PATCH_RETRY_ATTEMPTS: usize = 5;

/// The line fragment the device listing shows for the universe patched on
/// the ArtNet transport.
pub open spec fn spec_artnet_pattern(universe: u32) -> Seq<char> {
    "ArtNet Universe 0:0:"@ + spec_decimal(universe as nat)
}

/// The line fragment the device listing shows for the universe patched on
/// the OSC transport.
pub open spec fn spec_osc_pattern(universe: u32) -> Seq<char> {
    "/dmx/universe/"@ + spec_decimal(universe as nat)
}

/// The ArtNet patch fragment to search the device listing for.
pub fn artnet_pattern(universe: u32) -> (pattern: String)
    ensures
        pattern@ == spec_artnet_pattern(universe),
{
    let mut pattern = String::from_str("ArtNet Universe 0:0:");
    push_decimal(universe as u64, &mut pattern);
    pattern
}

/// The OSC patch fragment to search the device listing for.
pub fn osc_pattern(universe: u32) -> (pattern: String)
    ensures
        pattern@ == spec_osc_pattern(universe),
{
    let mut pattern = String::from_str("/dmx/universe/");
    push_decimal(universe as u64, &mut pattern);
    pattern
}

/// Whether the device listing shows the universe patched on both the ArtNet
/// and the OSC transport.
pub fn patches_currently_exist(interfaces: &str, universe: u32) -> (patched: bool)
    ensures
        patched == (contains_seq(interfaces@, spec_artnet_pattern(universe)) && contains_seq(
            interfaces@,
            spec_osc_pattern(universe),
        )),
{
    let artnet = artnet_pattern(universe);
    let osc = osc_pattern(universe);
    let artnet_found = str_contains(interfaces, artnet.as_str());
    let osc_found = str_contains(interfaces, osc.as_str());
    artnet_found && osc_found
}

} // verus!
