//! Tests of decimal rendering, substring search, number parsing, and the
//! patch-discovery decision.

use windmill::ola::{
    artnet_pattern, osc_pattern, patches_currently_exist, PATCH_RETRY_ATTEMPTS,
    PATCH_RETRY_BASE_MS,
};
use windmill::text::{decimal_string, parse_trimmed_u8, str_contains};

#[test]
fn decimal_rendering() {
    assert_eq!("0", decimal_string(0).as_str());
    assert_eq!("7", decimal_string(7).as_str());
    assert_eq!("10", decimal_string(10).as_str());
    assert_eq!("100", decimal_string(100).as_str());
    assert_eq!("50000", decimal_string(50000).as_str());
    assert_eq!("1000000000", decimal_string(1_000_000_000).as_str());
    assert_eq!("18446744073709551615", decimal_string(u64::MAX).as_str());
}

#[test]
fn substring_search() {
    assert!(str_contains("hello world", "world"));
    assert!(str_contains("hello world", ""));
    assert!(str_contains("hello world", "hello world"));
    assert!(str_contains("aaab", "aab"));
    assert!(!str_contains("hello world", "worlds"));
    assert!(!str_contains("ab", "abc"));
    assert!(!str_contains("", "a"));
}

#[test]
fn parse_accepts_padded_decimals() {
    assert_eq!(Some(8), parse_trimmed_u8(" 8\n"));
    assert_eq!(Some(255), parse_trimmed_u8("255"));
    assert_eq!(Some(0), parse_trimmed_u8("0"));
    assert_eq!(Some(7), parse_trimmed_u8("007"));
    assert_eq!(Some(42), parse_trimmed_u8("\t 42 \r\n"));
}

#[test]
fn parse_rejects_junk_and_overflow() {
    assert_eq!(None, parse_trimmed_u8(""));
    assert_eq!(None, parse_trimmed_u8("   \n"));
    assert_eq!(None, parse_trimmed_u8("256"));
    assert_eq!(None, parse_trimmed_u8("999999999999"));
    assert_eq!(None, parse_trimmed_u8("12a"));
    assert_eq!(None, parse_trimmed_u8("-1"));
    assert_eq!(None, parse_trimmed_u8("4 2"));
}

#[test]
fn universe_patterns() {
    assert_eq!("ArtNet Universe 0:0:5", artnet_pattern(5).as_str());
    assert_eq!("/dmx/universe/5", osc_pattern(5).as_str());
    assert_eq!("ArtNet Universe 0:0:4294967295", artnet_pattern(u32::MAX).as_str());
}

#[test]
fn patch_discovery_needs_both_transports() {
    let both = "Device 1: ArtNet [ArtNet Universe 0:0:5]\nDevice 2: OSC Device, port 0, patched to /dmx/universe/5\n";
    assert!(patches_currently_exist(both, 5));
    // The listing shows a different universe patched.
    assert!(!patches_currently_exist(both, 6));

    let artnet_only = "Device 1: ArtNet [ArtNet Universe 0:0:5]\n";
    assert!(!patches_currently_exist(artnet_only, 5));

    let osc_only = "Device 2: patched to /dmx/universe/5\n";
    assert!(!patches_currently_exist(osc_only, 5));

    assert!(!patches_currently_exist("", 5));
}

#[test]
fn retry_tuning() {
    assert_eq!(5000, PATCH_RETRY_BASE_MS);
    assert_eq!(5, PATCH_RETRY_ATTEMPTS);
}
