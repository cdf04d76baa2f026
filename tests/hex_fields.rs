use indexer::clock::block_time;
use indexer::hex::{hex_quantity, hex_to_bool, hex_to_u64};

#[test]
fn decode_zero() {
    assert_eq!(hex_to_u64("0x0"), 0);
}

#[test]
fn decode_prefixed_values() {
    assert_eq!(hex_to_u64("0x1"), 1);
    assert_eq!(hex_to_u64("0x1a"), 26);
    assert_eq!(hex_to_u64("0xff"), 255);
    assert_eq!(hex_to_u64("0x60000000"), 1_610_612_736);
    assert_eq!(hex_to_u64("0x00ff"), 255);
}

#[test]
fn decode_upper_case_and_unprefixed() {
    assert_eq!(hex_to_u64("0xFF"), 255);
    assert_eq!(hex_to_u64("ff"), 255);
    assert_eq!(hex_to_u64("10"), 16);
}

#[test]
fn decode_fallback_is_zero() {
    assert_eq!(hex_to_u64(""), 0);
    assert_eq!(hex_to_u64("0x"), 0);
    assert_eq!(hex_to_u64("invalid"), 0);
    assert_eq!(hex_to_u64("0xzz"), 0);
    assert_eq!(hex_to_u64("0x1g"), 0);
    assert_eq!(hex_to_u64(" 0x1"), 0);
    assert_eq!(hex_to_u64("0x0x1"), 0);
    assert_eq!(hex_to_u64("-1"), 0);
    assert_eq!(hex_to_u64("0x+"), 0);
    assert_eq!(hex_to_u64("0xé"), 0);
}

#[test]
fn decode_sign_is_not_hex() {
    assert_eq!(hex_to_u64("0x+ff"), 0);
    assert_eq!(hex_to_u64("0x+1"), 0);
    assert_eq!(hex_to_u64("+10"), 0);
    assert!(!hex_to_bool("0x+1"));
}

#[test]
fn decode_largest_and_overflow() {
    assert_eq!(hex_to_u64("0xffffffffffffffff"), u64::MAX);
    assert_eq!(hex_to_u64("0x10000000000000000"), 0);
    assert_eq!(hex_to_u64("0x0000000000000000001"), 1);
}

#[test]
fn decode_flag_values() {
    assert!(hex_to_bool("0x1"));
    assert!(!hex_to_bool("0x0"));
    assert!(!hex_to_bool("0x2"));
    assert!(!hex_to_bool("invalid"));
    assert!(!hex_to_bool(""));
    assert!(hex_to_bool("0x01"));
}

#[test]
fn encode_quantities() {
    assert_eq!(hex_quantity(0), "0x0");
    assert_eq!(hex_quantity(1), "0x1");
    assert_eq!(hex_quantity(26), "0x1a");
    assert_eq!(hex_quantity(255), "0xff");
    assert_eq!(hex_quantity(4096), "0x1000");
    assert_eq!(hex_quantity(u64::MAX), "0xffffffffffffffff");
}

#[test]
fn encode_then_decode_round_trip() {
    for n in [0u64, 1, 15, 16, 255, 256, 1_610_612_736, 123_456_789_012, u64::MAX - 1, u64::MAX] {
        assert_eq!(hex_to_u64(&hex_quantity(n)), n);
    }
}

#[test]
fn reencode_loses_only_formatting() {
    assert_eq!(hex_quantity(hex_to_u64("0x00FF")), "0xff");
    assert_eq!(hex_to_u64(&hex_quantity(hex_to_u64("0x00FF"))), 255);
}

#[test]
fn block_time_in_range() {
    assert_eq!(block_time(0x60000000).secs, 1_610_612_736);
    assert_eq!(block_time(0).secs, 0);
}

#[test]
fn block_time_beyond_i64_is_epoch() {
    assert_eq!(block_time(u64::MAX).secs, 0);
    assert_eq!(block_time(0x8000_0000_0000_0001).secs, 0);
    assert_eq!(block_time(8_000_000_000_000).secs, 8_000_000_000_000);
}

#[test]
fn block_time_out_of_calendar_is_epoch() {
    assert_eq!(block_time(0x7fff_ffff_ffff_ffff).secs, 0);
    assert_eq!(block_time(0x8000_0000_0000_0000).secs, 0);
}
