use dexbot::auth::{canonical_query, generate_signature, signed_query};
use dexbot::decimal::{parse_fixed, pow10_u64, render_fixed};

#[test]
fn hmac_sha256_matches_the_published_test_vector() {
    // RFC 4231, test case 2: key "Jefe", data "what do ya want for nothing?"
    let sig = generate_signature(b"Jefe", b"what do ya want for nothing?");
    assert_eq!(sig, "5bdcc146bf60754e6a042426089575c75a003f089d2739839dec58b964ec3843");
    // RFC 4231, test case 1: a 20-byte key of 0x0b, data "Hi There"
    let key = [0x0bu8; 20];
    let sig1 = generate_signature(&key, b"Hi There");
    assert_eq!(sig1, "b0344c61d8db38535ca8afceaf0bf12b881dc200c9833da726e9376c2e32cff7");
}

#[test]
fn canonical_query_joins_pairs_in_order() {
    assert_eq!(canonical_query(&vec![]), "");
    let one = vec![("symbol".to_string(), "BTCUSDT".to_string())];
    assert_eq!(canonical_query(&one), "symbol=BTCUSDT");
    let many = vec![
        ("symbol".to_string(), "BTCUSDT".to_string()),
        ("side".to_string(), "BUY".to_string()),
        ("timestamp".to_string(), "1000".to_string()),
    ];
    assert_eq!(canonical_query(&many), "symbol=BTCUSDT&side=BUY&timestamp=1000");
}

#[test]
fn signed_query_appends_the_query_strings_own_tag() {
    let params = vec![("symbol".to_string(), "BTCUSDT".to_string())];
    let signed = signed_query(&params, b"Jefe");
    let expected_sig = generate_signature(b"Jefe", b"symbol=BTCUSDT");
    assert_eq!(signed, format!("symbol=BTCUSDT&signature={}", expected_sig));
    assert_ne!(expected_sig, "symbol=BTCUSDT");
}

#[test]
fn parse_fixed_scales_decimal_literals_exactly() {
    // two decimal places: 50010.25 -> 5001025
    assert_eq!(parse_fixed(b"50010.25", 2), Some(5_001_025));
    // missing fractional digits are zeros
    assert_eq!(parse_fixed(b"50010.2", 2), Some(5_001_020));
    assert_eq!(parse_fixed(b"123", 4), Some(1_230_000));
    assert_eq!(parse_fixed(b"0.01", 2), Some(1));
    assert_eq!(parse_fixed(b"0", 0), Some(0));
    assert_eq!(parse_fixed(b"18446744073709551615", 0), Some(u64::MAX));
}

#[test]
fn parse_fixed_rejects_malformed_literals() {
    assert_eq!(parse_fixed(b"", 2), None);
    assert_eq!(parse_fixed(b".", 2), None);
    assert_eq!(parse_fixed(b"1.", 2), None);
    assert_eq!(parse_fixed(b".5", 2), None);
    assert_eq!(parse_fixed(b"1.2.3", 2), None);
    assert_eq!(parse_fixed(b"12a4", 2), None);
    assert_eq!(parse_fixed(b"-5", 2), None);
    // more fractional digits than the fixed-point scale carries
    assert_eq!(parse_fixed(b"1.234", 2), None);
}

#[test]
fn parse_fixed_rejects_values_that_overflow() {
    assert_eq!(parse_fixed(b"18446744073709551616", 0), None);
    // fits as an integer but not once scaled by ten
    assert_eq!(parse_fixed(b"18446744073709551615", 1), None);
    assert_eq!(parse_fixed(b"1844674407370955161.5", 1), Some(u64::MAX));
    assert_eq!(parse_fixed(b"99999999999999999999999", 0), None);
}

#[test]
fn pow10_is_exact() {
    assert_eq!(pow10_u64(0), 1);
    assert_eq!(pow10_u64(1), 10);
    assert_eq!(pow10_u64(6), 1_000_000);
    assert_eq!(pow10_u64(19), 10_000_000_000_000_000_000);
}

#[test]
fn render_fixed_is_the_inverse_of_parse_fixed() {
    assert_eq!(render_fixed(5_001_025, 2), b"50010.25");
    assert_eq!(render_fixed(5_001_020, 2), b"50010.20");
    assert_eq!(render_fixed(1, 2), b"0.01");
    assert_eq!(render_fixed(0, 0), b"0");
    assert_eq!(render_fixed(123, 0), b"123");
    for v in [0u64, 1, 9, 10, 99, 100, 5_001_025, u64::MAX] {
        for f in [0u32, 1, 2, 8, 19] {
            let rendered = render_fixed(v, f);
            assert_eq!(parse_fixed(&rendered, f), Some(v));
        }
    }
}
