use media_pipeline::decimal::{format_i64, parse_i64};
use media_pipeline::hex::hex_encode;
use media_pipeline::ids::uuid_to_text;
use media_pipeline::text::{ascii_case_equals, chars_of, text_equals};

#[test]
fn parse_accepts_what_std_accepts() {
    let cases = [
        "900", "1209600", "-5", "+7", "0", "-0", "007", "9223372036854775807",
        "-9223372036854775808", "9223372036854775808", "-9223372036854775809", "", "+", "-",
        "12a", " 1", "1 ", "--1", "+-1", "99999999999999999999999", "0000000000000000000000012",
        "١٢", "-00",
    ];
    for c in cases.iter() {
        assert_eq!(parse_i64(c), c.parse::<i64>().ok(), "case {:?}", c);
    }
}

#[test]
fn parse_exact_values() {
    assert_eq!(parse_i64("900"), Some(900));
    assert_eq!(parse_i64("+42"), Some(42));
    assert_eq!(parse_i64("-9223372036854775808"), Some(i64::MIN));
    assert_eq!(parse_i64("9223372036854775808"), None);
    assert_eq!(parse_i64(""), None);
    assert_eq!(parse_i64("-"), None);
    assert_eq!(parse_i64("15 minutes"), None);
}

#[test]
fn format_matches_std() {
    let values = [0i64, 1, -1, 9, 10, 99, 100, 1700000000, -1700000000, i64::MAX, i64::MIN, 12345678901234];
    for v in values.iter() {
        assert_eq!(format_i64(*v), v.to_string());
    }
    assert_eq!(format_i64(-905), "-905");
}

#[test]
fn format_then_parse_round_trips() {
    let mut x: i64 = 1;
    for _ in 0..200 {
        assert_eq!(parse_i64(&format_i64(x)), Some(x));
        assert_eq!(parse_i64(&format_i64(-x)), Some(-x));
        x = x.wrapping_mul(3).wrapping_add(7);
    }
    assert_eq!(parse_i64(&format_i64(i64::MIN)), Some(i64::MIN));
}

#[test]
fn hex_matches_hex_crate() {
    let data: Vec<u8> = (0u8..=255).collect();
    assert_eq!(hex_encode(&data), hex::encode(&data));
    assert_eq!(hex_encode(&[0xbe, 0xef, 0x01]), "beef01");
    assert_eq!(hex_encode(&[]), "");
}

#[test]
fn uuid_text_matches_uuid_crate() {
    let ids: [u128; 4] = [
        0,
        u128::MAX,
        0x550e8400e29b41d4a716446655440000,
        0x0123456789abcdef0fedcba987654321,
    ];
    for id in ids.iter() {
        assert_eq!(uuid_to_text(*id), uuid::Uuid::from_u128(*id).to_string());
    }
    assert_eq!(uuid_to_text(0x550e8400e29b41d4a716446655440000), "550e8400-e29b-41d4-a716-446655440000");
}

#[test]
fn case_insensitive_comparison() {
    assert!(ascii_case_equals("PrOdUcTiOn", "production"));
    assert!(!ascii_case_equals("productio", "production"));
    assert!(!ascii_case_equals("production ", "production"));
    assert!(text_equals("abc", "abc"));
    assert!(!text_equals("abc", "abd"));
    assert_eq!(chars_of("héllo"), vec!['h', 'é', 'l', 'l', 'o']);
}

