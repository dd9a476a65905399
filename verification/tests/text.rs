use bsk::text::{decimal, parse_u32, parse_u64, signed_decimal, trim_ws};

#[test]
fn decimal_round_trips_through_parse() {
    for n in [0u64, 7, 10, 99, 1_000_000, u64::MAX] {
        assert_eq!(decimal(n), n.to_string());
        assert_eq!(parse_u64(&decimal(n)), Some(n));
    }
    for n in [0i64, -1, 42, i64::MIN, i64::MAX] {
        assert_eq!(signed_decimal(n), n.to_string());
    }
}

#[test]
fn parsing_matches_std() {
    for text in ["", "+", "+5", "-5", "007", "18446744073709551615", "18446744073709551616", " 5", "5x", "4294967296"] {
        assert_eq!(parse_u64(text), text.parse::<u64>().ok(), "u64 {text:?}");
        assert_eq!(parse_u32(text), text.parse::<u32>().ok(), "u32 {text:?}");
    }
}

#[test]
fn trimming_matches_std() {
    for text in ["", "  ", " a b ", "\u{3000}x\u{85}", "\tx\n", "x"] {
        assert_eq!(trim_ws(text), text.trim(), "text {text:?}");
    }
}
