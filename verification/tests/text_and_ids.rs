use hub_bot::date::Date;
use hub_bot::ids::{id_text, parse_id};
use hub_bot::text::{
    blank, decimal_text, parse_bool, parse_i32, parse_u32, signed_decimal_text, split_text,
    zero_padded_text,
};

#[test]
fn split_keeps_empty_pieces() {
    assert_eq!(split_text("a:b::c", ':'), vec!["a", "b", "", "c"]);
    assert_eq!(split_text("", ':'), vec![""]);
    assert_eq!(split_text(":", ':'), vec!["", ""]);
    assert_eq!(split_text("seasons_prev", ':'), vec!["seasons_prev"]);
}

#[test]
fn decimal_rendering() {
    assert_eq!(decimal_text(0), "0");
    assert_eq!(decimal_text(42), "42");
    assert_eq!(decimal_text(18446744073709551615), "18446744073709551615");
    assert_eq!(signed_decimal_text(-7), "-7");
    assert_eq!(signed_decimal_text(i64::MIN), "-9223372036854775808");
    assert_eq!(zero_padded_text(7, 2), "07");
    assert_eq!(zero_padded_text(2024, 2), "2024");
}

#[test]
fn integer_parsing_follows_std() {
    for s in ["0", "+5", "-5", "2147483647", "-2147483648", "2147483648", "", "+", "-", " 1", "1a", "007", "99999999999"] {
        assert_eq!(parse_i32(s), s.parse::<i32>().ok(), "i32 {:?}", s);
        assert_eq!(parse_u32(s), s.parse::<u32>().ok(), "u32 {:?}", s);
    }
    assert_eq!(parse_u32("4294967295"), Some(4294967295));
    assert_eq!(parse_u32("4294967296"), None);
    assert_eq!(parse_u32("-0"), None);
}

#[test]
fn rendered_integers_read_back() {
    for n in [0i32, 1, -1, 12, -2147483648, 2147483647] {
        assert_eq!(parse_i32(&signed_decimal_text(n as i64)), Some(n));
    }
}

#[test]
fn bool_parsing_is_exact() {
    assert_eq!(parse_bool("true"), Some(true));
    assert_eq!(parse_bool("false"), Some(false));
    assert_eq!(parse_bool("True"), None);
    assert_eq!(parse_bool(" true"), None);
}

#[test]
fn blank_follows_trim() {
    for s in ["", "   ", "\t\n", "\u{3000}", " x ", "x", "\u{200B}"] {
        assert_eq!(blank(s), s.trim().is_empty(), "{:?}", s);
    }
}

#[test]
fn dates_parse_and_display_like_chrono() {
    let d = Date::parse("2024-01-15").unwrap();
    assert_eq!(d, Date { year: 2024, month: 1, day: 15 });
    assert_eq!(d.text(), "2024-01-15");
    assert_eq!(Date::parse("2024-13-01"), None);
    assert_eq!(Date::parse("2024-02-30"), None);
    assert_eq!(Date::parse("not a date"), None);
    assert_eq!(Date { year: 12345, month: 6, day: 7 }.text(), "+12345-06-07");
    assert_eq!(Date { year: -1, month: 12, day: 31 }.text(), "-0001-12-31");
    assert_eq!(Date { year: 33, month: 3, day: 4 }.text(), "0033-03-04");
    for (y, m, dd) in [(2024, 1, 15), (0, 1, 1), (9999, 12, 31), (-44, 3, 15), (10000, 1, 1)] {
        let date = chrono::NaiveDate::from_ymd_opt(y, m, dd).unwrap();
        assert_eq!(Date { year: y, month: m, day: dd }.text(), date.to_string());
    }
}

#[test]
fn date_order() {
    let a = Date { year: 2024, month: 5, day: 1 };
    let b = Date { year: 2024, month: 4, day: 30 };
    assert!(a.is_later_than(&b));
    assert!(!b.is_later_than(&a));
    assert!(!a.is_later_than(&a));
}

#[test]
fn id_text_is_hyphenated_lowercase_and_reads_back() {
    let u: u128 = 0x550e8400_e29b_41d4_a716_446655440000;
    assert_eq!(id_text(u), "550e8400-e29b-41d4-a716-446655440000");
    assert_eq!(id_text(u), uuid::Uuid::from_u128(u).to_string());
    assert_eq!(parse_id(&id_text(u)), Some(u));
    assert_eq!(parse_id("550E8400E29B41D4A716446655440000"), Some(u));
    assert_eq!(parse_id("not-a-uuid"), None);
    assert_eq!(id_text(0), "00000000-0000-0000-0000-000000000000");
}
