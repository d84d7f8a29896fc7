use rayquabot::dates::{
    day_is_shown, day_label, get_timestamp_from_date, parse_one_date, parse_two_dates, ping_delay_ms,
    ping_description, snowflake_timestamp, timestamp_from_date, two_dates_are_readable, typed_date_timestamp, Date,
    MALFORMED_DATE_MESSAGE,
};
use rayquabot::text::{lex_lt, parse_i32, parse_unsigned, split_on, u64_to_decimal, zero_padded};

#[test]
fn parse_one_date_reads_day_month_year() {
    let d = parse_one_date("15/03/2024").unwrap();
    assert_eq!(d, Date { jour: 15, mois: 3, annee: 2024 });
}

#[test]
fn parse_one_date_refuses_two_parts() {
    let e = parse_one_date("15/03").unwrap_err();
    assert_eq!(e, MALFORMED_DATE_MESSAGE);
}

#[test]
fn parse_two_dates_reads_both() {
    let (a, b) = parse_two_dates("01/02/2030-28/02/2030").unwrap();
    assert_eq!(a, Date { jour: 1, mois: 2, annee: 2030 });
    assert_eq!(b, Date { jour: 28, mois: 2, annee: 2030 });
}

#[test]
fn parse_two_dates_quotes_malformed_text() {
    let e = parse_two_dates("01/02/2030").unwrap_err();
    assert_eq!(
        e,
        "les dates 01/02/2030 sont mal écrites. Respecte bien le format JJ/MM/AAAA-JJ/MM/AAAA"
    );
}

#[test]
fn readability_of_pairs() {
    assert!(two_dates_are_readable("01/02/2030-28/02/2030"));
    assert!(two_dates_are_readable("nothing"));
    assert!(!two_dates_are_readable("aa/02/2030-28/02/2030"));
    assert!(!two_dates_are_readable("01/02-28/02/2030"));
}

#[test]
fn midnight_timestamps() {
    assert_eq!(timestamp_from_date(&Date { jour: 15, mois: 3, annee: 2024 }), Some(1710460800));
    assert_eq!(timestamp_from_date(&Date { jour: 1, mois: 1, annee: 1970 }), Some(0));
    assert_eq!(timestamp_from_date(&Date { jour: 29, mois: 2, annee: 2024 }), Some(1709164800));
    assert_eq!(timestamp_from_date(&Date { jour: 29, mois: 2, annee: 2023 }), None);
    assert_eq!(timestamp_from_date(&Date { jour: 0, mois: 1, annee: 2023 }), None);
}

#[test]
fn invalid_date_gets_zero_and_message() {
    let (ts, msg) = get_timestamp_from_date(&Date { jour: 31, mois: 4, annee: 2025 });
    assert_eq!(ts, 0);
    assert_eq!(msg.unwrap(), "La date \"31-04-2025\" entrée est invalide");
    let (ts, msg) = get_timestamp_from_date(&Date { jour: 1, mois: 1, annee: 2000 });
    assert_eq!(ts, 946684800);
    assert!(msg.is_none());
}

#[test]
fn date_to_string_pads() {
    assert_eq!(Date { jour: 5, mois: 3, annee: 24 }.to_string(), "05-03-0024");
}

#[test]
fn day_labels() {
    assert_eq!(day_label(1710460800), "15/03/2024");
    assert_eq!(day_label(1710460800 + 86399), "15/03/2024");
    assert_eq!(day_label(0), "01/01/1970");
    assert_eq!(day_label(-1), "31/12/1969");
}

#[test]
fn typed_dates() {
    assert_eq!(typed_date_timestamp("15/03/2024"), Some(1710460800));
    assert_eq!(typed_date_timestamp("31/02/2024"), None);
    assert_eq!(typed_date_timestamp("hello"), None);
}

#[test]
fn snowflakes() {
    assert_eq!(snowflake_timestamp(0), 1420070400);
    // 1000 ms after Discord's epoch.
    assert_eq!(snowflake_timestamp(1000u64 << 22), 1420070401);
    assert_eq!(ping_delay_ms(1420070400500, 0), 500);
    assert_eq!(ping_description(500), "500 ms");
    assert_eq!(ping_description(-3), "-3 ms");
}

#[test]
fn text_helpers() {
    assert_eq!(u64_to_decimal(0), "0");
    assert_eq!(u64_to_decimal(18446744073709551615), "18446744073709551615");
    assert_eq!(zero_padded(7, 3), "007");
    assert_eq!(zero_padded(12345, 3), "12345");
    assert_eq!(parse_unsigned("+42", 255), Some(42));
    assert_eq!(parse_unsigned("256", 255), None);
    assert_eq!(parse_unsigned("18446744073709551615", u64::MAX), Some(u64::MAX));
    assert_eq!(parse_unsigned("18446744073709551616", u64::MAX), None);
    assert_eq!(parse_i32("-2147483648"), Some(i32::MIN));
    assert_eq!(parse_i32("2147483648"), None);
    assert_eq!(split_on("a*b**c", '*'), vec!["a", "b", "", "c"]);
    assert!(lex_lt("15/03/2024", "1710460800"));
    assert!(!lex_lt("1710460800", "15/03/2024"));
    assert!(lex_lt("abc", "abcd"));
}

#[test]
fn shown_days() {
    assert!(day_is_shown(0));
    assert!(day_is_shown(-8334601228800));
    assert!(!day_is_shown(-8334601228801));
    assert!(day_is_shown(8210266876799));
    assert!(!day_is_shown(8210266876800));
    assert!(!day_is_shown(i64::MAX));
}
