use player_count_bot::duration::parse_duration_ms;

#[test]
fn thirty_seconds() {
    assert_eq!(parse_duration_ms("30s"), Some(30_000));
}

#[test]
fn one_minute_thirty_seconds() {
    assert_eq!(parse_duration_ms("1m30s"), Some(90_000));
}

#[test]
fn spaced_items() {
    assert_eq!(parse_duration_ms("1m 30s"), Some(90_000));
    assert_eq!(parse_duration_ms("  2h  15min "), Some(2 * 3_600_000 + 15 * 60_000));
}

#[test]
fn long_unit_names() {
    assert_eq!(parse_duration_ms("2hours"), Some(7_200_000));
    assert_eq!(parse_duration_ms("1day"), Some(86_400_000));
    assert_eq!(parse_duration_ms("1w"), Some(604_800_000));
    assert_eq!(parse_duration_ms("250ms"), Some(250));
}

#[test]
fn zero_parses_to_zero() {
    assert_eq!(parse_duration_ms("0s"), Some(0));
}

#[test]
fn unparsable_strings_fail() {
    assert_eq!(parse_duration_ms(""), None);
    assert_eq!(parse_duration_ms("   "), None);
    assert_eq!(parse_duration_ms("30"), None);
    assert_eq!(parse_duration_ms("s"), None);
    assert_eq!(parse_duration_ms("30x"), None);
    assert_eq!(parse_duration_ms("1.5h"), None);
    assert_eq!(parse_duration_ms("30 s"), None);
}

#[test]
fn overflowing_totals_fail() {
    assert_eq!(parse_duration_ms("99999999999999999999999s"), None);
    assert_eq!(parse_duration_ms("18446744073709551615s"), None);
    assert_eq!(parse_duration_ms("000000000000000000000001s"), Some(1000));
}

#[test]
fn agrees_with_humantime_on_common_forms() {
    for text in ["30s", "1m30s", "2h 15m", "1day", "3weeks", "500ms", "45sec"] {
        let ours = parse_duration_ms(text).expect(text);
        let theirs = humantime::parse_duration(text).expect(text);
        assert_eq!(u128::from(ours), theirs.as_millis(), "{}", text);
    }
    for text in ["", "30", "m sec", "30x"] {
        assert!(parse_duration_ms(text).is_none(), "{}", text);
        assert!(humantime::parse_duration(text).is_err(), "{}", text);
    }
}
