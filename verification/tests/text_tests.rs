use player_count_bot::presence::{presence_text, ServerInfo};
use player_count_bot::roster::{roster_response, roster_table, PlayerRecord};
use player_count_bot::textfmt::{decimal_string, decimal_string_signed, pad_left, pad_right, play_time_string};
use player_count_bot::Error;

#[test]
fn decimal_rendering() {
    assert_eq!(decimal_string(0), "0");
    assert_eq!(decimal_string(7), "7");
    assert_eq!(decimal_string(30), "30");
    assert_eq!(decimal_string(u64::MAX), "18446744073709551615");
    assert_eq!(decimal_string_signed(-5), "-5");
    assert_eq!(decimal_string_signed(i32::MIN), "-2147483648");
    assert_eq!(decimal_string_signed(i32::MAX), "2147483647");
}

#[test]
fn padding() {
    assert_eq!(pad_left("10", 7), "     10");
    assert_eq!(pad_right("Ann", 9), "Ann      ");
    assert_eq!(pad_left("longer than wide", 7), "longer than wide");
    assert_eq!(pad_right("", 3), "   ");
}

#[test]
fn play_time_form() {
    assert_eq!(play_time_string(3661), "1h 1m 1s");
    assert_eq!(play_time_string(59), "0h 0m 59s");
    assert_eq!(play_time_string(0), "0h 0m 0s");
    assert_eq!(play_time_string(86_400), "24h 0m 0s");
}

#[test]
fn presence_for_reachable_server() {
    let info = ServerInfo { players: 5, max_players: 10, map_name: String::from("arena") };
    assert_eq!(presence_text(&Some(info)), "Playing 5/10 on map: arena");
}

#[test]
fn presence_for_unreachable_server() {
    assert_eq!(presence_text(&None), "Server Offline");
}

#[test]
fn roster_two_records() {
    let players = vec![
        PlayerRecord { name: String::from("Ann"), score: 10, duration_seconds: 3661 },
        PlayerRecord { name: String::from("Bo"), score: 5, duration_seconds: 59 },
    ];
    let table = roster_table(&players);
    let expected = "```\n Player   |   Score | Time\n----------+---------+------------\n\
                    Ann       |      10 | 1h 1m 1s\n\
                    Bo        |       5 | 0h 0m 59s\n\
                    ```";
    assert_eq!(table, expected);
    assert!(table.contains("Ann"));
    assert!(table.contains("1h 1m 1s"));
    assert!(table.contains("Bo"));
    assert!(table.contains("0h 0m 59s"));
}

#[test]
fn roster_empty_is_header_only() {
    let table = roster_table(&Vec::new());
    assert_eq!(table, "```\n Player   |   Score | Time\n----------+---------+------------\n```");
}

#[test]
fn roster_failure_is_fixed_text() {
    assert_eq!(roster_response(&None), "Failed to get player information.");
}

#[test]
fn roster_response_formats_on_success() {
    let players = vec![PlayerRecord {
        name: String::from("Zed"),
        score: -3,
        duration_seconds: 60,
    }];
    let text = roster_response(&Some(players));
    assert!(text.contains("Zed       |      -3 | 0h 1m 0s\n"));
}

#[test]
fn error_message_names_the_worker() {
    let e = Error::InvalidCredential(String::from("alpha"));
    assert_eq!(e.message(), "Invalid discord api key for server 'alpha'");
}
