use healthchecks::hcctl::{
    check_row, check_rows, describe_elapsed, human_readable_duration, matched_pings, ping_number,
    search_checks, shown_pings, CommandError, SHOWN_PINGS,
};
use healthchecks::text::{characters, contains, decimal_string};
use healthchecks::model::Check;
use time::{Date, Month, OffsetDateTime, UtcOffset};

fn named(name: &str) -> Check {
    Check {
        name: name.to_string(),
        tags: String::new(),
        desc: String::new(),
        grace: 0,
        n_pings: 0,
        status: "new".to_string(),
        last_ping: None,
        next_ping: None,
        manual_resume: false,
        ping_url: None,
        update_url: None,
        pause_url: None,
        channels: None,
        timeout: None,
        schedule: None,
        tz: None,
        unique_key: None,
    }
}

fn names(checks: &[Check]) -> Vec<&str> {
    checks.iter().map(|check| check.name.as_str()).collect()
}

fn utc(year: i32, month: Month, day: u8, hour: u8, minute: u8, second: u8) -> OffsetDateTime {
    Date::from_calendar_date(year, month, day)
        .unwrap()
        .with_hms(hour, minute, second)
        .unwrap()
        .assume_utc()
}

const MINUTE: i128 = 60_000_000_000;
const HOUR: i128 = 60 * MINUTE;

#[test]
fn duration_parses_correctly() {
    let now = utc(2021, Month::January, 26, 19, 38, 0);
    let duration =
        human_readable_duration(now.unix_timestamp_nanos(), "2021-01-26T14:00:24+00:00").unwrap();
    assert_eq!(duration, "5 hour(s) and 2 minute(s) ago");
}

#[test]
fn duration_parses_correctly_with_only_minutes() {
    let now = utc(2021, Month::January, 26, 14, 38, 0);
    let duration =
        human_readable_duration(now.unix_timestamp_nanos(), "2021-01-26T14:00:24+00:00").unwrap();
    assert_eq!(duration, "0 hour(s) and 37 minute(s) ago");
}

#[test]
fn duration_agrees_with_the_time_crate() {
    let now = utc(2024, Month::February, 29, 23, 59, 59);
    for date_str in [
        "2024-02-29T23:59:59Z",
        "2024-02-29T23:00:00.5Z",
        "2024-02-28T01:02:03+05:30",
        "2016-12-31T15:59:60-08:00",
        "1999-12-31T00:00:00Z",
        "2024-03-01T12:00:00Z",
        "2030-01-01T00:00:00.000000001+14:00",
    ] {
        let date = OffsetDateTime::parse(date_str, &time::format_description::well_known::Rfc3339)
            .unwrap();
        let duration = now - date;
        let hours = duration.whole_hours();
        let minutes = if hours == 0 {
            duration.whole_minutes()
        } else {
            duration.whole_minutes() % hours
        };
        assert_eq!(
            human_readable_duration(now.unix_timestamp_nanos(), date_str).unwrap(),
            format!("{hours} hour(s) and {minutes} minute(s) ago"),
            "{date_str}"
        );
    }
}

#[test]
fn duration_respects_the_offset_of_the_timestamp() {
    let now = utc(2021, Month::January, 26, 19, 38, 0).to_offset(UtcOffset::from_hms(2, 0, 0).unwrap());
    assert_eq!(
        human_readable_duration(now.unix_timestamp_nanos(), "2021-01-26T15:00:24+01:00").unwrap(),
        "5 hour(s) and 2 minute(s) ago"
    );
}

#[test]
fn a_bad_timestamp_is_an_error() {
    for date_str in ["", "yesterday", "2021-01-26", "2021-01-26 14:00:24", "2021-13-01T00:00:00Z"] {
        assert!(
            OffsetDateTime::parse(date_str, &time::format_description::well_known::Rfc3339)
                .is_err()
        );
        assert_eq!(
            human_readable_duration(0, date_str),
            Err(CommandError::InvalidTimestamp(date_str.to_string()))
        );
    }
}

#[test]
fn a_time_span_beyond_128_bits_is_an_error() {
    assert_eq!(
        human_readable_duration(i128::MIN, "2021-01-26T14:00:24+00:00"),
        Err(CommandError::TimeSpanOverflow)
    );
    assert_eq!(
        human_readable_duration(i128::MAX, "1969-12-31T23:59:59Z"),
        Err(CommandError::TimeSpanOverflow)
    );
    assert!(human_readable_duration(i128::MAX, "1970-01-01T00:00:00Z").is_ok());
}

#[test]
fn elapsed_time_is_shown_in_hours_and_minutes() {
    assert_eq!(describe_elapsed(0), "0 hour(s) and 0 minute(s) ago");
    assert_eq!(describe_elapsed(MINUTE - 1), "0 hour(s) and 0 minute(s) ago");
    assert_eq!(describe_elapsed(MINUTE), "0 hour(s) and 1 minute(s) ago");
    assert_eq!(describe_elapsed(59 * MINUTE), "0 hour(s) and 59 minute(s) ago");
    assert_eq!(describe_elapsed(HOUR - 1), "0 hour(s) and 59 minute(s) ago");
}

#[test]
fn minutes_beyond_an_hour_are_taken_modulo_the_hours() {
    assert_eq!(describe_elapsed(HOUR), "1 hour(s) and 0 minute(s) ago");
    assert_eq!(describe_elapsed(HOUR + 59 * MINUTE), "1 hour(s) and 0 minute(s) ago");
    assert_eq!(describe_elapsed(2 * HOUR + 5 * MINUTE), "2 hour(s) and 1 minute(s) ago");
    assert_eq!(describe_elapsed(5 * HOUR + 37 * MINUTE), "5 hour(s) and 2 minute(s) ago");
    assert_eq!(describe_elapsed(100 * HOUR + 30 * MINUTE), "100 hour(s) and 30 minute(s) ago");
}

#[test]
fn time_spans_into_the_future_are_negative() {
    assert_eq!(describe_elapsed(-1), "0 hour(s) and 0 minute(s) ago");
    assert_eq!(describe_elapsed(-MINUTE), "0 hour(s) and -1 minute(s) ago");
    assert_eq!(describe_elapsed(-HOUR), "-1 hour(s) and 0 minute(s) ago");
    assert_eq!(describe_elapsed(-(5 * HOUR + 37 * MINUTE)), "-5 hour(s) and -2 minute(s) ago");
}

#[test]
fn the_longest_time_spans_are_shown_in_full() {
    assert_eq!(
        describe_elapsed(i128::MAX),
        "47261439850130342147690917 hour(s) and 41 minute(s) ago"
    );
    assert_eq!(
        describe_elapsed(i128::MIN),
        "-47261439850130342147690917 hour(s) and -41 minute(s) ago"
    );
}

#[test]
fn search_ignores_case() {
    let checks = vec![named("Nightly Backup"), named("web"), named("BACKUP-2"), named("back up")];
    let found = search_checks(checks, "backup").unwrap();
    assert_eq!(names(&found), ["Nightly Backup", "BACKUP-2"]);
}

#[test]
fn search_term_may_be_in_any_case() {
    let checks = vec![named("nightly backup"), named("web")];
    let found = search_checks(checks, "BackUp").unwrap();
    assert_eq!(names(&found), ["nightly backup"]);
}

#[test]
fn search_keeps_the_order_of_the_checks() {
    let checks = vec![named("c"), named("ab"), named("b"), named("a"), named("cab")];
    let found = search_checks(checks, "b").unwrap();
    assert_eq!(names(&found), ["ab", "b", "cab"]);
}

#[test]
fn an_empty_search_term_finds_every_check() {
    let checks = vec![named("a"), named(""), named("b")];
    let found = search_checks(checks, "").unwrap();
    assert_eq!(names(&found), ["a", "", "b"]);
}

#[test]
fn search_lowers_letters_beyond_ascii() {
    let checks = vec![named("\u{c4}RGER"), named("arger")];
    let found = search_checks(checks, "\u{e4}rger").unwrap();
    assert_eq!(names(&found), ["\u{c4}RGER"]);
}

#[test]
fn a_search_without_match_is_an_error() {
    assert_eq!(
        search_checks(vec![named("web"), named("db")], "backup").unwrap_err(),
        CommandError::NoChecksMatched("backup".to_string())
    );
    assert_eq!(
        search_checks(Vec::new(), "").unwrap_err(),
        CommandError::NoChecksMatched(String::new())
    );
}

#[test]
fn a_name_matches_where_it_holds_the_term() {
    assert!(contains("nightly backup", "backup"));
    assert!(contains("nightly backup", "nightly backup"));
    assert!(contains("nightly backup", "ly b"));
    assert!(contains("nightly backup", ""));
    assert!(contains("", ""));
    assert!(!contains("nightly backup", "backups"));
    assert!(!contains("nightly backup", "Backup"));
    assert!(!contains("", "a"));
    assert!(!contains("abab", "abb"));
}

#[test]
fn pings_are_handed_on_unless_there_are_none() {
    assert_eq!(matched_pings(vec![3, 1, 2], "backup"), Ok(vec![3, 1, 2]));
    assert_eq!(
        matched_pings(Vec::<u8>::new(), "backup"),
        Err(CommandError::NoPingsMatched("backup".to_string()))
    );
}

#[test]
fn search_errors_describe_themselves() {
    assert_eq!(
        CommandError::NoChecksMatched("backup".to_string()).message(),
        "No checks matched search term 'backup'"
    );
    assert_eq!(
        CommandError::NoPingsMatched("backup".to_string()).message(),
        "No pings matched search term 'backup'"
    );
    assert_eq!(CommandError::TimeSpanOverflow.message(), "time span out of range");
    let cause = human_readable_duration(0, "never").unwrap_err();
    assert_eq!(cause.message(), "invalid timestamp 'never'");
}

#[test]
fn a_check_is_listed_with_id_name_and_last_ping() {
    let now = utc(2021, Month::January, 26, 19, 38, 0).unix_timestamp_nanos();
    let mut check = named("backup");
    check.ping_url = Some("https://hc-ping.com/2d0a34bd-854d-490e-be2c-1493f7053460".to_string());
    check.last_ping = Some("2021-01-26T14:00:24+00:00".to_string());
    assert_eq!(
        check_row(&check, now).unwrap(),
        ["2d0a34bd-854d-490e-be2c-1493f7053460", "backup", "5 hour(s) and 2 minute(s) ago"]
    );
}

#[test]
fn what_is_not_known_of_a_check_is_shown_as_a_dash() {
    assert_eq!(check_row(&named("backup"), 0).unwrap(), ["-", "backup", "-"]);
}

#[test]
fn a_check_with_a_bad_timestamp_cannot_be_listed() {
    let mut check = named("backup");
    check.last_ping = Some("a while ago".to_string());
    assert_eq!(
        check_row(&check, 0),
        Err(CommandError::InvalidTimestamp("a while ago".to_string()))
    );
}

#[test]
fn checks_are_listed_in_their_order() {
    let now = utc(1970, Month::January, 1, 1, 30, 0).unix_timestamp_nanos();
    let mut first = named("first");
    first.last_ping = Some("1970-01-01T00:00:00Z".to_string());
    let mut second = named("second");
    second.ping_url = Some("https://hc-ping.com/abc".to_string());
    let rows = check_rows(&vec![first, second], now).unwrap();
    assert_eq!(rows.len(), 2);
    assert_eq!(rows[0], ["-", "first", "1 hour(s) and 0 minute(s) ago"]);
    assert_eq!(rows[1], ["abc", "second", "-"]);
    assert_eq!(check_rows(&Vec::new(), now).unwrap(), Vec::<Vec<String>>::new());
}

#[test]
fn one_bad_timestamp_fails_the_whole_list() {
    let mut bad = named("bad");
    bad.last_ping = Some("??".to_string());
    let mut overflow = named("overflow");
    overflow.last_ping = Some("1969-12-31T23:59:59Z".to_string());
    assert_eq!(
        check_rows(&vec![named("good"), bad, overflow], i128::MAX),
        Err(CommandError::InvalidTimestamp("??".to_string()))
    );
    let mut overflow = named("overflow");
    overflow.last_ping = Some("1969-12-31T23:59:59Z".to_string());
    let mut bad = named("bad");
    bad.last_ping = Some("??".to_string());
    assert_eq!(
        check_rows(&vec![named("good"), overflow, bad], i128::MAX),
        Err(CommandError::TimeSpanOverflow)
    );
}

#[test]
fn a_part_is_found_wherever_it_stands() {
    assert!(contains("abcabd", "abd"));
    assert!(contains("abcabd", "abc"));
    assert!(contains("abcabd", "d"));
    assert!(contains("aaab", "aab"));
    assert!(!contains("aaab", "aba"));
    assert!(!contains("ab", "abc"));
    assert!(contains("\u{e4}\u{f6}\u{fc}", "\u{f6}"));
    assert!(!contains("\u{e4}\u{f6}\u{fc}", "o"));
}

#[test]
fn containment_agrees_with_the_standard_library() {
    let texts = ["", "a", "ab", "ba", "aab", "abab", "b\u{e9}b\u{e9}", "\u{e9}"];
    for text in texts {
        for part in texts {
            assert_eq!(contains(text, part), text.contains(part), "{text:?} {part:?}");
        }
    }
}

#[test]
fn characters_are_listed_in_order() {
    assert_eq!(characters(""), Vec::<char>::new());
    assert_eq!(characters("a\u{e9}\u{1f600}z"), vec!['a', '\u{e9}', '\u{1f600}', 'z']);
}

#[test]
fn integers_are_written_in_decimal() {
    assert_eq!(decimal_string(0), "0");
    assert_eq!(decimal_string(7), "7");
    assert_eq!(decimal_string(10), "10");
    assert_eq!(decimal_string(-1), "-1");
    assert_eq!(decimal_string(-10), "-10");
    assert_eq!(decimal_string(1_000_000), "1000000");
    assert_eq!(decimal_string(9_090_909), "9090909");
    assert_eq!(decimal_string(i128::MAX), "170141183460469231731687303715884105727");
    assert_eq!(decimal_string(i128::MIN), "-170141183460469231731687303715884105728");
}

#[test]
fn decimal_agrees_with_the_standard_library() {
    for n in [0i128, 1, 9, 10, 11, 99, 100, 101, 12345, -1, -9, -10, -99, -100, -12345, i128::MAX, i128::MIN, i128::MIN + 1] {
        assert_eq!(decimal_string(n), n.to_string());
    }
}

#[test]
fn at_most_ten_pings_are_shown() {
    assert_eq!(SHOWN_PINGS, 10);
    assert_eq!(shown_pings(Vec::<u8>::new()), Vec::<u8>::new());
    assert_eq!(shown_pings(vec![1, 2, 3]), vec![1, 2, 3]);
    assert_eq!(shown_pings((0..10).collect()), (0..10).collect::<Vec<i32>>());
    assert_eq!(shown_pings((0..11).collect()), (0..10).collect::<Vec<i32>>());
    assert_eq!(shown_pings((5..500).collect()), (5..15).collect::<Vec<i32>>());
}

#[test]
fn the_number_of_a_ping_is_shown_behind_a_hash() {
    assert_eq!(ping_number(1), "#1");
    assert_eq!(ping_number(0), "#0");
    assert_eq!(ping_number(12345), "#12345");
    assert_eq!(ping_number(-3), "#-3");
    assert_eq!(ping_number(i64::MAX), "#9223372036854775807");
    assert_eq!(ping_number(i64::MIN), "#-9223372036854775808");
}
