use makeclean::cli::{parse_duration, DurationError};
use makeclean::project::Duration;

const DAY: i128 = 86_400_000_000_000;

fn days(n: i128) -> Result<Duration, DurationError> {
    Ok(Duration { nanos: n * DAY })
}

#[test]
fn a_number_alone_counts_days() {
    assert_eq!(parse_duration("0"), days(0));
    assert_eq!(parse_duration("1"), days(1));
    assert_eq!(parse_duration("30"), days(30));
    assert_eq!(parse_duration("007"), days(7));
}

#[test]
fn a_unit_letter_sets_the_unit_in_either_case() {
    assert_eq!(parse_duration("1d"), days(1));
    assert_eq!(parse_duration("3D"), days(3));
    assert_eq!(parse_duration("2w"), days(14));
    assert_eq!(parse_duration("2W"), days(14));
    assert_eq!(parse_duration("1y"), days(364));
    assert_eq!(parse_duration("2Y"), days(728));
}

#[test]
fn a_month_is_the_twelfth_part_of_a_year_in_whole_days() {
    assert_eq!(parse_duration("1m"), days(30));
    assert_eq!(parse_duration("2m"), days(60));
    assert_eq!(parse_duration("3M"), days(91));
    assert_eq!(parse_duration("12m"), days(364));
    assert_eq!(parse_duration("0m"), days(0));
}

#[test]
fn what_is_no_number_with_a_unit_is_malformed() {
    for text in [
        "", "d", "w", "-1", "+1", "1.5", "1 d", " 1", "1 ", "1dd", "1dw", "d1", "1h", "1s", "x",
        "1\u{0663}", "\u{0661}", "1d\n", "0x10",
    ] {
        assert_eq!(parse_duration(text), Err(DurationError::Malformed), "{text:?}");
    }
}

#[test]
fn a_duration_beyond_what_seconds_hold_is_too_large() {
    // 106751991167300 days are the most that fit.
    assert_eq!(parse_duration("106751991167300"), days(106_751_991_167_300));
    assert_eq!(parse_duration("106751991167301"), Err(DurationError::TooLarge));
    assert_eq!(parse_duration("15250284452471w"), days(106_751_991_167_297));
    assert_eq!(parse_duration("15250284452472w"), Err(DurationError::TooLarge));
    assert_eq!(parse_duration("9223372036854775807"), Err(DurationError::TooLarge));
    assert_eq!(parse_duration("9223372036854775808y"), Err(DurationError::TooLarge));
    assert_eq!(
        parse_duration("99999999999999999999999999999999999999999999"),
        Err(DurationError::TooLarge)
    );
    // What is malformed is malformed, however large.
    assert_eq!(
        parse_duration("99999999999999999999999999999999999999999999x"),
        Err(DurationError::Malformed)
    );
}
