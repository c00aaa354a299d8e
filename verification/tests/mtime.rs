use makeclean::project::mtime::{
    dir_mtime, human_readable_elapsed, iso_date, minutes_ago, Moment,
};
use makeclean::project::Timestamp;
use time::{Date, Month};

fn month(m: u8) -> Month {
    Month::try_from(m).unwrap()
}

fn instant(y: i32, m: u8, d: u8, h: u8, min: u8, s: u8) -> Timestamp {
    let t = Date::from_calendar_date(y, month(m), d)
        .unwrap()
        .with_hms(h, min, s)
        .unwrap()
        .assume_utc();
    Timestamp { unix_nanos: t.unix_timestamp_nanos() }
}

fn moment(y: i32, m: u8, d: u8, h: u8, min: u8, s: u8) -> Moment {
    Moment::of(instant(y, m, d, h, min, s)).unwrap()
}

#[test]
fn thirty_seconds_ago_is_just_now() {
    let since = moment(2022, 1, 1, 0, 0, 0);
    let now = moment(2022, 1, 1, 0, 0, 30);
    assert_eq!(human_readable_elapsed(&since, &now), "just now");
}

#[test]
fn after_a_minute_it_is_no_longer_now() {
    let since = moment(2022, 1, 1, 0, 0, 0);
    let now = moment(2022, 1, 1, 0, 1, 30);
    assert_eq!(human_readable_elapsed(&since, &now), "a minute ago");
}

#[test]
fn five_minutes_is_a_few_minutes() {
    let since = moment(2022, 1, 1, 0, 0, 0);
    let now = moment(2022, 1, 1, 0, 5, 0);
    assert_eq!(human_readable_elapsed(&since, &now), "a few minutes ago");
}

#[test]
fn less_than_an_hour_tells_the_minutes() {
    let since = moment(2022, 1, 1, 0, 0, 0);
    let now = moment(2022, 1, 1, 0, 59, 0);
    assert_eq!(human_readable_elapsed(&since, &now), "59 minutes ago");
}

#[test]
fn less_than_a_day_tells_the_hours_except_when_that_was_yesterday_the_year_before() {
    let now = moment(2022, 1, 1, 15, 0, 0);

    let earlier_today = moment(2022, 1, 1, 0, 0, 0);
    assert_eq!(human_readable_elapsed(&earlier_today, &now), "15 hours ago");

    let yesterday = moment(2021, 12, 31, 23, 59, 0);
    assert_eq!(human_readable_elapsed(&yesterday, &now), "yesterday");
}

#[test]
fn less_than_a_day_tells_the_hours_except_when_that_was_yesterday_this_year() {
    let now = moment(2022, 2, 1, 15, 0, 0);

    let earlier_today = moment(2022, 2, 1, 0, 0, 0);
    assert_eq!(human_readable_elapsed(&earlier_today, &now), "15 hours ago");

    let yesterday = moment(2022, 1, 31, 23, 59, 0);
    assert_eq!(human_readable_elapsed(&yesterday, &now), "yesterday");
}

#[test]
fn less_than_a_week_tells_the_days_except_when_that_was_last_week() {
    let now_thursday = moment(2022, 3, 31, 15, 0, 0);

    let monday = moment(2022, 3, 28, 0, 0, 0);
    assert_eq!(human_readable_elapsed(&monday, &now_thursday), "3 days ago");

    let friday_last_week = moment(2022, 3, 25, 0, 0, 0);
    assert_eq!(human_readable_elapsed(&friday_last_week, &now_thursday), "last week");
}

#[test]
fn three_weeks_ago_works_across_a_month_boundary() {
    let since = moment(2022, 1, 5, 0, 0, 0);
    let now = moment(2022, 2, 1, 0, 0, 0);
    assert_eq!(human_readable_elapsed(&since, &now), "3 weeks ago");
}

#[test]
fn a_month_ago_also_works_with_february() {
    let since = moment(2022, 2, 1, 0, 0, 0);
    let now = moment(2022, 3, 1, 0, 0, 0);
    assert_eq!(human_readable_elapsed(&since, &now), "a month ago");
}

#[test]
fn less_than_a_year_tells_the_months_even_if_that_was_last_year() {
    let since = moment(2021, 2, 1, 0, 0, 0);
    let now = moment(2022, 1, 1, 0, 0, 0);
    assert_eq!(human_readable_elapsed(&since, &now), "11 months ago");
}

#[test]
fn twelve_months_means_a_year_has_passed() {
    let since = moment(2021, 2, 1, 0, 0, 0);
    let now = moment(2022, 2, 1, 0, 0, 0);
    assert_eq!(human_readable_elapsed(&since, &now), "a year ago");
}

#[test]
fn with_more_than_one_year_we_see_the_plural() {
    let since = moment(2020, 2, 1, 0, 0, 0);
    let now = moment(2022, 2, 1, 0, 0, 0);
    assert_eq!(human_readable_elapsed(&since, &now), "2 years ago");
}

#[test]
fn a_moment_reads_the_calendar_of_its_instant() {
    let m = moment(2021, 1, 1, 12, 0, 0);
    assert_eq!(m.year, 2021);
    assert_eq!(m.ordinal, 1);
    // The first of January 2021 was a Friday of the last week of 2020.
    assert_eq!(m.iso_year, 2020);
    assert_eq!(m.iso_week, 53);

    let m = moment(2020, 12, 31, 0, 0, 0);
    assert_eq!(m.year, 2020);
    assert_eq!(m.ordinal, 366);
    assert_eq!(m.iso_week, 53);

    let epoch = Moment::of(Timestamp { unix_nanos: 0 }).unwrap();
    assert_eq!((epoch.year, epoch.ordinal, epoch.iso_year, epoch.iso_week), (1970, 1, 1970, 1));
}

#[test]
fn an_instant_beyond_the_calendar_is_no_moment() {
    assert_eq!(Moment::of(Timestamp { unix_nanos: i128::MAX }), None);
    assert_eq!(Moment::of(Timestamp { unix_nanos: i128::MIN }), None);
    assert_eq!(iso_date(Timestamp { unix_nanos: i128::MAX }), None);
}

#[test]
fn the_week_before_the_first_week_of_a_year_is_last_week() {
    // Monday the 3rd of January 2022 begins week 1; the Wednesday before is
    // in week 52 of 2021, which is not week 53.
    let now = moment(2022, 1, 5, 0, 0, 0);
    let since = moment(2021, 12, 29, 0, 0, 0);
    assert_eq!(human_readable_elapsed(&since, &now), "7 days ago");

    // Week 1 of 2021 follows week 53 of 2020.
    let now = moment(2021, 1, 6, 0, 0, 0);
    let since = moment(2020, 12, 30, 0, 0, 0);
    assert_eq!(human_readable_elapsed(&since, &now), "last week");
}

#[test]
fn an_instant_in_the_future_is_just_now() {
    let since = moment(2022, 6, 15, 12, 0, 0);
    let now = moment(2022, 6, 15, 10, 0, 0);
    assert_eq!(human_readable_elapsed(&since, &now), "just now");
}

#[test]
fn minutes_are_told_in_the_largest_unit_that_fits_twice() {
    assert_eq!(minutes_ago(0), "just now");
    assert_eq!(minutes_ago(1), "a minute ago");
    assert_eq!(minutes_ago(2), "a few minutes ago");
    assert_eq!(minutes_ago(9), "a few minutes ago");
    assert_eq!(minutes_ago(10), "10 minutes ago");
    assert_eq!(minutes_ago(59), "59 minutes ago");
    assert_eq!(minutes_ago(60), "an hour ago");
    assert_eq!(minutes_ago(119), "an hour ago");
    assert_eq!(minutes_ago(120), "2 hours ago");
    assert_eq!(minutes_ago(1440), "24 hours ago");
    assert_eq!(minutes_ago(2879), "47 hours ago");
    assert_eq!(minutes_ago(2880), "2 days ago");
    assert_eq!(minutes_ago(20159), "13 days ago");
    assert_eq!(minutes_ago(20160), "2 weeks ago");
    assert_eq!(minutes_ago(40319), "3 weeks ago");
    assert_eq!(minutes_ago(40320), "a month ago");
    assert_eq!(minutes_ago(80639), "a month ago");
    assert_eq!(minutes_ago(80640), "2 months ago");
    assert_eq!(minutes_ago(525599), "13 months ago");
    assert_eq!(minutes_ago(525600), "a year ago");
    assert_eq!(minutes_ago(1051199), "a year ago");
    assert_eq!(minutes_ago(1051200), "2 years ago");
    assert_eq!(minutes_ago(u64::MAX), "35096545041304 years ago");
}

#[test]
fn the_newest_file_gives_the_time_of_a_directory() {
    let t = |n: i128| Timestamp { unix_nanos: n };
    assert_eq!(dir_mtime(&vec![]), None);
    assert_eq!(dir_mtime(&vec![t(5)]), Some(t(5)));
    assert_eq!(dir_mtime(&vec![t(5), t(9), t(-3), t(9), t(2)]), Some(t(9)));
    assert_eq!(dir_mtime(&vec![t(-5), t(-9)]), Some(t(-5)));
}

#[test]
fn a_date_is_written_with_hyphens_and_zeros() {
    assert_eq!(iso_date(instant(2022, 3, 5, 15, 0, 0)).unwrap(), "2022-03-05");
    assert_eq!(iso_date(instant(1999, 12, 31, 23, 59, 59)).unwrap(), "1999-12-31");
    assert_eq!(iso_date(instant(987, 1, 1, 0, 0, 0)).unwrap(), "0987-01-01");
    assert_eq!(iso_date(instant(-44, 3, 15, 0, 0, 0)).unwrap(), "-0044-03-15");
    assert_eq!(iso_date(Timestamp { unix_nanos: 0 }).unwrap(), "1970-01-01");
}
