//! Modification times: the newest of a directory, and how long ago an
//! instant was, in words.

use vstd::prelude::*;
use vstd::string::*;
use crate::project::Timestamp;
use crate::text::{decimal, push_decimal};

verus! {

/// The year of the UTC date of the instant `unix_nanos`, as the `time`
/// crate's `OffsetDateTime::year` gives it; `None` for an instant that
/// `OffsetDateTime` cannot hold.
pub uninterp spec fn utc_year(unix_nanos: i128) -> Option<i32>;

/// The day of the year of the UTC date of the instant `unix_nanos`, as the
/// `time` crate's `OffsetDateTime::ordinal` gives it; `None` for an instant
/// that `OffsetDateTime` cannot hold.
pub uninterp spec fn utc_ordinal(unix_nanos: i128) -> Option<u16>;

/// The ISO year and week of the UTC date of the instant `unix_nanos`, as
/// the `time` crate's `OffsetDateTime::to_iso_week_date` gives them; `None`
/// for an instant that `OffsetDateTime` cannot hold.
pub uninterp spec fn utc_iso_week(unix_nanos: i128) -> Option<(i32, u8)>;

/// Calls `time::OffsetDateTime::year` on the UTC date-time that
/// `OffsetDateTime::from_unix_timestamp_nanos` makes of `unix_nanos`. The
/// contract names the result; it is `None` exactly where the conversion
/// reports that the instant is out of range.
#[verifier::external_body]
fn year_of(unix_nanos: i128) -> (year: Option<i32>)
    ensures
        year == utc_year(unix_nanos),
{
    match time::OffsetDateTime::from_unix_timestamp_nanos(unix_nanos) {
        Ok(t) => Some(t.year()),
        Err(_) => None,
    }
}

/// Calls `time::OffsetDateTime::ordinal` on the UTC date-time that
/// `OffsetDateTime::from_unix_timestamp_nanos` makes of `unix_nanos`. The
/// contract names the result; it is `None` exactly where the conversion
/// reports that the instant is out of range.
#[verifier::external_body]
fn ordinal_of(unix_nanos: i128) -> (ordinal: Option<u16>)
    ensures
        ordinal == utc_ordinal(unix_nanos),
{
    match time::OffsetDateTime::from_unix_timestamp_nanos(unix_nanos) {
        Ok(t) => Some(t.ordinal()),
        Err(_) => None,
    }
}

/// Calls `time::OffsetDateTime::to_iso_week_date` on the UTC date-time that
/// `OffsetDateTime::from_unix_timestamp_nanos` makes of `unix_nanos`, and
/// keeps the year and the week. The contract names the result; it is `None`
/// exactly where the conversion reports that the instant is out of range.
#[verifier::external_body]
fn iso_week_of(unix_nanos: i128) -> (week: Option<(i32, u8)>)
    ensures
        week == utc_iso_week(unix_nanos),
{
    match time::OffsetDateTime::from_unix_timestamp_nanos(unix_nanos) {
        Ok(t) => {
            let (year, week, _) = t.to_iso_week_date();
            Some((year, week))
        },
        Err(_) => None,
    }
}

/// The year, the month counted from 1 and the day of the month of the UTC
/// date of the instant `unix_nanos`, as the `time` crate's
/// `OffsetDateTime::to_calendar_date` gives them; `None` for an instant that
/// `OffsetDateTime` cannot hold.
pub uninterp spec fn utc_date(unix_nanos: i128) -> Option<(i32, u8, u8)>;

/// The instant `unix_nanos` as the `time` crate's `OffsetDateTime::format`
/// writes it in UTC by RFC 3339; `None` for an instant that `OffsetDateTime`
/// cannot hold or that the format cannot write.
pub uninterp spec fn rfc3339_text(unix_nanos: i128) -> Option<Seq<char>>;

/// Calls `time::OffsetDateTime::to_calendar_date` on the UTC date-time that
/// `OffsetDateTime::from_unix_timestamp_nanos` makes of `unix_nanos`, with
/// the month as its number. The contract names the result; it is `None`
/// exactly where the conversion reports that the instant is out of range.
#[verifier::external_body]
fn date_of(unix_nanos: i128) -> (date: Option<(i32, u8, u8)>)
    ensures
        date == utc_date(unix_nanos),
{
    match time::OffsetDateTime::from_unix_timestamp_nanos(unix_nanos) {
        Ok(t) => {
            let (year, month, day) = t.to_calendar_date();
            Some((year, u8::from(month), day))
        },
        Err(_) => None,
    }
}

/// Calls `time::OffsetDateTime::format` with the well-known format
/// `Rfc3339` on the UTC date-time that
/// `OffsetDateTime::from_unix_timestamp_nanos` makes of `unix_nanos`. The
/// contract names the result; it is `None` where the conversion or the
/// formatting reports an error.
#[verifier::external_body]
pub(crate) fn rfc3339_of(unix_nanos: i128) -> (text: Option<String>)
    ensures
        match text {
            Some(text) => rfc3339_text(unix_nanos) == Some(text@),
            None => rfc3339_text(unix_nanos).is_none(),
        },
{
    match time::OffsetDateTime::from_unix_timestamp_nanos(unix_nanos) {
        Ok(t) => t.format(&time::format_description::well_known::Rfc3339).ok(),
        Err(_) => None,
    }
}

/// The digits of `n`, with zeros in front of them up to `width` digits.
pub open spec fn padded(n: nat, width: nat) -> Seq<char>
    decreases width,
{
    if decimal(n).len() >= width {
        decimal(n)
    } else {
        seq!['0'] + padded(n, (width - 1) as nat)
    }
}

/// A date as year, month and day with hyphens between them: the year in
/// four digits or more, with a minus sign before a year before the year
/// nought, the month and the day in two digits.
pub open spec fn date_text(year: int, month: nat, day: nat) -> Seq<char> {
    (if year < 0 {
        seq!['-'] + padded((-year) as nat, 4)
    } else {
        padded(year as nat, 4)
    }) + seq!['-'] + padded(month, 2) + seq!['-'] + padded(day, 2)
}

/// Appends the digits of `n` to `out`, with zeros in front of them up to
/// `width` digits.
pub fn push_padded(out: &mut String, n: u64, width: u64)
    requires
        width <= 4,
    ensures
        final(out)@ == old(out)@ + padded(n as nat, width as nat),
{
    proof {
        reveal_strlit("0");
        crate::text::lemma_decimal_nonempty(n as nat);
    }
    let digits = crate::text::decimal_string(n);
    let len = digits.as_str().unicode_len();
    let mut missing: u64 = if (len as u64) < width {
        width - len as u64
    } else {
        0
    };
    let ghost start = out@;
    let ghost total = missing;
    while missing > 0
        invariant
            missing <= total <= 4,
            len == decimal(n as nat).len(),
            total == if len < width {
                width - len
            } else {
                0
            },
            out@ + padded(n as nat, (len + missing) as nat) == start + padded(
                n as nat,
                (len + total) as nat,
            ),
        decreases missing,
    {
        let ghost before = out@;
        out.append("0");
        proof {
            reveal_strlit("0");
            assert("0"@ =~= seq!['0']);
            assert(padded(n as nat, (len + missing) as nat) == seq!['0'] + padded(
                n as nat,
                (len + missing - 1) as nat,
            ));
            assert(out@ + padded(n as nat, (len + missing - 1) as nat) =~= before + padded(
                n as nat,
                (len + missing) as nat,
            ));
        }
        missing -= 1;
    }
    proof {
        assert(padded(n as nat, len as nat) == decimal(n as nat));
        if len < width {
            assert(len + total == width);
        } else {
            assert(padded(n as nat, width as nat) == decimal(n as nat));
        }
    }
    out.append(digits.as_str());
    assert(out@ =~= start + padded(n as nat, width as nat));
}

/// The UTC date of `at` as year, month and day with hyphens between them;
/// `None` for an instant that the calendar cannot place.
pub fn iso_date(at: Timestamp) -> (text: Option<String>)
    ensures
        match utc_date(at.unix_nanos) {
            Some((year, month, day)) => text.is_some() && text.unwrap()@ == date_text(
                year as int,
                month as nat,
                day as nat,
            ),
            None => text.is_none(),
        },
{
    proof {
        reveal_strlit("-");
        assert("-"@ =~= seq!['-']);
    }
    match date_of(at.unix_nanos) {
        Some((year, month, day)) => {
            let mut s = String::new();
            if year < 0 {
                s.append("-");
                push_padded(&mut s, (-(year as i64)) as u64, 4);
            } else {
                push_padded(&mut s, year as u64, 4);
            }
            s.append("-");
            push_padded(&mut s, month as u64, 2);
            s.append("-");
            push_padded(&mut s, day as u64, 2);
            assert(s@ =~= date_text(year as int, month as nat, day as nat));
            Some(s)
        },
        None => None,
    }
}

/// An instant together with its place in the calendar.
#[derive(Debug, Copy, Clone, PartialEq, Eq, Structural)]
pub struct Moment {
    /// The instant.
    pub at: Timestamp,
    /// The year of its UTC date.
    pub year: i32,
    /// The day of the year of its UTC date, counted from 1.
    pub ordinal: u16,
    /// The year that its ISO week belongs to.
    pub iso_year: i32,
    /// Its ISO week, counted from 1.
    pub iso_week: u8,
}

impl Moment {
    /// Whether the calendar fields of `m` are those of its instant.
    pub open spec fn reads(at: Timestamp, m: Moment) -> bool {
        &&& m.at == at
        &&& utc_year(at.unix_nanos) == Some(m.year)
        &&& utc_ordinal(at.unix_nanos) == Some(m.ordinal)
        &&& utc_iso_week(at.unix_nanos) == Some((m.iso_year, m.iso_week))
    }

    /// Whether the calendar can place the instant.
    pub open spec fn placeable(at: Timestamp) -> bool {
        utc_year(at.unix_nanos).is_some() && utc_ordinal(at.unix_nanos).is_some() && utc_iso_week(
            at.unix_nanos,
        ).is_some()
    }

    /// The instant `at`, placed in the calendar; `None` for an instant that
    /// the calendar cannot place.
    pub fn of(at: Timestamp) -> (m: Option<Moment>)
        ensures
            m.is_some() == Moment::placeable(at),
            m.is_some() ==> Moment::reads(at, m.unwrap()),
    {
        let year = match year_of(at.unix_nanos) {
            Some(year) => year,
            None => {
                return None;
            },
        };
        let ordinal = match ordinal_of(at.unix_nanos) {
            Some(ordinal) => ordinal,
            None => {
                return None;
            },
        };
        match iso_week_of(at.unix_nanos) {
            Some((iso_year, iso_week)) => Some(Moment { at, year, ordinal, iso_year, iso_week }),
            None => None,
        }
    }
}

pub const NANOS_PER_MINUTE: i128 = 60_000_000_000;

pub const HOUR: u64 = 60;

pub const DAY: u64 = 1440;

pub const WEEK: u64 = 10080;

/// Four weeks, so that February counts as a month too.
pub const MONTH: u64 = 40320;

pub const YEAR: u64 = 525600;

/// The whole minutes from `since` to `now`; nothing where `now` is not
/// after `since`.
pub open spec fn elapsed_minutes(since: Timestamp, now: Timestamp) -> nat {
    if now.unix_nanos > since.unix_nanos {
        ((now.unix_nanos - since.unix_nanos) / (NANOS_PER_MINUTE as int)) as nat
    } else {
        0
    }
}

/// Whether `since` is on the day before `now`.
pub open spec fn was_yesterday(since: Moment, now: Moment) -> bool {
    if now.ordinal == 1 {
        now.year - since.year == 1 && since.ordinal >= 365
    } else {
        now.year == since.year && now.ordinal - since.ordinal == 1
    }
}

/// Whether `since` is in the week before that of `now`.
pub open spec fn was_last_week(since: Moment, now: Moment) -> bool {
    if now.iso_week == 1 {
        now.iso_year - since.iso_year == 1 && since.iso_week == 53
    } else {
        now.iso_year == since.iso_year && now.iso_week - since.iso_week == 1
    }
}

/// How long ago `n` minutes were, in words.
pub open spec fn minutes_text(n: nat) -> Seq<char> {
    if n >= 2 * YEAR {
        decimal(n / (YEAR as nat)) + " years ago"@
    } else if n >= YEAR {
        "a year ago"@
    } else if n >= 2 * MONTH {
        decimal(n / (MONTH as nat)) + " months ago"@
    } else if n >= MONTH {
        "a month ago"@
    } else if n >= 2 * WEEK {
        decimal(n / (WEEK as nat)) + " weeks ago"@
    } else if n >= 2 * DAY {
        decimal(n / (DAY as nat)) + " days ago"@
    } else if n >= 2 * HOUR {
        decimal(n / (HOUR as nat)) + " hours ago"@
    } else if n >= HOUR {
        "an hour ago"@
    } else if n > 9 {
        decimal(n) + " minutes ago"@
    } else if n > 1 {
        "a few minutes ago"@
    } else if n == 1 {
        "a minute ago"@
    } else {
        "just now"@
    }
}

/// How long before `now` the instant `since` was, in words: the day before
/// is yesterday and the week before is last week, however few hours or days
/// lie between; everything else goes by the minutes that have passed.
pub open spec fn elapsed_text(since: Moment, now: Moment) -> Seq<char> {
    if was_yesterday(since, now) {
        "yesterday"@
    } else if was_last_week(since, now) {
        "last week"@
    } else {
        minutes_text(elapsed_minutes(since.at, now.at))
    }
}

fn counted(n: u64, unit: &str) -> (s: String)
    ensures
        s@ == decimal(n as nat) + unit@,
{
    let mut s = String::new();
    push_decimal(&mut s, n);
    s.append(unit);
    assert(s@ =~= decimal(n as nat) + unit@);
    s
}

/// How long ago `n` minutes were, in words.
pub fn minutes_ago(n: u64) -> (s: String)
    ensures
        s@ == minutes_text(n as nat),
{
    if n >= 2 * YEAR {
        counted(n / YEAR, " years ago")
    } else if n >= YEAR {
        String::from_str("a year ago")
    } else if n >= 2 * MONTH {
        counted(n / MONTH, " months ago")
    } else if n >= MONTH {
        String::from_str("a month ago")
    } else if n >= 2 * WEEK {
        counted(n / WEEK, " weeks ago")
    } else if n >= 2 * DAY {
        counted(n / DAY, " days ago")
    } else if n >= 2 * HOUR {
        counted(n / HOUR, " hours ago")
    } else if n >= HOUR {
        String::from_str("an hour ago")
    } else if n > 9 {
        counted(n, " minutes ago")
    } else if n > 1 {
        String::from_str("a few minutes ago")
    } else if n == 1 {
        String::from_str("a minute ago")
    } else {
        String::from_str("just now")
    }
}

/// How long before `now` the instant `since` was, in words.
pub fn human_readable_elapsed(since: &Moment, now: &Moment) -> (s: String)
    requires
        since.at.wf(),
        now.at.wf(),
    ensures
        s@ == elapsed_text(*since, *now),
{
    let yesterday = if now.ordinal == 1 {
        now.year as i64 - since.year as i64 == 1 && since.ordinal >= 365
    } else {
        now.year == since.year && now.ordinal as u32 == since.ordinal as u32 + 1
    };
    if yesterday {
        return String::from_str("yesterday");
    }
    let last_week = if now.iso_week == 1 {
        now.iso_year as i64 - since.iso_year as i64 == 1 && since.iso_week == 53
    } else {
        now.iso_year == since.iso_year && now.iso_week as u32 == since.iso_week as u32 + 1
    };
    if last_week {
        return String::from_str("last week");
    }
    let minutes: u64 = if now.at.unix_nanos > since.at.unix_nanos {
        let passed: i128 = now.at.unix_nanos - since.at.unix_nanos;
        let whole: i128 = passed / NANOS_PER_MINUTE;
        assert(0 <= whole <= u64::MAX) by {
            assert(passed <= 2 * crate::project::MAX_NANOS);
        }
        whole as u64
    } else {
        0
    };
    minutes_ago(minutes)
}

/// Whether `t` is the newest of `times`.
pub open spec fn is_newest(times: Seq<Timestamp>, t: Timestamp) -> bool {
    &&& times.contains(t)
    &&& forall|i: int| 0 <= i < times.len() ==> (#[trigger] times[i]).unix_nanos <= t.unix_nanos
}

/// The modification time of a directory: the newest among those of the
/// files below it that count; `None` where there is no such file.
pub fn dir_mtime(file_mtimes: &Vec<Timestamp>) -> (newest: Option<Timestamp>)
    ensures
        newest.is_none() == (file_mtimes@.len() == 0),
        newest.is_some() ==> is_newest(file_mtimes@, newest.unwrap()),
{
    if file_mtimes.len() == 0 {
        return None;
    }
    let mut newest = file_mtimes[0];
    let mut i: usize = 1;
    while i < file_mtimes.len()
        invariant
            1 <= i <= file_mtimes.len(),
            file_mtimes@.contains(newest),
            forall|j: int| 0 <= j < i ==> (#[trigger] file_mtimes@[j]).unix_nanos <= newest.unix_nanos,
        decreases file_mtimes.len() - i,
    {
        if file_mtimes[i].unix_nanos > newest.unix_nanos {
            newest = file_mtimes[i];
        }
        i += 1;
    }
    Some(newest)
}

} // verus!
