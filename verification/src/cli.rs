//! The options of a run, and how a duration is written among them.

use vstd::prelude::*;
use vstd::string::*;
use crate::build_tools::BuildToolKind;
use crate::project::Duration;

verus! {

/// The options of a run.
#[derive(Debug, Clone, PartialEq, Eq)]
pub struct Cli {
    /// Output is JSON; then either `dry_run` or `yes` is required for
    /// cleaning.
    pub json: bool,
    /// Projects are only listed.
    pub list: bool,
    /// Projects that were modified more recently than this are left out.
    /// Without it, listing leaves none out for its age, and cleaning leaves
    /// out what is younger than thirty days.
    pub min_stale: Option<Duration>,
    /// Only projects of these build tools are considered; all where none is
    /// named.
    pub types: Vec<BuildToolKind>,
    /// What would happen is printed, and nothing is changed.
    pub dry_run: bool,
    /// No question is asked before cleaning.
    pub yes: bool,
    /// Cleaned projects are replaced by an archive of themselves.
    pub archive: bool,
    /// The directories below which projects are looked for.
    pub directories: Vec<String>,
}

/// Why a text is not taken for a duration.
#[derive(Debug, Copy, Clone, PartialEq, Eq, Structural)]
pub enum DurationError {
    /// The text is not a number with at most one unit letter behind it.
    Malformed,
    /// The duration is longer than 64 bits of seconds hold.
    TooLarge,
}

pub const SECONDS_PER_DAY: u128 = 86400;

pub const NANOS_PER_SECOND: i128 = 1_000_000_000;

/// The longest duration in seconds.
pub const MAX_SECONDS: u128 = 9_223_372_036_854_775_807;

/// Whether `c` is one of the digits `0` to `9`.
pub open spec fn is_digit(c: char) -> bool {
    48 <= c as u32 <= 57
}

/// The number that the digit `c` stands for.
pub open spec fn digit_value(c: char) -> nat {
    (c as u32 - 48) as nat
}

/// The number that a sequence of digits writes in decimal notation.
pub open spec fn number(digits: Seq<char>) -> nat
    decreases digits.len(),
{
    if digits.len() == 0 {
        0
    } else {
        number(digits.drop_last()) * 10 + digit_value(digits.last())
    }
}

/// Whether `c` is a unit letter: `d` for days, `w` for weeks, `m` for
/// months, `y` for years, in either case.
pub open spec fn is_unit(c: char) -> bool {
    c == 'd' || c == 'D' || c == 'w' || c == 'W' || c == 'm' || c == 'M' || c == 'y' || c == 'Y'
}

/// The text without its unit letter.
pub open spec fn digits_of(text: Seq<char>) -> Seq<char> {
    if text.len() > 0 && is_unit(text.last()) {
        text.drop_last()
    } else {
        text
    }
}

/// The unit letter of the text; days where it has none.
pub open spec fn unit_of(text: Seq<char>) -> char {
    if text.len() > 0 && is_unit(text.last()) {
        text.last()
    } else {
        'd'
    }
}

/// Whether the text is one or more digits with at most one unit letter
/// behind them.
pub open spec fn well_formed(text: Seq<char>) -> bool {
    &&& digits_of(text).len() > 0
    &&& forall|i: int| 0 <= i < digits_of(text).len() ==> is_digit(#[trigger] digits_of(text)[i])
}

/// The days that `n` of a unit are: a week is seven days, a year is
/// fifty-two weeks, and a month is the twelfth part of a year, rounded down
/// to whole days.
pub open spec fn days(n: nat, unit: char) -> nat {
    if unit == 'd' || unit == 'D' {
        n
    } else if unit == 'w' || unit == 'W' {
        7 * n
    } else if unit == 'm' || unit == 'M' {
        (7 * n * 52) / 12
    } else {
        7 * (n * 52)
    }
}

/// What the text is taken for: the duration in nanoseconds, or the reason
/// why it is taken for none.
pub open spec fn parsed(text: Seq<char>) -> Result<int, DurationError> {
    if !well_formed(text) {
        Err(DurationError::Malformed)
    } else if number(digits_of(text)) > MAX_SECONDS || days(
        number(digits_of(text)),
        unit_of(text),
    ) * SECONDS_PER_DAY > MAX_SECONDS {
        Err(DurationError::TooLarge)
    } else {
        Ok(days(number(digits_of(text)), unit_of(text)) * SECONDS_PER_DAY * NANOS_PER_SECOND)
    }
}

fn unit_letter(c: char) -> (yes: bool)
    ensures
        yes == is_unit(c),
{
    c == 'd' || c == 'D' || c == 'w' || c == 'W' || c == 'm' || c == 'M' || c == 'y' || c == 'Y'
}

/// Reads a duration: a number with at most one unit letter behind it, `d`
/// for days, `w` for weeks, `m` for months or `y` for years, in either case;
/// a number alone counts days.
pub fn parse_duration(s: &str) -> (r: Result<Duration, DurationError>)
    ensures
        match parsed(s@) {
            Ok(nanos) => r is Ok && r.unwrap().nanos == nanos && r.unwrap().wf(),
            Err(e) => r == Err::<Duration, DurationError>(e),
        },
{
    let len = s.unicode_len();
    if len == 0 {
        return Err(DurationError::Malformed);
    }
    let last = s.get_char(len - 1);
    let has_unit = unit_letter(last);
    let unit = if has_unit {
        last
    } else {
        'd'
    };
    let count = if has_unit {
        len - 1
    } else {
        len
    };
    let ghost digits = digits_of(s@);
    assert(digits =~= s@.take(count as int));
    if count == 0 {
        return Err(DurationError::Malformed);
    }
    let mut i: usize = 0;
    while i < count
        invariant
            i <= count <= len,
            len == s@.len(),
            digits == s@.take(count as int),
            digits == digits_of(s@),
            unit == unit_of(s@),
            forall|j: int| 0 <= j < i ==> is_digit(#[trigger] digits[j]),
        decreases count - i,
    {
        let c = s.get_char(i);
        if !(48 <= c as u32 && c as u32 <= 57) {
            assert(!is_digit(digits[i as int]));
            return Err(DurationError::Malformed);
        }
        i += 1;
    }
    let mut n: u128 = 0;
    let mut too_large = false;
    let mut k: usize = 0;
    while k < count
        invariant
            k <= count <= len,
            len == s@.len(),
            digits == s@.take(count as int),
            digits == digits_of(s@),
            unit == unit_of(s@),
            forall|j: int| 0 <= j < count ==> is_digit(#[trigger] digits[j]),
            !too_large ==> n == number(digits.take(k as int)) && n <= MAX_SECONDS,
            too_large ==> number(digits.take(k as int)) > MAX_SECONDS,
        decreases count - k,
    {
        let c = s.get_char(k);
        proof {
            assert(digits.take(k + 1).drop_last() =~= digits.take(k as int));
            assert(digits.take(k + 1).last() == digits[k as int]);
            assert(is_digit(digits[k as int]));
        }
        if !too_large {
            n = n * 10 + (c as u32 - 48) as u128;
            if n > MAX_SECONDS {
                too_large = true;
            }
        }
        k += 1;
    }
    proof {
        assert(digits.take(count as int) =~= digits);
    }
    if too_large {
        return Err(DurationError::TooLarge);
    }
    let whole_days: u128 = if unit == 'd' || unit == 'D' {
        n
    } else if unit == 'w' || unit == 'W' {
        7 * n
    } else if unit == 'm' || unit == 'M' {
        (7 * n * 52) / 12
    } else {
        7 * (n * 52)
    };
    let seconds: u128 = whole_days * SECONDS_PER_DAY;
    if seconds > MAX_SECONDS {
        return Err(DurationError::TooLarge);
    }
    Ok(Duration { nanos: (seconds as i128) * NANOS_PER_SECOND })
}

} // verus!
