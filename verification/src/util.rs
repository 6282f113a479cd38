//! An elapsed time as a short text: a whole count followed by the suffix of
//! the unit it is counted in.

use vstd::prelude::*;

verus! {

/// Nanoseconds in a microsecond.
pub const MICROSECOND: i64 = 1_000;

/// Nanoseconds in a millisecond.
pub const MILLISECOND: i64 = 1_000_000;

/// Nanoseconds in a second.
pub const SECOND: i64 = 1_000_000_000;

/// Nanoseconds in a minute.
pub const MINUTE: i64 = 60_000_000_000;

/// Nanoseconds in an hour.
pub const HOUR: i64 = 3_600_000_000_000;

/// Nanoseconds in a day.
pub const DAY: i64 = 86_400_000_000_000;

/// Nanoseconds in a week.
pub const WEEK: i64 = 604_800_000_000_000;

/// Nanoseconds in a month, taken as 2.628e15: a twelfth of a year of 365 days.
pub const MONTH: i64 = 2_628_000_000_000_000;

/// Nanoseconds in a year, taken as 3.154e16.
pub const YEAR: i64 = 31_540_000_000_000_000;

/// The units an elapsed time is counted in, shortest first.
#[derive(Clone, Copy, Debug, PartialEq, Eq, Structural)]
pub enum TimeUnit {
    Nanosecond,
    Microsecond,
    Millisecond,
    Second,
    Minute,
    Hour,
    Day,
    Week,
    Month,
    Year,
}

impl TimeUnit {
    /// Nanoseconds in one unit.
    pub open spec fn spec_nanos(self) -> int {
        match self {
            TimeUnit::Nanosecond => 1,
            TimeUnit::Microsecond => MICROSECOND as int,
            TimeUnit::Millisecond => MILLISECOND as int,
            TimeUnit::Second => SECOND as int,
            TimeUnit::Minute => MINUTE as int,
            TimeUnit::Hour => HOUR as int,
            TimeUnit::Day => DAY as int,
            TimeUnit::Week => WEEK as int,
            TimeUnit::Month => MONTH as int,
            TimeUnit::Year => YEAR as int,
        }
    }

    /// The suffix that follows a count in this unit. Units of one letter are
    /// followed by a space, so that every suffix is two characters wide.
    pub open spec fn spec_suffix(self) -> Seq<char> {
        match self {
            TimeUnit::Nanosecond => "ns"@,
            TimeUnit::Microsecond => "µs"@,
            TimeUnit::Millisecond => "ms"@,
            TimeUnit::Second => "s "@,
            TimeUnit::Minute => "m "@,
            TimeUnit::Hour => "h "@,
            TimeUnit::Day => "d "@,
            TimeUnit::Week => "w "@,
            TimeUnit::Month => "mo"@,
            TimeUnit::Year => "y "@,
        }
    }

    /// How many whole units a time of `nanoseconds` holds. The rest is cut
    /// off, not rounded.
    pub open spec fn spec_count(self, nanoseconds: int) -> int {
        match self {
            TimeUnit::Nanosecond => nanoseconds,
            TimeUnit::Microsecond => nanoseconds / (MICROSECOND as int),
            TimeUnit::Millisecond => nanoseconds / (MILLISECOND as int),
            TimeUnit::Second => nanoseconds / (SECOND as int),
            TimeUnit::Minute => nanoseconds / (MINUTE as int),
            TimeUnit::Hour => nanoseconds / (HOUR as int),
            TimeUnit::Day => nanoseconds / (DAY as int),
            TimeUnit::Week => nanoseconds / (WEEK as int),
            TimeUnit::Month => nanoseconds / (MONTH as int),
            TimeUnit::Year => nanoseconds / (YEAR as int),
        }
    }

    /// The unit in which a time of `nanoseconds` is counted: each unit takes
    /// over at the time that is exactly one of it. Times below a microsecond,
    /// negative ones too, are counted in nanoseconds.
    pub open spec fn spec_of(nanoseconds: int) -> TimeUnit {
        if nanoseconds < MICROSECOND {
            TimeUnit::Nanosecond
        } else if nanoseconds < MILLISECOND {
            TimeUnit::Microsecond
        } else if nanoseconds < SECOND {
            TimeUnit::Millisecond
        } else if nanoseconds < MINUTE {
            TimeUnit::Second
        } else if nanoseconds < HOUR {
            TimeUnit::Minute
        } else if nanoseconds < DAY {
            TimeUnit::Hour
        } else if nanoseconds < WEEK {
            TimeUnit::Day
        } else if nanoseconds < MONTH {
            TimeUnit::Week
        } else if nanoseconds < YEAR {
            TimeUnit::Month
        } else {
            TimeUnit::Year
        }
    }

    /// Nanoseconds in one unit.
    pub fn nanos(self) -> (nanos: i64)
        ensures
            nanos == self.spec_nanos(),
    {
        match self {
            TimeUnit::Nanosecond => 1,
            TimeUnit::Microsecond => MICROSECOND,
            TimeUnit::Millisecond => MILLISECOND,
            TimeUnit::Second => SECOND,
            TimeUnit::Minute => MINUTE,
            TimeUnit::Hour => HOUR,
            TimeUnit::Day => DAY,
            TimeUnit::Week => WEEK,
            TimeUnit::Month => MONTH,
            TimeUnit::Year => YEAR,
        }
    }

    /// The suffix that follows a count in this unit.
    pub fn suffix(self) -> (suffix: &'static str)
        ensures
            suffix@ == self.spec_suffix(),
    {
        match self {
            TimeUnit::Nanosecond => "ns",
            TimeUnit::Microsecond => "µs",
            TimeUnit::Millisecond => "ms",
            TimeUnit::Second => "s ",
            TimeUnit::Minute => "m ",
            TimeUnit::Hour => "h ",
            TimeUnit::Day => "d ",
            TimeUnit::Week => "w ",
            TimeUnit::Month => "mo",
            TimeUnit::Year => "y ",
        }
    }

    /// The unit in which a time of `nanoseconds` is counted.
    pub fn of(nanoseconds: i64) -> (unit: TimeUnit)
        ensures
            unit == Self::spec_of(nanoseconds as int),
    {
        if nanoseconds < MICROSECOND {
            TimeUnit::Nanosecond
        } else if nanoseconds < MILLISECOND {
            TimeUnit::Microsecond
        } else if nanoseconds < SECOND {
            TimeUnit::Millisecond
        } else if nanoseconds < MINUTE {
            TimeUnit::Second
        } else if nanoseconds < HOUR {
            TimeUnit::Minute
        } else if nanoseconds < DAY {
            TimeUnit::Hour
        } else if nanoseconds < WEEK {
            TimeUnit::Day
        } else if nanoseconds < MONTH {
            TimeUnit::Week
        } else if nanoseconds < YEAR {
            TimeUnit::Month
        } else {
            TimeUnit::Year
        }
    }
}

/// The character of one decimal digit.
pub open spec fn digit(d: int) -> char {
    if d == 0 {
        '0'
    } else if d == 1 {
        '1'
    } else if d == 2 {
        '2'
    } else if d == 3 {
        '3'
    } else if d == 4 {
        '4'
    } else if d == 5 {
        '5'
    } else if d == 6 {
        '6'
    } else if d == 7 {
        '7'
    } else if d == 8 {
        '8'
    } else {
        '9'
    }
}

/// The decimal digits of `n`, most significant first, without leading zeros.
pub open spec fn decimal_digits(n: nat) -> Seq<char>
    decreases n,
{
    if n < 10 {
        seq![digit(n as int)]
    } else {
        decimal_digits(n / 10) + seq![digit((n % 10) as int)]
    }
}

/// `n` in decimal, with a minus sign in front where it is negative.
pub open spec fn decimal(n: int) -> Seq<char> {
    if n < 0 {
        seq!['-'] + decimal_digits((-n) as nat)
    } else {
        decimal_digits(n as nat)
    }
}

/// How many whole units of its own unit a time of `nanoseconds` holds.
pub open spec fn whole_units(nanoseconds: int) -> int {
    TimeUnit::spec_of(nanoseconds).spec_count(nanoseconds)
}

/// The text of a time of `nanoseconds`: the count of whole units, then the
/// suffix of the unit, with nothing between them.
pub open spec fn duration_text(nanoseconds: int) -> Seq<char> {
    decimal(whole_units(nanoseconds)) + TimeUnit::spec_of(nanoseconds).spec_suffix()
}

/// The count is the time divided by the length of its unit, cut off to a
/// whole number.
pub proof fn lemma_count_is_quotient(nanoseconds: int)
    ensures
        whole_units(nanoseconds) == nanoseconds / TimeUnit::spec_of(nanoseconds).spec_nanos(),
{
}

/// A time of at least a nanosecond is counted in the longest unit that it
/// holds at least once: its unit is no longer than the time, and no unit
/// that is no longer than the time is longer than its unit.
pub proof fn lemma_unit_is_longest_that_fits(nanoseconds: int, other: TimeUnit)
    requires
        nanoseconds >= 1,
    ensures
        TimeUnit::spec_of(nanoseconds).spec_nanos() <= nanoseconds,
        other.spec_nanos() <= nanoseconds ==> other.spec_nanos() <= TimeUnit::spec_of(
            nanoseconds,
        ).spec_nanos(),
{
}

/// The count of a time that is not negative has at most three digits, and
/// is not zero unless the time is.
pub proof fn lemma_count_is_short(nanoseconds: int)
    requires
        0 <= nanoseconds <= i64::MAX,
    ensures
        0 <= whole_units(nanoseconds) < 1000,
        nanoseconds >= 1 ==> whole_units(nanoseconds) >= 1,
{
}

/// A negative time is shown as it is, in nanoseconds.
pub proof fn lemma_negative_time_in_nanoseconds(nanoseconds: int)
    requires
        nanoseconds < 0,
    ensures
        duration_text(nanoseconds) == decimal(nanoseconds) + "ns"@,
{
}

/// The text of one decimal digit.
fn digit_text(d: u64) -> (text: &'static str)
    requires
        d < 10,
    ensures
        text@ == seq![digit(d as int)],
{
    proof {
        reveal_strlit("0");
        reveal_strlit("1");
        reveal_strlit("2");
        reveal_strlit("3");
        reveal_strlit("4");
        reveal_strlit("5");
        reveal_strlit("6");
        reveal_strlit("7");
        reveal_strlit("8");
        reveal_strlit("9");
    }
    if d == 0 {
        "0"
    } else if d == 1 {
        "1"
    } else if d == 2 {
        "2"
    } else if d == 3 {
        "3"
    } else if d == 4 {
        "4"
    } else if d == 5 {
        "5"
    } else if d == 6 {
        "6"
    } else if d == 7 {
        "7"
    } else if d == 8 {
        "8"
    } else {
        "9"
    }
}

/// Appends the decimal digits of `n` to `text`.
fn append_digits(text: &mut String, n: u64)
    ensures
        final(text)@ == old(text)@ + decimal_digits(n as nat),
    decreases n,
{
    if n >= 10 {
        append_digits(text, n / 10);
    }
    text.append(digit_text(n % 10));
}

/// Appends `n` in decimal to `text`.
fn append_integer(text: &mut String, n: i64)
    ensures
        final(text)@ == old(text)@ + decimal(n as int),
{
    if n < 0 {
        proof {
            reveal_strlit("-");
        }
        text.append("-");
        let magnitude: u64 = if n == i64::MIN {
            9_223_372_036_854_775_808
        } else {
            (-n) as u64
        };
        append_digits(text, magnitude);
    } else {
        append_digits(text, n as u64);
    }
}

/// Formats an elapsed time of `nanoseconds` as a whole count and a unit.
///
/// The unit is the longest one that the time holds at least once; the count
/// is cut off to a whole number. A time of zero gives `0ns`, and a negative
/// time is counted in nanoseconds.
pub fn format_duration(nanoseconds: i64) -> (text: String)
    ensures
        text@ == duration_text(nanoseconds as int),
{
    let unit = TimeUnit::of(nanoseconds);
    let count: i64 = if nanoseconds < MICROSECOND {
        nanoseconds
    } else {
        nanoseconds / unit.nanos()
    };
    let mut text = String::new();
    append_integer(&mut text, count);
    text.append(unit.suffix());
    text
}

} // verus!
