use vstd::prelude::*;
use crate::text::{decimal, digit_char, padded2, push_padded2};

verus! {

/// The number of seconds in a day.
pub const SECONDS_PER_DAY: u32 = 86400;

/// The largest number of whole seconds that a time span may hold: a span is
/// counted in milliseconds that fit in an `i64`.
pub const SPAN_LIMIT: i64 = 9_223_372_036_854_775;

/// A time of day, held as the number of seconds since midnight; it always
/// lies within one day. Its plain value (`@`) is that number of seconds.
#[derive(Clone, Copy, Debug, PartialEq, Eq, Structural)]
pub struct ClockTime {
    secs: u32,
}

/// The text `HH:MM:SS` of a number of seconds since midnight, each field written
/// with at least two digits.
pub open spec fn clock_text(secs: nat) -> Seq<char> {
    padded2(secs / 3600) + seq![':'] + padded2((secs % 3600) / 60) + seq![':'] + padded2(secs % 60)
}

/// The number that the two decimal digits at `i` and `i + 1` of `s` write.
pub open spec fn two_digit_value(s: Seq<char>, i: int) -> int {
    (s[i] as int - '0' as int) * 10 + (s[i + 1] as int - '0' as int)
}

/// The two characters of `padded2(n)` for `n < 100` are its tens and units.
proof fn lemma_padded2_digits(n: nat)
    requires
        n < 100,
    ensures
        padded2(n).len() == 2,
        '0' <= padded2(n)[0] <= '9',
        '0' <= padded2(n)[1] <= '9',
        two_digit_value(padded2(n), 0) == n,
{
    if n >= 10 {
        assert(decimal(n / 10) =~= seq![digit_char((n / 10) as int)]);
    }
}

/// The text of a time of day reads back as that time: `HH:MM:SS`, eight
/// characters, whose hours (below 24), minutes and seconds (below 60) make up
/// the seconds since midnight.
pub proof fn lemma_clock_text_reads_back(secs: nat)
    requires
        secs < SECONDS_PER_DAY,
    ensures
        clock_text(secs).len() == 8,
        clock_text(secs)[2] == ':',
        clock_text(secs)[5] == ':',
        forall|i: int| 0 <= i < 8 && i != 2 && i != 5 ==> '0' <= #[trigger] clock_text(secs)[i] <= '9',
        two_digit_value(clock_text(secs), 0) < 24,
        two_digit_value(clock_text(secs), 3) < 60,
        two_digit_value(clock_text(secs), 6) < 60,
        two_digit_value(clock_text(secs), 0) * 3600 + two_digit_value(clock_text(secs), 3) * 60
            + two_digit_value(clock_text(secs), 6) == secs,
{
    let h = secs / 3600;
    let m = (secs % 3600) / 60;
    let sec = secs % 60;
    lemma_padded2_digits(h);
    lemma_padded2_digits(m);
    lemma_padded2_digits(sec);
    let t = clock_text(secs);
    assert(t =~= padded2(h) + seq![':'] + padded2(m) + seq![':'] + padded2(sec));
    assert(t[0] == padded2(h)[0] && t[1] == padded2(h)[1]);
    assert(t[3] == padded2(m)[0] && t[4] == padded2(m)[1]);
    assert(t[6] == padded2(sec)[0] && t[7] == padded2(sec)[1]);
    assert(h * 3600 + m * 60 + sec == secs);
}

impl View for ClockTime {
    type V = u32;

    closed spec fn view(&self) -> u32 {
        self.secs
    }
}

impl ClockTime {
    /// A time lies within one day.
    #[verifier::type_invariant]
    spec fn in_one_day(self) -> bool {
        self.secs < SECONDS_PER_DAY
    }

    /// The time `secs` seconds after midnight, where that is within the day.
    pub fn new(secs: u32) -> (r: Option<ClockTime>)
        ensures
            r is Some <==> secs < SECONDS_PER_DAY,
            r matches Some(t) ==> t@ == secs,
    {
        if secs < SECONDS_PER_DAY {
            Some(ClockTime { secs })
        } else {
            None
        }
    }

    /// Midnight.
    pub fn midnight() -> (r: ClockTime)
        ensures
            r@ == 0,
    {
        ClockTime { secs: 0 }
    }

    /// The seconds since midnight, which are fewer than a day's.
    pub fn secs(&self) -> (r: u32)
        ensures
            r == self@,
            r < SECONDS_PER_DAY,
    {
        proof {
            use_type_invariant(self);
        }
        self.secs
    }

    /// The time `hour:min:sec`, when each field is in range.
    pub fn from_hms_opt(hour: u32, min: u32, sec: u32) -> (r: Option<ClockTime>)
        ensures
            r is Some <==> (hour < 24 && min < 60 && sec < 60),
            r matches Some(t) ==> t@ == hour * 3600 + min * 60 + sec,
    {
        if hour >= 24 || min >= 60 || sec >= 60 {
            None
        } else {
            Some(ClockTime { secs: hour * 3600 + min * 60 + sec })
        }
    }

    /// The time written as `HH:MM:SS`.
    pub fn to_string(&self) -> (r: String)
        ensures
            r@ == clock_text(self@ as nat),
    {
        let mut r = String::new();
        push_padded2(&mut r, (self.secs / 3600) as u64);
        r.append(":");
        push_padded2(&mut r, ((self.secs % 3600) / 60) as u64);
        r.append(":");
        push_padded2(&mut r, (self.secs % 60) as u64);
        proof {
            reveal_strlit(":");
            assert(r@ =~= clock_text(self.secs as nat));
        }
        r
    }
}

/// A time of day as chrono's `NaiveTime` holds it: whole seconds since
/// midnight and a fraction in nanoseconds, which reaches a second or more only
/// within a leap second (written `60` in the seconds field). Times compare by
/// their seconds, then by their fraction.
#[derive(Clone, Copy, Debug, PartialEq, Eq, Structural)]
pub struct TimeOfDay {
    pub secs: ClockTime,
    pub nanos: u32,
}

impl View for TimeOfDay {
    type V = (u32, u32);

    open spec fn view(&self) -> (u32, u32) {
        (self.secs@, self.nanos)
    }
}

impl TimeOfDay {
    /// The time `t`, with no fraction of a second.
    pub fn whole(t: ClockTime) -> (r: TimeOfDay)
        ensures
            r@ == (t@, 0u32),
    {
        TimeOfDay { secs: t, nanos: 0 }
    }
}

/// A whole-second time `s` is at or after the time `t` (seconds, fraction).
pub open spec fn at_or_after(s: u32, t: (u32, u32)) -> bool {
    s > t.0 || (s == t.0 && t.1 == 0)
}

/// A whole-second time `s` is at or before the time `t` (seconds, fraction).
pub open spec fn at_or_before(s: u32, t: (u32, u32)) -> bool {
    s <= t.0
}

/// Whether the whole-second time `s` is at or after `t`.
pub fn reached(s: ClockTime, t: TimeOfDay) -> (r: bool)
    ensures
        r == at_or_after(s@, t@),
{
    let a = s.secs();
    let b = t.secs.secs();
    a > b || (a == b && t.nanos == 0)
}

/// A signed span of time, held in whole seconds.
#[derive(Clone, Copy, Debug, PartialEq, Eq, Structural)]
pub struct TimeSpan {
    pub seconds: i64,
}

/// Integer division that rounds toward zero, as Rust's `/` does.
pub open spec fn div_toward_zero(a: int, b: int) -> int {
    if a >= 0 {
        a / b
    } else {
        -((-a) / b)
    }
}

impl TimeSpan {
    /// A span lies within the range that a span may hold.
    pub open spec fn wf(self) -> bool {
        -SPAN_LIMIT <= self.seconds <= SPAN_LIMIT
    }

    /// The number of whole minutes in the span, rounded toward zero.
    pub fn num_minutes(&self) -> (r: i64)
        ensures
            r == div_toward_zero(self.seconds as int, 60),
    {
        self.seconds / 60
    }
}

/// A calendar date, held as the number of days since the start of the common
/// era (January 1 of year 1 is day 1).
#[derive(Clone, Copy, Debug, PartialEq, Eq, Structural)]
pub struct Date {
    pub days_from_ce: i32,
}

} // verus!

verus! {

/// chrono's error type for text that does not match a time format.
#[verifier::external_type_specification]
#[verifier::external_body]
pub struct ExParseError(chrono::ParseError);

/// What `chrono::NaiveTime::parse_from_str(text, format)` yields, as whole
/// seconds since midnight and the fraction in nanoseconds, or `None` where it
/// reports an error.
pub uninterp spec fn chrono_parsed_time(text: Seq<char>, format: Seq<char>) -> Option<(u32, u32)>;

/// Parses `text` with the strftime-style `format` through
/// `chrono::NaiveTime::parse_from_str`, and keeps the whole seconds since
/// midnight (`num_seconds_from_midnight`, below 86400) and the fraction
/// (`nanosecond`, below two seconds' worth: a second or more only within a
/// leap second) of the time it yields. The contract names the outcome
/// (`chrono_parsed_time`); of the format `%H:%M` it states that the fraction
/// is 0, as `Parsed::to_naive_time` takes no seconds and no fraction where the
/// format reads none.
#[verifier::external_body]
pub(crate) fn parse_clock_time(text: &str, format: &str) -> (r: Result<TimeOfDay, chrono::ParseError>)
    ensures
        (r is Ok) == (chrono_parsed_time(text@, format@) is Some),
        r matches Ok(t) ==> Some(t@) == chrono_parsed_time(text@, format@) && t.nanos < 2_000_000_000,
        format@ == "%H:%M"@ ==> (r matches Ok(t) ==> t.nanos == 0),
{
    match chrono::NaiveTime::parse_from_str(text, format) {
        Ok(t) => Ok(TimeOfDay {
            secs: ClockTime { secs: chrono::Timelike::num_seconds_from_midnight(&t) },
            nanos: chrono::Timelike::nanosecond(&t),
        }),
        Err(e) => Err(e),
    }
}

} // verus!
