//! Instants in UTC, held as a count of seconds since the Unix epoch and a
//! count of nanoseconds into that second, the way `chrono::DateTime<Utc>`
//! exposes them through `timestamp()` and `timestamp_subsec_nanos()`.
use vstd::prelude::*;

verus! {

/// The earliest second that `chrono` can represent (`DateTime::<Utc>::MIN_UTC`).
pub const MIN_SECS: i64 = -8334601228800;

/// The last second that `chrono` can represent (`DateTime::<Utc>::MAX_UTC`).
pub const MAX_SECS: i64 = 8210266876799;

pub const SECS_PER_DAY: i64 = 86400;

/// One instant in UTC.
#[derive(Clone, Copy, Debug, PartialEq, Eq, Structural)]
pub struct Timestamp {
    pub secs: i64,
    pub nanos: u32,
}

/// The second of the day (0 to 86399) of a count of seconds since the epoch.
pub open spec fn second_of_day(secs: int) -> int {
    secs % 86400
}

impl Timestamp {
    /// The instants that `chrono` can hold: the second lies in its range, and a
    /// nanosecond count of one second or more marks a leap second, which only
    /// the last second of a minute can have.
    pub open spec fn wf(self) -> bool {
        &&& MIN_SECS <= self.secs <= MAX_SECS
        &&& self.nanos < 2_000_000_000
        &&& self.nanos >= 1_000_000_000 ==> self.secs % 60 == 59
    }

    /// An ordinary instant: not inside a leap second.
    pub open spec fn is_plain(self) -> bool {
        self.wf() && self.nanos < 1_000_000_000
    }

    /// `self` comes no later than `other`.
    pub open spec fn spec_le(self, other: Timestamp) -> bool {
        self.secs < other.secs || (self.secs == other.secs && self.nanos <= other.nanos)
    }

    /// Compares two instants in time order.
    pub fn le(&self, other: &Timestamp) -> (r: bool)
        ensures
            r == self.spec_le(*other),
    {
        self.secs < other.secs || (self.secs == other.secs && self.nanos <= other.nanos)
    }

    /// The second of the day, counted in UTC.
    pub fn second_of_day(&self) -> (s: i64)
        requires
            self.wf(),
        ensures
            s == second_of_day(self.secs as int),
            0 <= s < 86400,
    {
        // MIN_SECS falls on the first second of a day, so counting from it
        // keeps the remainder non-negative.
        let from_min: i64 = self.secs - MIN_SECS;
        assert(MIN_SECS % 86400 == 0);
        let r: i64 = from_min % SECS_PER_DAY;
        proof {
            vstd::arithmetic::div_mod::lemma_mod_multiples_vanish(96465292, self.secs as int, 86400);
        }
        r
    }
}


impl Timestamp {
    /// The same instant with the hour of its day replaced, as
    /// `chrono::Timelike::with_hour` computes it in UTC: minutes, seconds and
    /// nanoseconds stay; an hour of 24 or more gives nothing.
    pub open spec fn spec_with_hour(self, hour: int) -> Option<Timestamp> {
        if hour >= 24 {
            None
        } else {
            let sod = second_of_day(self.secs as int);
            Some(Timestamp { secs: (self.secs - sod + hour * 3600 + sod % 3600) as i64, nanos: self.nanos })
        }
    }

    /// The same instant with the minute of its hour replaced, as
    /// `chrono::Timelike::with_minute` computes it in UTC.
    pub open spec fn spec_with_minute(self, minute: int) -> Option<Timestamp> {
        if minute >= 60 {
            None
        } else {
            let sod = second_of_day(self.secs as int);
            Some(Timestamp { secs: (self.secs - sod % 3600 + minute * 60 + sod % 60) as i64, nanos: self.nanos })
        }
    }

    pub fn with_hour(&self, hour: u32) -> (r: Option<Timestamp>)
        requires
            self.wf(),
        ensures
            r == self.spec_with_hour(hour as int),
            r matches Some(t) ==> t.wf() && (self.is_plain() ==> t.is_plain()),
    {
        if hour >= 24 {
            return None;
        }
        let sod = self.second_of_day();
        let h: i64 = hour as i64;
        proof {
            assert(MIN_SECS % 86400 == 0);
            assert(MAX_SECS % 86400 == 86399);
            vstd::arithmetic::div_mod::lemma_fundamental_div_mod(self.secs as int, 86400);
            vstd::arithmetic::div_mod::lemma_fundamental_div_mod(MIN_SECS as int, 86400);
            vstd::arithmetic::div_mod::lemma_fundamental_div_mod(MAX_SECS as int, 86400);
            lemma_day_start_in_range(self.secs as int);
            assert(sod % 3600 % 60 == sod % 60) by (nonlinear_arith) requires 0 <= sod;
            lemma_mod_60_of_day(self.secs as int);
        }
        Some(Timestamp { secs: self.secs - sod + h * 3600 + sod % 3600, nanos: self.nanos })
    }

    pub fn with_minute(&self, minute: u32) -> (r: Option<Timestamp>)
        requires
            self.wf(),
        ensures
            r == self.spec_with_minute(minute as int),
            r matches Some(t) ==> t.wf() && (self.is_plain() ==> t.is_plain()),
    {
        if minute >= 60 {
            return None;
        }
        let sod = self.second_of_day();
        let m: i64 = minute as i64;
        proof {
            vstd::arithmetic::div_mod::lemma_fundamental_div_mod(self.secs as int, 86400);
            lemma_day_start_in_range(self.secs as int);
            assert(sod % 3600 + 0 <= sod) by (nonlinear_arith) requires 0 <= sod;
            assert(sod - sod % 3600 + 3599 < 86400) by (nonlinear_arith) requires 0 <= sod < 86400;
            assert((sod - sod % 3600) % 60 == 0) by (nonlinear_arith) requires 0 <= sod;
            lemma_mod_60_of_day(self.secs as int);
        }
        Some(Timestamp { secs: self.secs - sod % 3600 + m * 60 + sod % 60, nanos: self.nanos })
    }

    /// The instant a whole number of seconds later (earlier, for a negative
    /// count), as `DateTime + chrono::Duration::seconds(n)` computes it for an
    /// instant outside a leap second.
    pub open spec fn spec_plus_seconds(self, n: int) -> Timestamp {
        Timestamp { secs: (self.secs + n) as i64, nanos: self.nanos }
    }

    pub fn plus_seconds(&self, n: i64) -> (r: Timestamp)
        requires
            self.is_plain(),
            MIN_SECS <= self.secs + n <= MAX_SECS,
        ensures
            r == self.spec_plus_seconds(n as int),
            r.is_plain(),
    {
        Timestamp { secs: self.secs + n, nanos: self.nanos }
    }
}

proof fn lemma_day_start_in_range(secs: int)
    requires
        MIN_SECS <= secs <= MAX_SECS,
    ensures
        MIN_SECS <= secs - secs % 86400,
        secs - secs % 86400 + 86399 <= MAX_SECS,
{
    vstd::arithmetic::div_mod::lemma_fundamental_div_mod(secs, 86400);
    vstd::arithmetic::div_mod::lemma_fundamental_div_mod(MIN_SECS as int, 86400);
    vstd::arithmetic::div_mod::lemma_fundamental_div_mod(MAX_SECS as int, 86400);
    let d = secs / 86400;
    assert(MIN_SECS / 86400 <= d) by {
        vstd::arithmetic::div_mod::lemma_div_is_ordered(MIN_SECS as int, secs, 86400);
    }
    assert(d <= MAX_SECS / 86400) by {
        vstd::arithmetic::div_mod::lemma_div_is_ordered(secs, MAX_SECS as int, 86400);
    }
    assert(86400 * (MIN_SECS / 86400) <= 86400 * d) by (nonlinear_arith)
        requires MIN_SECS / 86400 <= d;
    assert(86400 * d <= 86400 * (MAX_SECS / 86400)) by (nonlinear_arith)
        requires d <= MAX_SECS / 86400;
}

/// Counted from the start of its day, a second keeps its place in the minute.
proof fn lemma_mod_60_of_day(secs: int)
    ensures
        (secs % 86400) % 60 == secs % 60,
{
    vstd::arithmetic::div_mod::lemma_mod_mod(secs, 60, 1440);
}


/// The character of a decimal digit.
pub open spec fn digit_char(d: int) -> char {
    (d + 48) as char
}

/// A number below one hundred, written with two digits.
pub open spec fn two_digits(n: int) -> Seq<char> {
    seq![digit_char(n / 10), digit_char(n % 10)]
}

/// The clock time of an instant in Mountain Standard Time (seven hours
/// behind UTC), written `hh:mmAM` or `hh:mmPM` with a twelve-hour clock.
pub open spec fn clock_text(t: Timestamp) -> Seq<char> {
    let sod = second_of_day(t.secs - 7 * 3600);
    let hour = sod / 3600;
    let minute = (sod % 3600) / 60;
    let hour12 = if hour % 12 == 0 { 12 } else { hour % 12 };
    two_digits(hour12) + seq![':'] + two_digits(minute) + (if hour < 12 {
        seq!['A', 'M']
    } else {
        seq!['P', 'M']
    })
}

/// The text that `chrono`'s `DateTime::<Utc>::to_rfc3339` gives for the instant
/// with these seconds and nanoseconds.
pub uninterp spec fn rfc3339_text(secs: i64, nanos: u32) -> Seq<char>;

/// What `chrono::NaiveDateTime::parse_from_str` reads, as a UTC instant, from
/// a text in the format `%Y-%m-%dT%H:%M:%S.%f`: its seconds and nanoseconds, or
/// nothing where the text does not fit the format.
pub uninterp spec fn graph_datetime(text: Seq<char>) -> Option<(i64, u32)>;

/// Calls `chrono::DateTime::<Utc>::to_rfc3339` on the instant, built with
/// `DateTime::from_timestamp`, which gives a value for every instant that
/// `wf` admits. Claims only that the text is the one named by `rfc3339_text`.
#[verifier::external_body]
pub(crate) fn to_rfc3339(t: &Timestamp) -> (s: String)
    requires
        t.wf(),
    ensures
        s@ == rfc3339_text(t.secs, t.nanos),
{
    chrono::DateTime::from_timestamp(t.secs, t.nanos).expect("instant in range").to_rfc3339()
}

/// Calls `chrono`'s `with_timezone` to the fixed offset seven hours west of
/// UTC and `format("%I:%M%p")` on the instant. The claim is what chrono's
/// strftime documentation gives for `%I` (hour 01 to 12), `%M` (minute 00 to
/// 59) and `%p` (`AM` or `PM`), spelled out by `clock_text`.
#[verifier::external_body]
pub(crate) fn mountain_clock_text(t: &Timestamp) -> (s: String)
    requires
        t.wf(),
    ensures
        s@ == clock_text(*t),
{
    let mst = chrono::FixedOffset::west_opt(7 * 3600).expect("offset in range");
    chrono::DateTime::from_timestamp(t.secs, t.nanos).expect("instant in range").with_timezone(
        &mst,
    ).format("%I:%M%p").to_string()
}

/// Calls `chrono::NaiveDateTime::parse_from_str` with the format
/// `%Y-%m-%dT%H:%M:%S.%f` and reads the result as a UTC instant. Claims that
/// the result is the one named by `graph_datetime`, and that an instant that
/// chrono holds is one that `wf` admits.
#[verifier::external_body]
pub(crate) fn parse_graph_datetime(text: &str) -> (r: Option<Timestamp>)
    ensures
        match graph_datetime(text@) {
            Some(p) => r == Some(Timestamp { secs: p.0, nanos: p.1 }),
            None => r is None,
        },
        r matches Some(t) ==> t.wf(),
{
    match chrono::NaiveDateTime::parse_from_str(text, "%Y-%m-%dT%H:%M:%S.%f") {
        Ok(n) => Some(
            Timestamp { secs: n.and_utc().timestamp(), nanos: n.and_utc().timestamp_subsec_nanos() },
        ),
        Err(_) => None,
    }
}
} // verus!
