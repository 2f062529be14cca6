//! Instants, as the memory stores keep them.

use vstd::prelude::*;

verus! {

/// An instant: the whole seconds since 1970-01-01T00:00:00Z, rounded down, and the nanoseconds
/// past them. A leap second has more than a billion nanoseconds.
#[derive(Debug, Clone, Copy, PartialEq, Eq, Structural)]
pub struct Timestamp {
    pub seconds: i64,
    pub nanos: u32,
}

impl Timestamp {
    /// Whether the instant is one of those that the calendar covers: the years from -262143 to
    /// 262142, a leap second only as the last second of a minute.
    pub open spec fn in_calendar(self) -> bool {
        &&& -8_334_601_228_800 <= self.seconds <= 8_210_266_876_799
        &&& self.nanos < 1_000_000_000 || (self.nanos < 2_000_000_000 && self.seconds % 60 == 59)
    }

    /// Whether the instant is one that a clock can show: after 1970, in the calendar, and no
    /// leap second, of which a clock counts none.
    pub open spec fn on_clock(self) -> bool {
        self.in_calendar() && self.seconds >= 0 && self.nanos < 1_000_000_000
    }

    /// Whether the instant is in one of the years from 0 to 9999, and not a leap second.
    pub open spec fn has_plain_year(self) -> bool {
        -62_167_219_200 <= self.seconds <= 253_402_300_799 && self.nanos < 1_000_000_000
    }
}

/// The instant that `chrono` reads from a text, or the text of the error.
pub uninterp spec fn instant_read(text: Seq<char>) -> Result<Timestamp, Seq<char>>;

/// The RFC 3339 text that `chrono` writes for an instant.
pub uninterp spec fn instant_written(instant: Timestamp) -> Seq<char>;

/// Whether a text is read as an instant.
pub open spec fn reads_as(text: Seq<char>, instant: Timestamp) -> bool {
    instant_read(text) == Ok::<Timestamp, Seq<char>>(instant)
}

/// What the result of reading an instant holds.
pub open spec fn read_view(result: Result<Timestamp, String>) -> Result<Timestamp, Seq<char>> {
    match result {
        Ok(t) => Ok(t),
        Err(e) => Err(e@),
    }
}

/// Whether an instant that was read, if one was, is in the calendar.
pub open spec fn read_in_calendar(result: Result<Timestamp, String>) -> bool {
    match result {
        Ok(t) => t.in_calendar(),
        Err(_) => true,
    }
}

/// `str::parse` into a `chrono::DateTime<Utc>`, as its seconds and nanoseconds, and the error as
/// its text: the outcome depends on the text alone, and the instant is in the calendar.
#[verifier::external_body]
pub(crate) fn read_instant(text: &str) -> (r: Result<Timestamp, String>)
    ensures
        read_view(r) == instant_read(text@),
        read_in_calendar(r),
{
    match text.parse::<chrono::DateTime<chrono::Utc>>() {
        Ok(t) => Ok(Timestamp { seconds: t.timestamp(), nanos: t.timestamp_subsec_nanos() }),
        Err(e) => Err(e.to_string()),
    }
}

/// `DateTime::<Utc>::to_rfc3339`: the text depends on the instant alone, and reading it gives
/// the instant back, at least for instants of the years from 0 to 9999.
#[verifier::external_body]
pub(crate) fn write_instant(instant: Timestamp) -> (r: String)
    requires
        instant.in_calendar(),
    ensures
        r@ == instant_written(instant),
        instant.has_plain_year() ==> reads_as(r@, instant),
{
    chrono::DateTime::from_timestamp(instant.seconds, instant.nanos).unwrap().to_rfc3339()
}

/// `chrono::Utc::now`, as its seconds and nanoseconds: an instant after 1970 in the calendar, and
/// never a leap second, because the system clock counts none. Nothing else is stated of it. (With
/// a clock that is set to before 1970 the call panics.)
#[verifier::external_body]
fn present() -> (r: Timestamp)
    ensures
        r.on_clock(),
{
    let now = chrono::Utc::now();
    Timestamp { seconds: now.timestamp(), nanos: now.timestamp_subsec_nanos() }
}

impl Timestamp {
    /// The present instant, which is after 1970 and never a leap second.
    pub fn now() -> (r: Self)
        ensures
            r.on_clock(),
    {
        present()
    }

    /// The instant that a text names, if it names one.
    pub fn parse(text: &str) -> (r: Result<Self, String>)
        ensures
            read_view(r) == instant_read(text@),
            read_in_calendar(r),
    {
        read_instant(text)
    }

    /// The RFC 3339 text of the instant.
    pub fn to_rfc3339(self) -> (r: String)
        requires
            self.in_calendar(),
        ensures
            r@ == instant_written(self),
            self.has_plain_year() ==> reads_as(r@, self),
    {
        write_instant(self)
    }

    /// Whether the instant is one of those that the calendar covers.
    pub fn is_in_calendar(&self) -> (r: bool)
        ensures
            r == self.in_calendar(),
    {
        let plain: bool = self.nanos < 1_000_000_000;
        // The last second of a minute, counted from the first second of the calendar, which
        // begins a minute.
        let in_range: bool = -8_334_601_228_800 <= self.seconds && self.seconds
            <= 8_210_266_876_799;
        in_range && (plain || (self.nanos < 2_000_000_000 && (self.seconds + 8_334_601_228_800) % 60
            == 59))
    }

    /// Whether the instant lies in a later second than `other`.
    pub fn later_second(&self, other: &Self) -> (r: bool)
        ensures
            r == (self.seconds > other.seconds),
    {
        self.seconds > other.seconds
    }
}

/// How many days there are from 1970 to the beginning of a year, by the rule of leap years: every
/// fourth, but not every hundredth, but every four-hundredth.
pub open spec fn days_before(year: int) -> int {
    365 * (year - 1970) + leap_years_until(year) - leap_years_until(1970)
}

/// How many leap years there are before a year, counted from the year 1.
pub open spec fn leap_years_until(year: int) -> int {
    (year - 1) / 4 - (year - 1) / 100 + (year - 1) / 400
}

/// The calendar covers whole years, and so do the plain years.
pub proof fn calendar_covers_whole_years(instant: Timestamp)
    requires
        instant.nanos < 1_000_000_000,
    ensures
        instant.in_calendar() <==> 86400 * days_before(-262143) <= instant.seconds < 86400
            * days_before(262143),
        instant.has_plain_year() <==> 86400 * days_before(0) <= instant.seconds < 86400
            * days_before(10000),
        instant.on_clock() <==> 0 <= instant.seconds < 86400 * days_before(262143),
{
}

/// A leap second is the last of a minute.
pub proof fn leap_second_ends_a_minute(instant: Timestamp)
    requires
        instant.nanos >= 1_000_000_000,
        instant.in_calendar(),
    ensures
        instant.seconds % 60 == 59,
        instant.nanos < 2_000_000_000,
        !instant.on_clock(),
        !instant.has_plain_year(),
{
}

/// An instant of a plain year that was written is what is read of its text.
pub proof fn written_instant_is_read(
    instant: Timestamp,
    text: String,
    given: &str,
    read: Result<Timestamp, String>,
)
    requires
        instant.in_calendar(),
        instant.has_plain_year(),
        call_ensures(Timestamp::to_rfc3339, (instant,), text),
        given@ == text@,
        call_ensures(Timestamp::parse, (given,), read),
    ensures
        read matches Ok(t) && t.seconds == instant.seconds && t.nanos == instant.nanos,
{
    assert(reads_as(text@, instant));
}

} // verus!
