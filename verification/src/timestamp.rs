//! Instants, and the text forms they are read from and written to.
//!
//! An instant is held as plain integers: nanoseconds since the Unix epoch and
//! the offset from UTC, in seconds, that it was written with. Reading and
//! writing the text forms of instants is done by the `time` crate; each of
//! those calls stands behind one function of this module whose contract
//! names the result. Clock times of the form `hh:mm:ss` are read here.
use vstd::prelude::*;
use vstd::string::StrSliceExecFns;

verus! {

/// Nanoseconds in one second.
pub const NANOS_PER_SECOND: i128 = 1_000_000_000;

/// An instant together with the UTC offset it is displayed in.
///
/// Two timestamps denote the same instant when their `unix_nanos` agree; the
/// offset only matters when the timestamp is written out.
#[derive(Clone, Copy, Debug, PartialEq, Eq, Structural)]
pub struct Timestamp {
    /// Nanoseconds since 1970-01-01T00:00:00Z; negative before it.
    pub unix_nanos: i128,
    /// Offset from UTC in seconds; positive to the east.
    pub offset_seconds: i32,
}

/// What the `time` crate reads from an RFC 3339 text: the instant in Unix
/// nanoseconds and the written offset in seconds, or `None` where it rejects
/// the text.
pub uninterp spec fn rfc3339_reading(text: Seq<char>) -> Option<(int, int)>;

/// What the `time` crate reads from an RFC 2822 text: the instant in Unix
/// nanoseconds and the written offset in seconds, or `None` where it rejects
/// the text.
pub uninterp spec fn rfc2822_reading(text: Seq<char>) -> Option<(int, int)>;

/// The RFC 3339 text that the `time` crate writes for an instant and offset,
/// or `None` where it cannot represent or write them.
pub uninterp spec fn rfc3339_text(unix_nanos: int, offset_seconds: int) -> Option<Seq<char>>;

/// The default display text that the `time` crate writes for an instant and
/// offset, or `None` where it cannot represent them.
pub uninterp spec fn display_text(unix_nanos: int, offset_seconds: int) -> Option<Seq<char>>;

/// What the `time` crate reads from an ISO 8601 text of a date and a clock
/// time without offset, taken as UTC: the instant in Unix nanoseconds, or
/// `None` where it rejects the text.
pub uninterp spec fn iso8601_plain_reading(text: Seq<char>) -> Option<int>;

/// The timestamp that stands for a reading, if there is one.
pub open spec fn timestamp_of(reading: Option<(int, int)>) -> Option<Timestamp> {
    match reading {
        Some((nanos, offset)) => Some(
            Timestamp { unix_nanos: nanos as i128, offset_seconds: offset as i32 },
        ),
        None => None,
    }
}

/// `time::OffsetDateTime::parse` with the well-known `Rfc3339` description.
/// The contract claims only that the outcome is the one named
/// `rfc3339_reading` for this text, given as Unix nanoseconds
/// (`unix_timestamp_nanos`) and offset (`offset().whole_seconds()`).
#[verifier::external_body]
fn read_rfc3339(text: &str) -> (r: Option<Timestamp>)
    ensures
        r.is_some() == rfc3339_reading(text@).is_some(),
        r matches Some(t) ==> rfc3339_reading(text@) == Some(
            (t.unix_nanos as int, t.offset_seconds as int),
        ),
{
    match time::OffsetDateTime::parse(text, &time::format_description::well_known::Rfc3339) {
        Ok(t) => Some(
            Timestamp {
                unix_nanos: t.unix_timestamp_nanos(),
                offset_seconds: t.offset().whole_seconds(),
            },
        ),
        Err(_) => None,
    }
}

/// `time::OffsetDateTime::parse` with the well-known `Rfc2822` description.
/// The contract claims only that the outcome is the one named
/// `rfc2822_reading` for this text, given as Unix nanoseconds and offset.
#[verifier::external_body]
fn read_rfc2822(text: &str) -> (r: Option<Timestamp>)
    ensures
        r.is_some() == rfc2822_reading(text@).is_some(),
        r matches Some(t) ==> rfc2822_reading(text@) == Some(
            (t.unix_nanos as int, t.offset_seconds as int),
        ),
{
    match time::OffsetDateTime::parse(text, &time::format_description::well_known::Rfc2822) {
        Ok(t) => Some(
            Timestamp {
                unix_nanos: t.unix_timestamp_nanos(),
                offset_seconds: t.offset().whole_seconds(),
            },
        ),
        Err(_) => None,
    }
}

/// `time::PrimitiveDateTime::parse` with the well-known description
/// `Iso8601::DEFAULT`; what it reads is taken as UTC by `assume_utc`. The
/// contract claims only that the outcome is the one named
/// `iso8601_plain_reading` for this text, given as Unix nanoseconds.
#[verifier::external_body]
fn read_iso8601_plain(text: &str) -> (r: Option<i128>)
    ensures
        r.is_some() == iso8601_plain_reading(text@).is_some(),
        r matches Some(n) ==> iso8601_plain_reading(text@) == Some(n as int),
{
    match time::PrimitiveDateTime::parse(
        text,
        &time::format_description::well_known::Iso8601::DEFAULT,
    ) {
        Ok(t) => Some(t.assume_utc().unix_timestamp_nanos()),
        Err(_) => None,
    }
}

/// `time::OffsetDateTime::format` with the well-known `Rfc3339` description,
/// on the value built by `from_unix_timestamp_nanos` and moved to the offset
/// by `checked_to_offset`. `None` stands for any of the three refusing. The
/// contract claims only that the outcome is the one named `rfc3339_text`.
#[verifier::external_body]
fn write_rfc3339(t: Timestamp) -> (r: Option<String>)
    ensures
        r.is_some() == rfc3339_text(t.unix_nanos as int, t.offset_seconds as int).is_some(),
        r matches Some(s) ==> rfc3339_text(t.unix_nanos as int, t.offset_seconds as int) == Some(
            s@,
        ),
{
    let utc = time::OffsetDateTime::from_unix_timestamp_nanos(t.unix_nanos).ok()?;
    let offset = time::UtcOffset::from_whole_seconds(t.offset_seconds).ok()?;
    let local = utc.checked_to_offset(offset)?;
    local.format(&time::format_description::well_known::Rfc3339).ok()
}

/// The `Display` text of `time::OffsetDateTime`, on the value built by
/// `from_unix_timestamp_nanos` and moved to the offset by
/// `checked_to_offset`. `None` stands for either of those refusing. The
/// contract claims only that the outcome is the one named `display_text`.
#[verifier::external_body]
fn write_display(t: Timestamp) -> (r: Option<String>)
    ensures
        r.is_some() == display_text(t.unix_nanos as int, t.offset_seconds as int).is_some(),
        r matches Some(s) ==> display_text(t.unix_nanos as int, t.offset_seconds as int) == Some(
            s@,
        ),
{
    let utc = time::OffsetDateTime::from_unix_timestamp_nanos(t.unix_nanos).ok()?;
    let offset = time::UtcOffset::from_whole_seconds(t.offset_seconds).ok()?;
    let local = utc.checked_to_offset(offset)?;
    Some(local.to_string())
}

/// `time::OffsetDateTime::now_utc`. The instant depends on the clock, so the
/// contract says only what the crate documents of every result: its offset
/// is UTC.
#[verifier::external_body]
fn read_clock_utc() -> (r: Timestamp)
    ensures
        r.offset_seconds == 0,
{
    let t = time::OffsetDateTime::now_utc();
    Timestamp { unix_nanos: t.unix_timestamp_nanos(), offset_seconds: t.offset().whole_seconds() }
}

impl Timestamp {
    /// The timestamp at `seconds` whole seconds after the Unix epoch, in UTC.
    pub fn from_unix_seconds(seconds: i64) -> (r: Timestamp)
        ensures
            r.unix_nanos == seconds * 1_000_000_000,
            r.offset_seconds == 0,
            r.unix_seconds() == seconds,
    {
        let s: i128 = seconds as i128;
        assert(s * 1_000_000_000 <= 0x7fff_ffff_ffff_ffff * 1_000_000_000) by (nonlinear_arith)
            requires
                s <= 0x7fff_ffff_ffff_ffff,
        ;
        assert(s * 1_000_000_000 >= -0x8000_0000_0000_0000 * 1_000_000_000) by (nonlinear_arith)
            requires
                s >= -0x8000_0000_0000_0000,
        ;
        Timestamp { unix_nanos: s * 1_000_000_000, offset_seconds: 0 }
    }

    /// Whole seconds since the Unix epoch, rounded toward the past.
    pub open spec fn unix_seconds(self) -> int {
        self.unix_nanos as int / 1_000_000_000
    }

    /// Reads RFC 3339 text, such as `2023-05-01T12:00:00+09:00`.
    pub fn parse_rfc3339(text: &str) -> (r: Option<Timestamp>)
        ensures
            r == timestamp_of(rfc3339_reading(text@)),
    {
        read_rfc3339(text)
    }

    /// Reads RFC 2822 text, such as `Mon, 01 May 2023 12:00:00 +0900`.
    pub fn parse_rfc2822(text: &str) -> (r: Option<Timestamp>)
        ensures
            r == timestamp_of(rfc2822_reading(text@)),
    {
        read_rfc2822(text)
    }

    /// Reads ISO 8601 text of a date and a clock time; what is read is
    /// taken as UTC.
    pub fn parse_iso8601_plain(text: &str) -> (r: Option<Timestamp>)
        ensures
            r.is_some() == iso8601_plain_reading(text@).is_some(),
            r matches Some(t) ==> iso8601_plain_reading(text@) == Some(t.unix_nanos as int)
                && t.offset_seconds == 0,
    {
        match read_iso8601_plain(text) {
            Some(unix_nanos) => Some(Timestamp { unix_nanos, offset_seconds: 0 }),
            None => None,
        }
    }

    /// Writes the timestamp as RFC 3339 text; `None` where it has no such form.
    pub fn to_rfc3339(&self) -> (r: Option<String>)
        ensures
            r.is_some() == rfc3339_text(self.unix_nanos as int, self.offset_seconds as int).is_some(),
            r matches Some(s) ==> rfc3339_text(
                self.unix_nanos as int,
                self.offset_seconds as int,
            ) == Some(s@),
    {
        write_rfc3339(*self)
    }

    /// Writes the timestamp in its default display form; `None` where it has none.
    pub fn to_text(&self) -> (r: Option<String>)
        ensures
            r.is_some() == display_text(self.unix_nanos as int, self.offset_seconds as int).is_some(),
            r matches Some(s) ==> display_text(
                self.unix_nanos as int,
                self.offset_seconds as int,
            ) == Some(s@),
    {
        write_display(*self)
    }

    /// The current instant, in UTC.
    pub fn now_utc() -> (r: Timestamp)
        ensures
            r.offset_seconds == 0,
    {
        read_clock_utc()
    }

    /// Whether `self` is strictly later than `other`, as instants.
    pub fn is_after(&self, other: &Timestamp) -> (r: bool)
        ensures
            r == (self.unix_nanos > other.unix_nanos),
    {
        self.unix_nanos > other.unix_nanos
    }
}

/// The value of a decimal digit; `None` for any other character.
pub open spec fn digit_value(c: char) -> Option<int> {
    if c == '0' {
        Some(0)
    } else if c == '1' {
        Some(1)
    } else if c == '2' {
        Some(2)
    } else if c == '3' {
        Some(3)
    } else if c == '4' {
        Some(4)
    } else if c == '5' {
        Some(5)
    } else if c == '6' {
        Some(6)
    } else if c == '7' {
        Some(7)
    } else if c == '8' {
        Some(8)
    } else if c == '9' {
        Some(9)
    } else {
        None
    }
}

/// The number that two characters write in decimal; `None` unless both are
/// digits.
pub open spec fn two_digit_value(tens: char, ones: char) -> Option<int> {
    match (digit_value(tens), digit_value(ones)) {
        (Some(t), Some(o)) => Some(10 * t + o),
        _ => None,
    }
}

/// The clock time that a text of the form `hh:mm:ss` stands for: hour,
/// minute and second.
///
/// The text must be eight characters long, two digits for each field with
/// a colon between them, the hour below 24 and minute and second below 60.
/// Any other text stands for no clock time.
pub open spec fn clock_reading(text: Seq<char>) -> Option<(int, int, int)> {
    if text.len() == 8 && text[2] == ':' && text[5] == ':' {
        match (
            two_digit_value(text[0], text[1]),
            two_digit_value(text[3], text[4]),
            two_digit_value(text[6], text[7]),
        ) {
            (Some(h), Some(m), Some(s)) => if h < 24 && m < 60 && s < 60 {
                Some((h, m, s))
            } else {
                None
            },
            _ => None,
        }
    } else {
        None
    }
}

fn digit_of(c: char) -> (r: Option<u8>)
    ensures
        r.is_some() == digit_value(c).is_some(),
        r matches Some(d) ==> digit_value(c) == Some(d as int) && d < 10,
{
    match c {
        '0' => Some(0),
        '1' => Some(1),
        '2' => Some(2),
        '3' => Some(3),
        '4' => Some(4),
        '5' => Some(5),
        '6' => Some(6),
        '7' => Some(7),
        '8' => Some(8),
        '9' => Some(9),
        _ => None,
    }
}

fn two_digits_of(tens: char, ones: char) -> (r: Option<u8>)
    ensures
        r.is_some() == two_digit_value(tens, ones).is_some(),
        r matches Some(n) ==> two_digit_value(tens, ones) == Some(n as int) && n < 100,
{
    match (digit_of(tens), digit_of(ones)) {
        (Some(t), Some(o)) => Some(10 * t + o),
        _ => None,
    }
}

/// Reads a clock time such as `07:30:00`: hour, minute and second; see
/// `clock_reading`.
pub fn parse_clock(text: &str) -> (r: Option<(u8, u8, u8)>)
    ensures
        r.is_some() == clock_reading(text@).is_some(),
        r matches Some(c) ==> clock_reading(text@) == Some((c.0 as int, c.1 as int, c.2 as int)),
{
    if text.unicode_len() != 8 {
        return None;
    }
    if text.get_char(2) != ':' || text.get_char(5) != ':' {
        return None;
    }
    let hour = two_digits_of(text.get_char(0), text.get_char(1));
    let minute = two_digits_of(text.get_char(3), text.get_char(4));
    let second = two_digits_of(text.get_char(6), text.get_char(7));
    match (hour, minute, second) {
        (Some(h), Some(m), Some(s)) => if h < 24 && m < 60 && s < 60 {
            Some((h, m, s))
        } else {
            None
        },
        _ => None,
    }
}

} // verus!
