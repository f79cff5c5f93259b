//! Instants in UTC, as seconds and nanoseconds since the start of 1970.

use vstd::prelude::*;
use crate::error::ParseError;
use crate::text::{chars_of, find_char, has_char};

verus! {

/// An instant in UTC: whole seconds since 1970-01-01 00:00:00, and the
/// nanoseconds after that second.
#[derive(Clone, Copy, Debug, PartialEq, Eq, Structural)]
pub struct Timestamp {
    pub secs: i64,
    pub nanos: u32,
}

/// Whether `chrono` has a date and time for this number of seconds and
/// nanoseconds: the seconds lie between the first second of the year -262143
/// and the last second of the year 262142, and the nanoseconds stay below one
/// second, or below two in the last second of a minute, where they stand for
/// a leap second.
pub open spec fn representable(secs: i64, nanos: u32) -> bool {
    &&& -8_334_601_228_800 <= secs <= 8_210_266_876_799
    &&& nanos < 2_000_000_000
    &&& nanos >= 1_000_000_000 ==> (secs as int) % 60 == 59
}

/// The instant that `chrono` reads from `text` under the strftime pattern
/// `format`, as seconds and nanoseconds; `None` where it rejects the text.
pub uninterp spec fn parsed_instant(text: Seq<char>, format: Seq<char>) -> Option<(i64, u32)>;

/// The instant that `chrono` reads from the RFC 3339 text `text`; `None` where
/// it rejects the text.
pub uninterp spec fn parsed_rfc3339(text: Seq<char>) -> Option<(i64, u32)>;

/// The RFC 3339 text that `chrono` writes for a representable instant.
pub uninterp spec fn rfc3339_text(secs: i64, nanos: u32) -> Seq<char>;

/// Whether `secs` lies in the years 0 to 9999, the years that RFC 3339 can
/// write: from 0000-01-01 00:00:00 to 9999-12-31 23:59:59, in UTC.
pub open spec fn in_written_years(secs: i64) -> bool {
    -62_167_219_200 <= secs <= 253_402_300_799
}

/// The timestamp of a pair of seconds and nanoseconds.
pub open spec fn instant(pair: Option<(i64, u32)>) -> Option<Timestamp> {
    match pair {
        Some((secs, nanos)) => Some(Timestamp { secs, nanos }),
        None => None,
    }
}

/// The pattern of the dates in a commit log: civil date and time, then the
/// offset from UTC.
pub open spec fn civil_format() -> Seq<char> {
    "%Y-%m-%d %H:%M:%S %z"@
}

/// The suffix that gives a date without offset the offset of UTC.
pub open spec fn utc_suffix() -> Seq<char> {
    " +0000"@
}

/// The instant that a date of a commit log names.
pub open spec fn civil_instant(text: Seq<char>) -> Option<Timestamp> {
    instant(parsed_instant(text, civil_format()))
}

/// The instant that a date read back from the store names: RFC 3339 where the
/// text holds a `T`, else civil date and time in UTC.
pub open spec fn stored_instant(text: Seq<char>) -> Option<Timestamp> {
    if has_char(text, 'T') {
        instant(parsed_rfc3339(text))
    } else {
        civil_instant(text + utc_suffix())
    }
}

/// `chrono::DateTime::parse_from_str`, with the result turned to UTC and taken
/// apart by `timestamp` and `timestamp_subsec_nanos`. The contract names the
/// result and adds that `chrono` can rebuild the instant from the two numbers.
#[verifier::external_body]
fn chrono_parse(text: &str, format: &str) -> (r: Option<Timestamp>)
    ensures
        r == instant(parsed_instant(text@, format@)),
        r matches Some(t) ==> representable(t.secs, t.nanos),
{
    match chrono::DateTime::parse_from_str(text, format) {
        Ok(d) => Some(Timestamp { secs: d.timestamp(), nanos: d.timestamp_subsec_nanos() }),
        Err(_) => None,
    }
}

/// `chrono::DateTime::parse_from_rfc3339`, with the result taken apart as in
/// `chrono_parse`.
#[verifier::external_body]
fn chrono_parse_rfc3339(text: &str) -> (r: Option<Timestamp>)
    ensures
        r == instant(parsed_rfc3339(text@)),
        r matches Some(t) ==> representable(t.secs, t.nanos),
{
    match chrono::DateTime::parse_from_rfc3339(text) {
        Ok(d) => Some(Timestamp { secs: d.timestamp(), nanos: d.timestamp_subsec_nanos() }),
        Err(_) => None,
    }
}

/// `chrono::DateTime::to_rfc3339`, on the date that `from_timestamp` makes of
/// the two numbers: `None` exactly where `chrono` has no date for them, else
/// the text it writes. The text always holds the `T` between date and time.
/// For the years 0 to 9999, which it writes with four digits,
/// `parse_from_rfc3339` reads the same instant back from the text; this is
/// taken from the two functions' source, which writes and reads the same
/// fields, the second 60 of a leap second and up to nine digits of a
/// fraction among them.
#[verifier::external_body]
fn chrono_rfc3339(secs: i64, nanos: u32) -> (r: Option<String>)
    ensures
        r is Some <==> representable(secs, nanos),
        r matches Some(s) ==> s@ == rfc3339_text(secs, nanos),
        r matches Some(s) ==> has_char(s@, 'T'),
        r matches Some(s) ==> (in_written_years(secs) ==> parsed_rfc3339(s@) == Some(
            (secs, nanos),
        )),
{
    match chrono::DateTime::from_timestamp(secs, nanos) {
        Some(d) => Some(d.to_rfc3339()),
        None => None,
    }
}

/// `chrono::DateTime::from_timestamp`, asked only whether it has a date for the
/// two numbers. It has one for the days of the years -262143 to 262142, and
/// takes a billion nanoseconds or more only in the last second of a minute.
#[verifier::external_body]
fn chrono_has(secs: i64, nanos: u32) -> (r: bool)
    ensures
        r == representable(secs, nanos),
{
    chrono::DateTime::from_timestamp(secs, nanos).is_some()
}

impl Timestamp {
    /// Whether `chrono` has a date and time for this instant.
    pub open spec fn valid(&self) -> bool {
        representable(self.secs, self.nanos)
    }

    /// Whether the store can keep this instant: it is valid and lies in the
    /// years that RFC 3339 can write, so that its text is read back.
    pub open spec fn storable(&self) -> bool {
        self.valid() && in_written_years(self.secs)
    }

    /// The text under which the store keeps this instant; `None` where the
    /// store cannot keep it. The text is read back as this instant, both as
    /// RFC 3339 and as a date of the store.
    pub fn to_stored(&self) -> (r: Option<String>)
        ensures
            r is Some <==> self.storable(),
            r matches Some(s) ==> {
                &&& s@ == rfc3339_text(self.secs, self.nanos)
                &&& instant(parsed_rfc3339(s@)) == Some(*self)
                &&& stored_instant(s@) == Some(*self)
            },
    {
        if self.secs < -62_167_219_200 || self.secs > 253_402_300_799 {
            return None;
        }
        chrono_rfc3339(self.secs, self.nanos)
    }

    /// The instant `secs` whole seconds after the start of 1970; `None` where
    /// `chrono` has no date for it.
    pub fn from_seconds(secs: i64) -> (r: Option<Timestamp>)
        ensures
            r is Some <==> representable(secs, 0),
            r matches Some(t) ==> t == (Timestamp { secs, nanos: 0 }),
    {
        if chrono_has(secs, 0) {
            Some(Timestamp { secs, nanos: 0 })
        } else {
            None
        }
    }

    /// Reads a date of a commit log, such as `2024-01-01 10:00:00 +0000`.
    pub fn parse_civil(text: &str) -> (r: Option<Timestamp>)
        ensures
            r == civil_instant(text@),
            r matches Some(t) ==> t.valid(),
    {
        chrono_parse(text, "%Y-%m-%d %H:%M:%S %z")
    }

    /// Reads a date in RFC 3339 form, such as `2024-01-01T10:00:00+00:00`.
    pub fn parse_rfc3339(text: &str) -> (r: Option<Timestamp>)
        ensures
            r == instant(parsed_rfc3339(text@)),
            r matches Some(t) ==> t.valid(),
    {
        chrono_parse_rfc3339(text)
    }

    /// Reads a date that the store handed back.
    pub fn parse_stored(text: &str) -> (r: Result<Timestamp, ParseError>)
        ensures
            match stored_instant(text@) {
                Some(t) => r == Ok::<Timestamp, ParseError>(t) && t.valid(),
                None => r == Err::<Timestamp, ParseError>(ParseError::InvalidDate),
            },
    {
        let chars = chars_of(text);
        let at = find_char(&chars, 0, chars.len(), 'T');
        assert(chars@.subrange(0, chars.len() as int) == text@);
        let parsed = if at < chars.len() {
            chrono_parse_rfc3339(text)
        } else {
            let mut with_offset = String::new();
            with_offset.push_str(text);
            with_offset.push_str(" +0000");
            chrono_parse(with_offset.as_str(), "%Y-%m-%d %H:%M:%S %z")
        };
        match parsed {
            Some(t) => Ok(t),
            None => Err(ParseError::InvalidDate),
        }
    }

    /// The RFC 3339 text of this instant; `None` where the instant is not valid.
    pub fn to_rfc3339(&self) -> (r: Option<String>)
        ensures
            r is Some <==> self.valid(),
            r matches Some(s) ==> s@ == rfc3339_text(self.secs, self.nanos),
    {
        chrono_rfc3339(self.secs, self.nanos)
    }
}

} // verus!
