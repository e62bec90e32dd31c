//! Dates of blog posts: what `chrono` reads from a date text, in which order
//! the accepted layouts are tried, and what a post shows and sorts by.
//!
//! `chrono` does the parsing and the formatting. Its values do not leave this
//! module: a parsed date is handed on as a [`Moment`] of plain integers.

use chrono::Datelike;
use vstd::prelude::*;
use vstd::string::*;

verus! {

/// An instant on the UTC time line: whole seconds since 1970-01-01T00:00:00Z
/// and the nanoseconds within that second. During a leap second `nanos` runs
/// on past 999,999,999, as it does in `chrono`.
#[derive(Clone, Copy, Debug, PartialEq, Eq, Structural)]
pub struct Timestamp {
    pub secs: i64,
    pub nanos: u32,
}

impl Timestamp {
    /// Whether `self` is strictly earlier than `other`: seconds decide, and
    /// nanoseconds decide between equal seconds.
    pub open spec fn before(self, other: Timestamp) -> bool {
        self.secs < other.secs || (self.secs == other.secs && self.nanos < other.nanos)
    }

    /// Whether `self` is strictly earlier than `other`.
    pub fn is_before(&self, other: &Timestamp) -> (r: bool)
        ensures
            r == self.before(*other),
    {
        self.secs < other.secs || (self.secs == other.secs && self.nanos < other.nanos)
    }
}

/// The instant that a post without a usable date is given: 1970-01-01T00:00:00Z.
pub open spec fn epoch() -> Timestamp {
    Timestamp { secs: 0, nanos: 0 }
}

/// A date as read from text: the calendar day it names, in the offset that the
/// text itself gave, and the instant it stands for.
#[derive(Clone, Copy, Debug, PartialEq, Eq, Structural)]
pub struct Moment {
    pub year: i32,
    pub month: u32,
    pub day: u32,
    pub stamp: Timestamp,
}

/// What `chrono::DateTime::parse_from_rfc3339` reads from `text`.
pub uninterp spec fn rfc3339_moment(text: Seq<char>) -> Option<Moment>;

/// What `chrono::NaiveDateTime::parse_from_str` reads from `text` under `layout`,
/// the time taken as UTC.
pub uninterp spec fn datetime_moment(text: Seq<char>, layout: Seq<char>) -> Option<Moment>;

/// What `chrono::NaiveDate::parse_from_str` reads from `text` under `layout`,
/// the day taken at midnight UTC.
pub uninterp spec fn date_moment(text: Seq<char>, layout: Seq<char>) -> Option<Moment>;

/// What `chrono::NaiveDate::format` writes for the given day under `layout`;
/// `None` where the three numbers name no day or the layout cannot be written
/// for a date.
pub uninterp spec fn date_text(year: int, month: int, day: int, layout: Seq<char>) -> Option<Seq<char>>;

/// Calls `chrono::DateTime::parse_from_rfc3339`. Trusted: the result is a
/// function of the text alone. A parsed value is handed back as its calendar
/// day in its own offset and its UNIX timestamp with the nanoseconds of the
/// second; a parse error becomes `None`.
#[verifier::external_body]
fn parse_rfc3339(value: &str) -> (r: Option<Moment>)
    ensures
        r == rfc3339_moment(value@),
{
    match chrono::DateTime::parse_from_rfc3339(value) {
        Ok(t) => Some(
            Moment {
                year: t.year(),
                month: t.month(),
                day: t.day(),
                stamp: Timestamp { secs: t.timestamp(), nanos: t.timestamp_subsec_nanos() },
            },
        ),
        Err(_) => None,
    }
}

/// Calls `chrono::NaiveDateTime::parse_from_str`. Trusted: the result is a
/// function of the text and the layout alone. A parsed value is handed back as
/// its calendar day and, read as UTC, its UNIX timestamp with the nanoseconds
/// of the second; a parse error becomes `None`.
#[verifier::external_body]
fn parse_datetime(value: &str, layout: &str) -> (r: Option<Moment>)
    ensures
        r == datetime_moment(value@, layout@),
{
    match chrono::NaiveDateTime::parse_from_str(value, layout) {
        Ok(t) => {
            let utc = t.and_utc();
            Some(
                Moment {
                    year: t.year(),
                    month: t.month(),
                    day: t.day(),
                    stamp: Timestamp { secs: utc.timestamp(), nanos: utc.timestamp_subsec_nanos() },
                },
            )
        },
        Err(_) => None,
    }
}

/// Calls `chrono::NaiveDate::parse_from_str`. Trusted: the result is a function
/// of the text and the layout alone. A parsed day is handed back with the UNIX
/// timestamp of its midnight, read as UTC; a parse error becomes `None`.
#[verifier::external_body]
fn parse_date(value: &str, layout: &str) -> (r: Option<Moment>)
    ensures
        r == date_moment(value@, layout@),
{
    match chrono::NaiveDate::parse_from_str(value, layout) {
        Ok(d) => {
            let utc = chrono::NaiveDateTime::from(d).and_utc();
            Some(
                Moment {
                    year: d.year(),
                    month: d.month(),
                    day: d.day(),
                    stamp: Timestamp { secs: utc.timestamp(), nanos: utc.timestamp_subsec_nanos() },
                },
            )
        },
        Err(_) => None,
    }
}

/// Calls `chrono::NaiveDate::format` and writes the result to a string.
/// Trusted: the text is a function of the day and the layout alone. `None`
/// where `chrono` has no such day or reports an error while writing.
#[verifier::external_body]
fn format_date(year: i32, month: u32, day: u32, layout: &str) -> (r: Option<String>)
    ensures
        match r {
            Some(s) => date_text(year as int, month as int, day as int, layout@) == Some(s@),
            None => date_text(year as int, month as int, day as int, layout@) is None,
        },
{
    let date = chrono::NaiveDate::from_ymd_opt(year, month, day)?;
    let mut out = String::new();
    match date.format(layout).write_to(&mut out) {
        Ok(()) => Some(out),
        Err(_) => None,
    }
}

/// The layout of a date and a time joined by `T`.
pub open spec fn layout_datetime_t() -> Seq<char> {
    "%Y-%m-%dT%H:%M:%S"@
}

/// The layout of a date and a time joined by a space.
pub open spec fn layout_datetime_space() -> Seq<char> {
    "%Y-%m-%d %H:%M:%S"@
}

/// The layout of a date in digits.
pub open spec fn layout_date() -> Seq<char> {
    "%Y-%m-%d"@
}

/// The layout of a date with the month written out, for reading.
pub open spec fn layout_long_date() -> Seq<char> {
    "%B %d, %Y"@
}

/// The layout in which a post shows its date: month name, day without
/// padding, year.
pub open spec fn layout_display() -> Seq<char> {
    "%B %-d, %Y"@
}

/// The first of two readings that succeeded.
pub open spec fn or_else(first: Option<Moment>, second: Option<Moment>) -> Option<Moment> {
    if first is Some {
        first
    } else {
        second
    }
}

/// What a date text is read as. The layouts are tried in a fixed order and the
/// first that `chrono` accepts decides: RFC 3339, then date and time joined by
/// `T`, then joined by a space, then a date in digits, then a date with the
/// month written out.
pub open spec fn date_reading(text: Seq<char>) -> Option<Moment> {
    or_else(
        rfc3339_moment(text),
        or_else(
            datetime_moment(text, layout_datetime_t()),
            or_else(
                datetime_moment(text, layout_datetime_space()),
                or_else(date_moment(text, layout_date()), date_moment(text, layout_long_date())),
            ),
        ),
    )
}

/// The text that a post shows for a date that was read: the day in the
/// display layout.
pub open spec fn date_label(reading: Option<Moment>) -> Option<Seq<char>> {
    match reading {
        Some(m) => date_text(m.year as int, m.month as int, m.day as int, layout_display()),
        None => None,
    }
}

/// Reads a date text, trying the accepted layouts in their order.
pub fn read_date(value: &str) -> (r: Option<Moment>)
    ensures
        r == date_reading(value@),
{
    let rfc = parse_rfc3339(value);
    if rfc.is_some() {
        return rfc;
    }
    let joined = parse_datetime(value, "%Y-%m-%dT%H:%M:%S");
    if joined.is_some() {
        return joined;
    }
    let spaced = parse_datetime(value, "%Y-%m-%d %H:%M:%S");
    if spaced.is_some() {
        return spaced;
    }
    let digits = parse_date(value, "%Y-%m-%d");
    if digits.is_some() {
        return digits;
    }
    parse_date(value, "%B %d, %Y")
}

/// Writes the day of a reading in the display layout.
pub fn label_date(reading: Option<Moment>) -> (r: Option<String>)
    ensures
        match r {
            Some(s) => date_label(reading) == Some(s@),
            None => date_label(reading) is None,
        },
{
    match reading {
        Some(m) => format_date(m.year, m.month, m.day, "%B %-d, %Y"),
        None => None,
    }
}

/// What a post shows as its date and the instant it is sorted by.
pub struct Dating {
    pub display: String,
    pub published_at: Timestamp,
}

/// The mathematical content of a [`Dating`].
pub struct DatingView {
    pub display: Seq<char>,
    pub published_at: Timestamp,
}

impl View for Dating {
    type V = DatingView;

    open spec fn view(&self) -> DatingView {
        DatingView { display: self.display@, published_at: self.published_at }
    }
}

impl DatingView {
    /// The dating of a post that names no date.
    pub open spec fn unknown() -> DatingView {
        DatingView { display: "Unknown"@, published_at: epoch() }
    }

    /// The dating after a date line with the text `value`, given what was read
    /// from it and the label written for the reading. A reading moves the
    /// instant; without one the instant stays. The display is the label where
    /// there is one and the text as it stands otherwise.
    pub open spec fn recorded(
        self,
        value: Seq<char>,
        reading: Option<Moment>,
        label: Option<Seq<char>>,
    ) -> DatingView {
        match reading {
            Some(m) => DatingView {
                display: match label {
                    Some(t) => t,
                    None => value,
                },
                published_at: m.stamp,
            },
            None => DatingView { display: value, published_at: self.published_at },
        }
    }

    /// The dating after a date line with the text `value`.
    pub open spec fn dated(self, value: Seq<char>) -> DatingView {
        self.recorded(value, date_reading(value), date_label(date_reading(value)))
    }

    /// The dating after the date lines `values`, taken in their order.
    pub open spec fn dated_all(self, values: Seq<Seq<char>>) -> DatingView
        decreases values.len(),
    {
        if values.len() == 0 {
            self
        } else {
            self.dated_all(values.drop_last()).dated(values.last())
        }
    }
}

impl Dating {
    /// The dating of a post that names no date: it shows "Unknown" and sorts
    /// by the epoch.
    pub fn unknown() -> (r: Dating)
        ensures
            r@ == DatingView::unknown(),
    {
        Dating { display: String::from_str("Unknown"), published_at: Timestamp { secs: 0, nanos: 0 } }
    }

    /// Takes in one date line, given what was read from its text and the label
    /// written for the reading.
    pub fn record(self, value: &str, reading: Option<Moment>, label: Option<String>) -> (r: Dating)
        ensures
            r@ == self@.recorded(
                value@,
                reading,
                match label {
                    Some(t) => Some(t@),
                    None => None,
                },
            ),
    {
        match reading {
            Some(m) => {
                let display = match label {
                    Some(t) => t,
                    None => String::from_str(value),
                };
                Dating { display, published_at: m.stamp }
            },
            None => Dating { display: String::from_str(value), published_at: self.published_at },
        }
    }

    /// Takes in one date line: reads its text, writes the label, and records both.
    pub fn read(self, value: &str) -> (r: Dating)
        ensures
            r@ == self@.dated(value@),
    {
        let reading = read_date(value);
        let label = label_date(reading);
        self.record(value, reading, label)
    }
}

} // verus!
