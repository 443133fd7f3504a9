//! The date and time that the time service reports.

use crate::http::ReadError;
use vstd::prelude::*;

verus! {

/// The address of the time service.
pub const URL: &'static str = "https://www.timeapi.io/api/Time/current/zone?timeZone=UTC";

/// The form in which the time service writes its date and time.
pub const FORMAT: &'static str = "[year]-[month]-[day]T[hour]:[minute]:[second].[subsecond]";

/// The room that the reader of the service's answer starts with.
pub const DEFAULT_RESPONSE_LEN: usize = 366;

/// The seconds between two questions to the time service.
pub const POLL_PERIOD_SECS: u64 = 5;

/// Why the time service gave no date and time. A number is the code that the
/// platform gave for the failure.
#[derive(Clone, Copy, Debug, PartialEq, Eq, Structural)]
pub enum Error {
    /// The request could not be made.
    InitiateResponse(i32),
    /// The request got no answer.
    SubmitRequest(i32),
    /// The answer's body could not be read.
    Read(ReadError),
    /// The answer is not what the service is known to send.
    TimeResultDeserialize,
    /// The text is no date and time in the service's form.
    DateTimeParse,
}

/// Year, month, day, hour, minute, second and nanosecond.
pub type Fields = (i32, u8, u8, u8, u8, u8, u32);

/// The first year that a date can have.
pub const MIN_YEAR: i32 = -9999;

/// The last year that a date can have.
pub const MAX_YEAR: i32 = 9999;

/// Whether the year has a 29th of February.
pub open spec fn is_leap_year(year: int) -> bool {
    year % 4 == 0 && (year % 100 != 0 || year % 400 == 0)
}

/// The number of days of a month of a year.
pub open spec fn days_in_month(year: int, month: int) -> int {
    if month == 2 {
        if is_leap_year(year) {
            29
        } else {
            28
        }
    } else if month == 4 || month == 6 || month == 9 || month == 11 {
        30
    } else {
        31
    }
}

/// Whether the fields are those of a day of the calendar and a time of that day.
pub open spec fn valid_fields(fields: Fields) -> bool {
    &&& MIN_YEAR <= fields.0 <= MAX_YEAR
    &&& 1 <= fields.1 <= 12
    &&& 1 <= fields.2 <= days_in_month(fields.0 as int, fields.1 as int)
    &&& fields.3 < 24
    &&& fields.4 < 60
    &&& fields.5 < 60
    &&& fields.6 < 1_000_000_000
}

/// What `time::PrimitiveDateTime::parse` reads out of `text` under the
/// format description that `time::format_description::parse_borrowed`, in
/// its first version, makes of `format`; `None` where either gives an error.
pub uninterp spec fn parsed_date_time(text: Seq<char>, format: Seq<char>) -> Option<Fields>;

/// What the `Display` of `time::PrimitiveDateTime` writes for the date and
/// time of these fields; `None` where the crate takes them for no date or no time.
pub uninterp spec fn date_time_text(fields: Fields) -> Option<Seq<char>>;

/// Calls `time::format_description::parse_borrowed` on `format` and
/// `time::PrimitiveDateTime::parse` on `text`, and takes the result apart
/// into its fields. The contract names what comes back and claims nothing
/// else of it.
#[verifier::external_body]
fn parse_with_format(text: &str, format: &str) -> (res: Option<Fields>)
    ensures
        res == parsed_date_time(text@, format@),
{
    let items = time::format_description::parse_borrowed::<1>(format).ok()?;
    let parsed = time::PrimitiveDateTime::parse(text, &items).ok()?;
    Some(
        (
            parsed.year(),
            u8::from(parsed.month()),
            parsed.day(),
            parsed.hour(),
            parsed.minute(),
            parsed.second(),
            parsed.nanosecond(),
        ),
    )
}

/// Builds a `time::PrimitiveDateTime` of the fields and calls its `Display`.
/// The contract names what comes back and claims nothing else of it.
#[verifier::external_body]
fn display_fields(fields: Fields) -> (res: Option<String>)
    ensures
        res.deep_view() == date_time_text(fields),
{
    let month = time::Month::try_from(fields.1).ok()?;
    let date = time::Date::from_calendar_date(fields.0, month, fields.2).ok()?;
    let clock = time::Time::from_hms_nano(fields.3, fields.4, fields.5, fields.6).ok()?;
    Some(time::PrimitiveDateTime::new(date, clock).to_string())
}

/// A date of the calendar and a time of that day, without a time zone.
#[derive(Clone, Copy, Debug, PartialEq, Eq)]
pub struct DateTime {
    year: i32,
    month: u8,
    day: u8,
    hour: u8,
    minute: u8,
    second: u8,
    nanosecond: u32,
}

impl View for DateTime {
    type V = Fields;

    closed spec fn view(&self) -> Fields {
        (self.year, self.month, self.day, self.hour, self.minute, self.second, self.nanosecond)
    }
}

/// Whether the year has a 29th of February.
pub fn leap_year(year: i32) -> (leap: bool)
    ensures
        leap == is_leap_year(year as int),
{
    // A multiple of 400 that lifts every year above zero: the lifted year is leap when the year is.
    let lifted: i64 = year as i64 + 2_147_484_000;
    lifted % 4 == 0 && (lifted % 100 != 0 || lifted % 400 == 0)
}

/// The last day of a month of a year.
pub fn last_day(year: i32, month: u8) -> (days: u8)
    ensures
        days == days_in_month(year as int, month as int),
{
    if month == 2 {
        if leap_year(year) {
            29
        } else {
            28
        }
    } else if month == 4 || month == 6 || month == 9 || month == 11 {
        30
    } else {
        31
    }
}

impl DateTime {
    #[verifier::type_invariant]
    spec fn on_the_calendar(self) -> bool {
        valid_fields(self@)
    }

    /// The date and time of the fields, if they are those of a day of the
    /// calendar and a time of that day.
    pub fn new(fields: Fields) -> (res: Option<DateTime>)
        ensures
            valid_fields(fields) ==> (res matches Some(d) && d@ == fields),
            !valid_fields(fields) ==> res is None,
    {
        let (year, month, day, hour, minute, second, nanosecond) = fields;
        if year < MIN_YEAR || year > MAX_YEAR || month < 1 || month > 12 || day < 1 {
            return None;
        }
        if day > last_day(year, month) || hour >= 24 || minute >= 60 || second >= 60 || nanosecond
            >= 1_000_000_000 {
            return None;
        }
        Some(DateTime { year, month, day, hour, minute, second, nanosecond })
    }

    /// The fields of the date and time.
    pub fn fields(&self) -> (fields: Fields)
        ensures
            fields == self@,
            valid_fields(fields),
    {
        proof {
            use_type_invariant(self);
        }
        (self.year, self.month, self.day, self.hour, self.minute, self.second, self.nanosecond)
    }

    /// What a parse of the service's text gave, as a date and time.
    pub fn from_parsed(parsed: Option<Fields>) -> (res: Result<DateTime, Error>)
        ensures
            match parsed {
                Some(fields) if valid_fields(fields) => res matches Ok(d) && d@ == fields,
                _ => res == Err::<DateTime, Error>(Error::DateTimeParse),
            },
    {
        match parsed {
            Some(fields) => match DateTime::new(fields) {
                Some(d) => Ok(d),
                None => Err(Error::DateTimeParse),
            },
            None => Err(Error::DateTimeParse),
        }
    }

    /// Reads a date and time written in the service's form.
    pub fn parse(text: &str) -> (res: Result<DateTime, Error>)
        ensures
            match parsed_date_time(text@, FORMAT@) {
                Some(fields) if valid_fields(fields) => res matches Ok(d) && d@ == fields,
                _ => res == Err::<DateTime, Error>(Error::DateTimeParse),
            },
    {
        DateTime::from_parsed(parse_with_format(text, FORMAT))
    }

    /// The text of a date and time as it was written for it, or no text where none was.
    pub fn written(text: Option<String>) -> (res: String)
        ensures
            res@ == match text {
                Some(t) => t@,
                None => Seq::<char>::empty(),
            },
    {
        match text {
            Some(t) => t,
            None => String::new(),
        }
    }

    /// The date and time as text: the date, a space, and the time.
    pub fn to_string(&self) -> (text: String)
        ensures
            text@ == match date_time_text(self@) {
                Some(t) => t,
                None => Seq::<char>::empty(),
            },
    {
        DateTime::written(display_fields(self.fields()))
    }
}

/// How the exchange with the time service went.
#[derive(Debug, PartialEq, Eq)]
pub enum Reply {
    /// The request could not be made.
    RequestFailed(i32),
    /// The request got no answer.
    ResponseFailed(i32),
    /// The answer's body could not be read.
    Unreadable(ReadError),
    /// The answer's body is not what the service is known to send.
    Unknown,
    /// The answer gives its date and time as this text.
    DateTime(String),
}

/// The date and time of an exchange with the time service, or why it gave none.
pub fn utc_time(reply: Reply) -> (res: Result<DateTime, Error>)
    ensures
        match reply {
            Reply::RequestFailed(code) => res == Err::<DateTime, Error>(
                Error::InitiateResponse(code),
            ),
            Reply::ResponseFailed(code) => res == Err::<DateTime, Error>(
                Error::SubmitRequest(code),
            ),
            Reply::Unreadable(e) => res == Err::<DateTime, Error>(Error::Read(e)),
            Reply::Unknown => res == Err::<DateTime, Error>(Error::TimeResultDeserialize),
            Reply::DateTime(text) => match parsed_date_time(text@, FORMAT@) {
                Some(fields) if valid_fields(fields) => res matches Ok(d) && d@ == fields,
                _ => res == Err::<DateTime, Error>(Error::TimeResultDeserialize),
            },
        },
{
    match reply {
        Reply::RequestFailed(code) => Err(Error::InitiateResponse(code)),
        Reply::ResponseFailed(code) => Err(Error::SubmitRequest(code)),
        Reply::Unreadable(e) => Err(Error::Read(e)),
        Reply::Unknown => Err(Error::TimeResultDeserialize),
        Reply::DateTime(text) => match DateTime::parse(text.as_str()) {
            Ok(d) => Ok(d),
            Err(_) => Err(Error::TimeResultDeserialize),
        },
    }
}

impl Error {
    /// What the failure says of itself.
    pub open spec fn message_text(self) -> Seq<char> {
        match self {
            Error::InitiateResponse(_) => "Failed to initiate response"@,
            Error::SubmitRequest(_) => "Failed to submit request"@,
            Error::Read(_) => "Failed to read response"@,
            Error::TimeResultDeserialize => "Failed to parse response as `TimeResult`"@,
            Error::DateTimeParse => "Failed to parse date/time"@,
        }
    }

    /// What the failure says of itself.
    pub fn message(&self) -> (message: &'static str)
        ensures
            message@ == self.message_text(),
    {
        match self {
            Error::InitiateResponse(_) => "Failed to initiate response",
            Error::SubmitRequest(_) => "Failed to submit request",
            Error::Read(_) => "Failed to read response",
            Error::TimeResultDeserialize => "Failed to parse response as `TimeResult`",
            Error::DateTimeParse => "Failed to parse date/time",
        }
    }

    /// The failure's message and those of its causes.
    pub open spec fn chain_text(self) -> Seq<Seq<char>> {
        match self {
            Error::Read(e) => seq![self.message_text(), e.message_text()],
            _ => seq![self.message_text()],
        }
    }

    /// The failure's message and those of its causes, for one line.
    pub fn chain(&self) -> (messages: Vec<String>)
        ensures
            messages.deep_view() == self.chain_text(),
    {
        match self {
            Error::Read(e) => {
                let messages = crate::error::caused(
                    self.message(),
                    crate::error::uncaused(e.message()),
                );
                messages
            },
            _ => crate::error::uncaused(self.message()),
        }
    }

    /// The code that the platform gave for the failure, if it came from the platform.
    pub open spec fn platform_code(self) -> Option<i32> {
        match self {
            Error::InitiateResponse(code) => Some(code),
            Error::SubmitRequest(code) => Some(code),
            _ => None,
        }
    }

    /// The code that the platform gave for the failure, if it came from the platform.
    pub fn code(&self) -> (code: Option<i32>)
        ensures
            code == self.platform_code(),
    {
        match self {
            Error::InitiateResponse(code) => Some(*code),
            Error::SubmitRequest(code) => Some(*code),
            _ => None,
        }
    }
}

} // verus!
