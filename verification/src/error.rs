//! The failures of a transformation and the words that report them.

use vstd::prelude::*;
use vstd::string::*;
use crate::decimal::IntegerFault;
use crate::instant::Span;
use crate::params::Parameter;

verus! {

/// What was wrong with the value of `with_timezone`.
#[derive(Clone, Copy, Debug, PartialEq, Eq, Structural)]
pub enum ZoneFault {
    /// It begins like an offset and yet is no offset of less than a day.
    Offset,
    /// It is no zone that the zone table knows.
    Name,
}

/// The kinds of failure.
#[derive(Clone, Copy, Debug, PartialEq, Eq, Structural)]
pub enum ErrorKind {
    /// A parameter that another one calls for is absent.
    MissingParameter,
    /// The text of a numeric parameter is no integer of its type.
    InvalidInteger,
    /// A text does not follow its format, or a pattern cannot be followed.
    InvalidFormat,
    /// A duration or an instant lies outside its range.
    OutOfRange,
    /// A field setter gives no date and time of the calendar.
    FieldOutOfRange,
    /// `with_timezone` is neither `local`, nor an offset, nor a known zone.
    InvalidTimezone,
    /// `locale` names no known locale.
    InvalidLocale,
    /// The base of `years_since` lies after the instant.
    NegativeRange,
    /// A parameter needs a capability that is switched off.
    UnsupportedCapability,
}

/// A failure, with the parameter that it is about.
#[derive(Clone, Copy, Debug, PartialEq, Eq, Structural)]
pub enum Error {
    /// A parameter that another one calls for is absent.
    MissingParameter(Parameter),
    /// The text of a numeric parameter is no integer of its type.
    InvalidInteger(Parameter, IntegerFault),
    /// A text does not follow the format that it is read under, or a pattern
    /// cannot be followed.
    InvalidFormat(Parameter),
    /// A duration is longer than a duration can be, or an instant lies
    /// outside the range of instants or of an output encoding.
    OutOfRange(Parameter, Span),
    /// A field setter was given a value that its field cannot take, or one
    /// that gives no date of the calendar.
    FieldOutOfRange(Parameter),
    /// `with_timezone` is neither `local`, nor an offset, nor a known zone.
    InvalidTimezone(ZoneFault),
    /// `locale` names no known locale.
    InvalidLocale,
    /// The base of `years_since` lies after the instant.
    NegativeRange,
    /// A parameter needs a capability that is switched off.
    UnsupportedCapability(Parameter),
}

impl IntegerFault {
    /// The words for the fault.
    pub open spec fn words_text(self) -> Seq<char> {
        match self {
            IntegerFault::Empty => "cannot parse integer from empty string"@,
            IntegerFault::InvalidDigit => "invalid digit found in string"@,
            IntegerFault::PosOverflow => "number too large to fit in target type"@,
            IntegerFault::NegOverflow => "number too small to fit in target type"@,
        }
    }

    /// The words for the fault.
    pub fn words(self) -> (r: &'static str)
        ensures
            r@ == self.words_text(),
    {
        match self {
            IntegerFault::Empty => "cannot parse integer from empty string",
            IntegerFault::InvalidDigit => "invalid digit found in string",
            IntegerFault::PosOverflow => "number too large to fit in target type",
            IntegerFault::NegOverflow => "number too small to fit in target type",
        }
    }
}

impl Parameter {
    /// What is said where the text of the parameter is no integer.
    pub open spec fn integer_complaint_text(self) -> Seq<char> {
        match self {
            Parameter::FromTimestamp => "Invalid seconds timestamp"@,
            Parameter::FromTimestampMillis => "Invalid milli-seconds timestamp"@,
            Parameter::FromTimestampMicros => "Invalid micro-seconds timestamp"@,
            Parameter::FromTimestampNanos => "Invalid nano-seconds timestamp"@,
            Parameter::WithOrdinal | Parameter::WithOrdinal0 => "Invalid ordinal parameter"@,
            Parameter::WithYear => "Invalid year parameter"@,
            Parameter::WithMonth | Parameter::WithMonth0 => "Invalid month parameter"@,
            Parameter::WithDay | Parameter::WithDay0 => "Invalid day parameter"@,
            Parameter::WithHour => "Invalid hour parameter"@,
            Parameter::WithMinute => "Invalid minute parameter"@,
            Parameter::WithSecond => "Invalid second parameter"@,
            Parameter::WithNanosecond => "Invalid nano-second parameter"@,
            Parameter::AddMonths | Parameter::SubMonths => "Invalid months parameter"@,
            Parameter::AddWeeks | Parameter::SubWeeks => "Invalid weeks parameter"@,
            Parameter::AddDays | Parameter::SubDays => "Invalid days parameter"@,
            Parameter::AddHours | Parameter::SubHours => "Invalid hours parameter"@,
            Parameter::AddMinutes | Parameter::SubMinutes => "Invalid minutes parameter"@,
            Parameter::AddSeconds | Parameter::SubSeconds => "Invalid seconds parameter"@,
            Parameter::AddMilliseconds
            | Parameter::SubMilliseconds => "Invalid milli-seconds parameter"@,
            Parameter::AddMicroseconds
            | Parameter::SubMicroseconds => "Invalid micro-seconds parameter"@,
            Parameter::AddNanoseconds
            | Parameter::SubNanoseconds => "Invalid nano-seconds parameter"@,
            _ => "Invalid integer"@,
        }
    }

    /// What is said where the text of the parameter is no integer.
    pub fn integer_complaint(self) -> (r: &'static str)
        ensures
            r@ == self.integer_complaint_text(),
    {
        match self {
            Parameter::FromTimestamp => "Invalid seconds timestamp",
            Parameter::FromTimestampMillis => "Invalid milli-seconds timestamp",
            Parameter::FromTimestampMicros => "Invalid micro-seconds timestamp",
            Parameter::FromTimestampNanos => "Invalid nano-seconds timestamp",
            Parameter::WithOrdinal | Parameter::WithOrdinal0 => "Invalid ordinal parameter",
            Parameter::WithYear => "Invalid year parameter",
            Parameter::WithMonth | Parameter::WithMonth0 => "Invalid month parameter",
            Parameter::WithDay | Parameter::WithDay0 => "Invalid day parameter",
            Parameter::WithHour => "Invalid hour parameter",
            Parameter::WithMinute => "Invalid minute parameter",
            Parameter::WithSecond => "Invalid second parameter",
            Parameter::WithNanosecond => "Invalid nano-second parameter",
            Parameter::AddMonths | Parameter::SubMonths => "Invalid months parameter",
            Parameter::AddWeeks | Parameter::SubWeeks => "Invalid weeks parameter",
            Parameter::AddDays | Parameter::SubDays => "Invalid days parameter",
            Parameter::AddHours | Parameter::SubHours => "Invalid hours parameter",
            Parameter::AddMinutes | Parameter::SubMinutes => "Invalid minutes parameter",
            Parameter::AddSeconds | Parameter::SubSeconds => "Invalid seconds parameter",
            Parameter::AddMilliseconds
            | Parameter::SubMilliseconds => "Invalid milli-seconds parameter",
            Parameter::AddMicroseconds
            | Parameter::SubMicroseconds => "Invalid micro-seconds parameter",
            Parameter::AddNanoseconds
            | Parameter::SubNanoseconds => "Invalid nano-seconds parameter",
            _ => "Invalid integer",
        }
    }

    /// What is said where the text of the parameter does not follow its format.
    pub open spec fn format_complaint_text(self) -> Seq<char> {
        match self {
            Parameter::FromRfc2822 => "Invalid RFC2822 datetime format"@,
            Parameter::FromRfc3339 | Parameter::YearsSince => "Invalid RFC3339 datetime format"@,
            Parameter::FromStr => "Invalid datetime format or format doesn't match input"@,
            Parameter::OutputFormat => "Invalid output format"@,
            _ => "Invalid format"@,
        }
    }

    /// What is said where the text of the parameter does not follow its format.
    pub fn format_complaint(self) -> (r: &'static str)
        ensures
            r@ == self.format_complaint_text(),
    {
        match self {
            Parameter::FromRfc2822 => "Invalid RFC2822 datetime format",
            Parameter::FromRfc3339 | Parameter::YearsSince => "Invalid RFC3339 datetime format",
            Parameter::FromStr => "Invalid datetime format or format doesn't match input",
            Parameter::OutputFormat => "Invalid output format",
            _ => "Invalid format",
        }
    }

    /// What is said where the parameter leads outside the range of instants.
    pub open spec fn reach_complaint_text(self) -> Seq<char> {
        match self {
            Parameter::FromTimestamp => "Out-of-range number of seconds"@,
            Parameter::FromTimestampMillis => "Out-of-range number of milliseconds"@,
            Parameter::FromTimestampMicros => "Number of microseconds would be out of range (more than ca. 262,000 years away from common era)"@,
            Parameter::AddMonths
            | Parameter::SubMonths => "Months parameter out of range or produces invalid date"@,
            Parameter::AddWeeks
            | Parameter::SubWeeks => "Weeks parameter out of range or produces invalid date"@,
            Parameter::AddDays
            | Parameter::SubDays => "Days parameter out of range or produces invalid date"@,
            Parameter::AddHours
            | Parameter::SubHours => "Hours parameter out of range or produces invalid date"@,
            Parameter::AddMinutes
            | Parameter::SubMinutes => "Minutes parameter out of range or produces invalid date"@,
            Parameter::AddSeconds
            | Parameter::SubSeconds => "Seconds parameter out of range or produces invalid date"@,
            Parameter::AddMilliseconds
            | Parameter::SubMilliseconds => "Milli-seconds parameter out of range or produces invalid date"@,
            Parameter::AddMicroseconds
            | Parameter::SubMicroseconds => "Micro-seconds parameter out of range or produces invalid date"@,
            Parameter::AddNanoseconds
            | Parameter::SubNanoseconds => "Nano-seconds parameter out of range or produces invalid date"@,
            Parameter::ToRfc2822 => "RFC2822 can only write the years 0 to 9999. This date is out of range."@,
            Parameter::ToTimestampNanos => "An i64 with nanosecond precision can span a range of ~584 years. This timestamp is out of range."@,
            _ => "Date and time out of range"@,
        }
    }

    /// What is said where the parameter leads outside the range of instants.
    pub fn reach_complaint(self) -> (r: &'static str)
        ensures
            r@ == self.reach_complaint_text(),
    {
        match self {
            Parameter::FromTimestamp => "Out-of-range number of seconds",
            Parameter::FromTimestampMillis => "Out-of-range number of milliseconds",
            Parameter::FromTimestampMicros => "Number of microseconds would be out of range (more than ca. 262,000 years away from common era)",
            Parameter::AddMonths
            | Parameter::SubMonths => "Months parameter out of range or produces invalid date",
            Parameter::AddWeeks
            | Parameter::SubWeeks => "Weeks parameter out of range or produces invalid date",
            Parameter::AddDays
            | Parameter::SubDays => "Days parameter out of range or produces invalid date",
            Parameter::AddHours
            | Parameter::SubHours => "Hours parameter out of range or produces invalid date",
            Parameter::AddMinutes
            | Parameter::SubMinutes => "Minutes parameter out of range or produces invalid date",
            Parameter::AddSeconds
            | Parameter::SubSeconds => "Seconds parameter out of range or produces invalid date",
            Parameter::AddMilliseconds
            | Parameter::SubMilliseconds => "Milli-seconds parameter out of range or produces invalid date",
            Parameter::AddMicroseconds
            | Parameter::SubMicroseconds => "Micro-seconds parameter out of range or produces invalid date",
            Parameter::AddNanoseconds
            | Parameter::SubNanoseconds => "Nano-seconds parameter out of range or produces invalid date",
            Parameter::ToRfc2822 => "RFC2822 can only write the years 0 to 9999. This date is out of range.",
            Parameter::ToTimestampNanos => "An i64 with nanosecond precision can span a range of ~584 years. This timestamp is out of range.",
            _ => "Date and time out of range",
        }
    }

    /// What is said where the parameter is too long a duration.
    pub open spec fn length_complaint_text(self) -> Seq<char> {
        match self {
            Parameter::AddWeeks | Parameter::SubWeeks => "Weeks parameter out of range"@,
            Parameter::AddHours | Parameter::SubHours => "Hours parameter out of range"@,
            Parameter::AddMinutes | Parameter::SubMinutes => "Minutes parameter out of range"@,
            Parameter::AddSeconds | Parameter::SubSeconds => "Seconds parameter out of range"@,
            Parameter::AddMilliseconds
            | Parameter::SubMilliseconds => "Milli-seconds parameter out of range"@,
            Parameter::AddMicroseconds
            | Parameter::SubMicroseconds => "Micro-seconds parameter out of range"@,
            Parameter::AddNanoseconds
            | Parameter::SubNanoseconds => "Nano-seconds parameter out of range"@,
            _ => "Duration out of range"@,
        }
    }

    /// What is said where the parameter is too long a duration.
    pub fn length_complaint(self) -> (r: &'static str)
        ensures
            r@ == self.length_complaint_text(),
    {
        match self {
            Parameter::AddWeeks | Parameter::SubWeeks => "Weeks parameter out of range",
            Parameter::AddHours | Parameter::SubHours => "Hours parameter out of range",
            Parameter::AddMinutes | Parameter::SubMinutes => "Minutes parameter out of range",
            Parameter::AddSeconds | Parameter::SubSeconds => "Seconds parameter out of range",
            Parameter::AddMilliseconds
            | Parameter::SubMilliseconds => "Milli-seconds parameter out of range",
            Parameter::AddMicroseconds
            | Parameter::SubMicroseconds => "Micro-seconds parameter out of range",
            Parameter::AddNanoseconds
            | Parameter::SubNanoseconds => "Nano-seconds parameter out of range",
            _ => "Duration out of range",
        }
    }

    /// What is said where the parameter is no value of its field.
    pub open spec fn field_complaint_text(self) -> Seq<char> {
        match self {
            Parameter::WithOrdinal | Parameter::WithOrdinal0 => "Ordinal parameter out of range"@,
            Parameter::WithYear => "Year parameter out of range or produces invalid date"@,
            Parameter::WithMonth
            | Parameter::WithMonth0 => "Month parameter out of range or produces invalid date"@,
            Parameter::WithDay
            | Parameter::WithDay0 => "Day parameter out of range or produces invalid date"@,
            Parameter::WithHour => "Hour parameter out of range or produces invalid date"@,
            Parameter::WithMinute => "Minute parameter out of range or produces invalid date"@,
            Parameter::WithSecond => "Second parameter out of range or produces invalid date"@,
            Parameter::WithNanosecond => "Nano-second parameter out of range or produces invalid date"@,
            _ => "Parameter out of range"@,
        }
    }

    /// What is said where the parameter is no value of its field.
    pub fn field_complaint(self) -> (r: &'static str)
        ensures
            r@ == self.field_complaint_text(),
    {
        match self {
            Parameter::WithOrdinal | Parameter::WithOrdinal0 => "Ordinal parameter out of range",
            Parameter::WithYear => "Year parameter out of range or produces invalid date",
            Parameter::WithMonth
            | Parameter::WithMonth0 => "Month parameter out of range or produces invalid date",
            Parameter::WithDay
            | Parameter::WithDay0 => "Day parameter out of range or produces invalid date",
            Parameter::WithHour => "Hour parameter out of range or produces invalid date",
            Parameter::WithMinute => "Minute parameter out of range or produces invalid date",
            Parameter::WithSecond => "Second parameter out of range or produces invalid date",
            Parameter::WithNanosecond => "Nano-second parameter out of range or produces invalid date",
            _ => "Parameter out of range",
        }
    }

    /// What is said where the parameter needs what is switched off.
    pub open spec fn capability_complaint_text(self) -> Seq<char> {
        match self {
            Parameter::WithTimezone => "Named time zones are switched off: give `local` or a fixed offset"@,
            Parameter::Locale => "Locales are switched off: leave the `locale` parameter out"@,
            _ => "This parameter is switched off"@,
        }
    }

    /// What is said where the parameter needs what is switched off.
    pub fn capability_complaint(self) -> (r: &'static str)
        ensures
            r@ == self.capability_complaint_text(),
    {
        match self {
            Parameter::WithTimezone => "Named time zones are switched off: give `local` or a fixed offset",
            Parameter::Locale => "Locales are switched off: leave the `locale` parameter out",
            _ => "This parameter is switched off",
        }
    }
}

impl Error {
    /// The kind of the failure.
    pub fn kind(&self) -> (r: ErrorKind)
        ensures
            r == self.kind_of(),
    {
        match self {
            Error::MissingParameter(_) => ErrorKind::MissingParameter,
            Error::InvalidInteger(_, _) => ErrorKind::InvalidInteger,
            Error::InvalidFormat(_) => ErrorKind::InvalidFormat,
            Error::OutOfRange(_, _) => ErrorKind::OutOfRange,
            Error::FieldOutOfRange(_) => ErrorKind::FieldOutOfRange,
            Error::InvalidTimezone(_) => ErrorKind::InvalidTimezone,
            Error::InvalidLocale => ErrorKind::InvalidLocale,
            Error::NegativeRange => ErrorKind::NegativeRange,
            Error::UnsupportedCapability(_) => ErrorKind::UnsupportedCapability,
        }
    }

    /// The kind of the failure.
    pub open spec fn kind_of(self) -> ErrorKind {
        match self {
            Error::MissingParameter(_) => ErrorKind::MissingParameter,
            Error::InvalidInteger(_, _) => ErrorKind::InvalidInteger,
            Error::InvalidFormat(_) => ErrorKind::InvalidFormat,
            Error::OutOfRange(_, _) => ErrorKind::OutOfRange,
            Error::FieldOutOfRange(_) => ErrorKind::FieldOutOfRange,
            Error::InvalidTimezone(_) => ErrorKind::InvalidTimezone,
            Error::InvalidLocale => ErrorKind::InvalidLocale,
            Error::NegativeRange => ErrorKind::NegativeRange,
            Error::UnsupportedCapability(_) => ErrorKind::UnsupportedCapability,
        }
    }

    /// The text that reports the failure.
    pub open spec fn text(self) -> Seq<char> {
        match self {
            Error::MissingParameter(p) => "Missing `"@ + p.key() + "` hash parameter"@,
            Error::InvalidInteger(p, fault) => p.integer_complaint_text() + ": "@
                + fault.words_text(),
            Error::InvalidFormat(p) => p.format_complaint_text(),
            Error::OutOfRange(p, Span::Duration) => p.length_complaint_text(),
            Error::OutOfRange(p, Span::Instant) => p.reach_complaint_text(),
            Error::FieldOutOfRange(p) => p.field_complaint_text(),
            Error::InvalidTimezone(ZoneFault::Offset) =>
                "Failed to parse timezone offset. Supported values are IANA timezones, local or valid fixed offset"@,
            Error::InvalidTimezone(ZoneFault::Name) =>
                "Failed to parse IANA timezone. Supported values are IANA timezones, local or valid fixed offset"@,
            Error::InvalidLocale => "Invalid locale provided"@,
            Error::NegativeRange => "Negative range, try swapping the parameters."@,
            Error::UnsupportedCapability(p) => p.capability_complaint_text(),
        }
    }

    /// The text that reports the failure.
    pub fn message(&self) -> (r: String)
        ensures
            r@ == self.text(),
    {
        match self {
            Error::MissingParameter(p) => {
                let mut out = String::from_str("Missing `");
                out.append(p.name());
                out.append("` hash parameter");
                out
            },
            Error::InvalidInteger(p, fault) => {
                let mut out = String::from_str(p.integer_complaint());
                out.append(": ");
                out.append(fault.words());
                out
            },
            Error::InvalidFormat(p) => String::from_str(p.format_complaint()),
            Error::OutOfRange(p, Span::Duration) => String::from_str(p.length_complaint()),
            Error::OutOfRange(p, Span::Instant) => String::from_str(p.reach_complaint()),
            Error::FieldOutOfRange(p) => String::from_str(p.field_complaint()),
            Error::InvalidTimezone(ZoneFault::Offset) => String::from_str(
                "Failed to parse timezone offset. Supported values are IANA timezones, local or valid fixed offset",
            ),
            Error::InvalidTimezone(ZoneFault::Name) => String::from_str(
                "Failed to parse IANA timezone. Supported values are IANA timezones, local or valid fixed offset",
            ),
            Error::InvalidLocale => String::from_str("Invalid locale provided"),
            Error::NegativeRange => String::from_str("Negative range, try swapping the parameters."),
            Error::UnsupportedCapability(p) => String::from_str(p.capability_complaint()),
        }
    }
}

} // verus!
