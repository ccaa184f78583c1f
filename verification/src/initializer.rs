//! The initializer stage: where the starting instant comes from.

use vstd::prelude::*;
use crate::calendar;
use crate::calendar::{pattern_reading, rfc2822_reading, rfc3339_reading};
use crate::decimal::{parse_decimal, parse_i64};
use crate::error::Error;
use crate::instant::{Instant, Moment, Span};
use crate::modifier::{moment_result, settle, settled};
use crate::params::{Parameter, ParameterSet};

verus! {

/// The sources of a starting instant, in the order in which they are looked
/// for. The first that is given decides; the others are not read.
#[derive(Clone, Copy, Debug, PartialEq, Eq, Structural)]
pub enum InitializerChoice {
    /// `from_timestamp`: seconds since the epoch.
    Timestamp,
    /// `from_timestamp_millis`: milliseconds since the epoch.
    TimestampMillis,
    /// `from_timestamp_micros`: microseconds since the epoch.
    TimestampMicros,
    /// `from_timestamp_nanos`: nanoseconds since the epoch.
    TimestampNanos,
    /// `from_rfc2822`: an RFC 2822 text.
    Rfc2822,
    /// `from_rfc3339`: an RFC 3339 text.
    Rfc3339,
    /// `from_str`: a text under the pattern of `input_format`.
    Pattern,
    /// None of them: the clock.
    Clock,
}

/// The source that the parameters give.
pub open spec fn initializer_choice(p: Map<Seq<char>, Seq<char>>) -> InitializerChoice {
    if p.dom().contains(Parameter::FromTimestamp.key()) {
        InitializerChoice::Timestamp
    } else if p.dom().contains(Parameter::FromTimestampMillis.key()) {
        InitializerChoice::TimestampMillis
    } else if p.dom().contains(Parameter::FromTimestampMicros.key()) {
        InitializerChoice::TimestampMicros
    } else if p.dom().contains(Parameter::FromTimestampNanos.key()) {
        InitializerChoice::TimestampNanos
    } else if p.dom().contains(Parameter::FromRfc2822.key()) {
        InitializerChoice::Rfc2822
    } else if p.dom().contains(Parameter::FromRfc3339.key()) {
        InitializerChoice::Rfc3339
    } else if p.dom().contains(Parameter::FromStr.key()) {
        InitializerChoice::Pattern
    } else {
        InitializerChoice::Clock
    }
}

impl InitializerChoice {
    /// The source that the parameters give.
    pub fn select(params: &ParameterSet) -> (r: InitializerChoice)
        ensures
            r == initializer_choice(params@),
    {
        if params.has(Parameter::FromTimestamp.name()) {
            InitializerChoice::Timestamp
        } else if params.has(Parameter::FromTimestampMillis.name()) {
            InitializerChoice::TimestampMillis
        } else if params.has(Parameter::FromTimestampMicros.name()) {
            InitializerChoice::TimestampMicros
        } else if params.has(Parameter::FromTimestampNanos.name()) {
            InitializerChoice::TimestampNanos
        } else if params.has(Parameter::FromRfc2822.name()) {
            InitializerChoice::Rfc2822
        } else if params.has(Parameter::FromRfc3339.name()) {
            InitializerChoice::Rfc3339
        } else if params.has(Parameter::FromStr.name()) {
            InitializerChoice::Pattern
        } else {
            InitializerChoice::Clock
        }
    }
}

/// The moment that a count since the epoch gives, where one count is `scale`
/// nanoseconds long: the text must be a signed 64-bit integer, and the moment
/// must lie in range.
pub open spec fn counted(
    parameter: Parameter,
    text: Seq<char>,
    scale: int,
) -> Result<Moment, Error> {
    match parse_decimal(text, i64::MIN as int, i64::MAX as int) {
        Err(fault) => Err(Error::InvalidInteger(parameter, fault)),
        Ok(count) => match Moment::at(count * scale, 0) {
            Some(m) => Ok(m),
            None => Err(Error::OutOfRange(parameter, Span::Instant)),
        },
    }
}

/// Reads a count since the epoch.
pub fn count(parameter: Parameter, text: &str, scale: i64) -> (r: Result<Instant, Error>)
    ensures
        moment_result(r) == counted(parameter, text@, scale as int),
{
    match parse_i64(text) {
        Err(fault) => Err(Error::InvalidInteger(parameter, fault)),
        Ok(n) => {
            assert(-0x8000_0000_0000_0000 * 0x8000_0000_0000_0000 <= n * scale
                <= 0x8000_0000_0000_0000 * 0x8000_0000_0000_0000) by (nonlinear_arith)
                requires
                    -0x8000_0000_0000_0000 <= n <= 0x8000_0000_0000_0000,
                    -0x8000_0000_0000_0000 <= scale <= 0x8000_0000_0000_0000,
            ;
            match Instant::from_total((n as i128) * (scale as i128), 0) {
                Some(i) => Ok(i),
                None => Err(Error::OutOfRange(parameter, Span::Instant)),
            }
        },
    }
}

/// The moment that a text gives which the calendar has read.
pub open spec fn dated(parameter: Parameter, reading: Option<(int, int)>) -> Result<Moment, Error> {
    settled(
        reading,
        0,
        Error::InvalidFormat(parameter),
        Error::OutOfRange(parameter, Span::Instant),
    )
}

/// The starting moment. `now` is what the clock shows.
pub open spec fn started(p: Map<Seq<char>, Seq<char>>, now: Moment) -> Result<Moment, Error> {
    match initializer_choice(p) {
        InitializerChoice::Timestamp => counted(
            Parameter::FromTimestamp,
            p[Parameter::FromTimestamp.key()],
            1_000_000_000,
        ),
        InitializerChoice::TimestampMillis => counted(
            Parameter::FromTimestampMillis,
            p[Parameter::FromTimestampMillis.key()],
            1_000_000,
        ),
        InitializerChoice::TimestampMicros => counted(
            Parameter::FromTimestampMicros,
            p[Parameter::FromTimestampMicros.key()],
            1_000,
        ),
        InitializerChoice::TimestampNanos => counted(
            Parameter::FromTimestampNanos,
            p[Parameter::FromTimestampNanos.key()],
            1,
        ),
        InitializerChoice::Rfc2822 => dated(
            Parameter::FromRfc2822,
            rfc2822_reading(p[Parameter::FromRfc2822.key()]),
        ),
        InitializerChoice::Rfc3339 => dated(
            Parameter::FromRfc3339,
            rfc3339_reading(p[Parameter::FromRfc3339.key()]),
        ),
        InitializerChoice::Pattern => if p.dom().contains(Parameter::InputFormat.key()) {
            dated(
                Parameter::FromStr,
                pattern_reading(p[Parameter::FromStr.key()], p[Parameter::InputFormat.key()]),
            )
        } else {
            Err(Error::MissingParameter(Parameter::InputFormat))
        },
        InitializerChoice::Clock => Ok(now),
    }
}

/// Builds the starting instant. `now` is taken where no source is given.
pub fn initialize(params: &ParameterSet, now: Instant) -> (r: Result<Instant, Error>)
    ensures
        moment_result(r) == started(params@, now@),
{
    if let Some(text) = params.get(Parameter::FromTimestamp.name()) {
        count(Parameter::FromTimestamp, text.as_str(), 1_000_000_000)
    } else if let Some(text) = params.get(Parameter::FromTimestampMillis.name()) {
        count(Parameter::FromTimestampMillis, text.as_str(), 1_000_000)
    } else if let Some(text) = params.get(Parameter::FromTimestampMicros.name()) {
        count(Parameter::FromTimestampMicros, text.as_str(), 1_000)
    } else if let Some(text) = params.get(Parameter::FromTimestampNanos.name()) {
        count(Parameter::FromTimestampNanos, text.as_str(), 1)
    } else if let Some(text) = params.get(Parameter::FromRfc2822.name()) {
        settle(
            calendar::read_rfc2822(text.as_str()),
            0,
            Error::InvalidFormat(Parameter::FromRfc2822),
            Error::OutOfRange(Parameter::FromRfc2822, Span::Instant),
        )
    } else if let Some(text) = params.get(Parameter::FromRfc3339.name()) {
        settle(
            calendar::read_rfc3339(text.as_str()),
            0,
            Error::InvalidFormat(Parameter::FromRfc3339),
            Error::OutOfRange(Parameter::FromRfc3339, Span::Instant),
        )
    } else if let Some(text) = params.get(Parameter::FromStr.name()) {
        match params.get(Parameter::InputFormat.name()) {
            Some(pattern) => settle(
                calendar::read_pattern(text.as_str(), pattern.as_str()),
                0,
                Error::InvalidFormat(Parameter::FromStr),
                Error::OutOfRange(Parameter::FromStr, Span::Instant),
            ),
            None => Err(Error::MissingParameter(Parameter::InputFormat)),
        }
    } else {
        Ok(now)
    }
}

} // verus!
