//! The finalizer stage: the text that the instant is written as.

use vstd::prelude::*;
use crate::calendar;
use crate::calendar::{
    count_of, locale_known, localized_text, pattern_text, rfc2822_text, rfc3339_reading,
    rfc3339_text, text_of, years_elapsed,
};
use crate::decimal::{decimal_string, decimal_text};
use crate::error::Error;
use crate::instant::{Instant, Moment, Span};
use crate::modifier::{settle, settled};
use crate::params::{Parameter, ParameterSet};
use crate::zone::Capabilities;

verus! {

/// The output encodings, in the order in which they are looked for. The
/// first that is asked for decides.
#[derive(Clone, Copy, Debug, PartialEq, Eq, Structural)]
pub enum FinalizerChoice {
    /// `output_format`: a pattern, with the names of `locale` where given.
    Pattern,
    /// `to_rfc2822`.
    Rfc2822,
    /// `to_timestamp`: whole seconds since the epoch.
    Timestamp,
    /// `to_timestamp_millis`: whole milliseconds since the epoch.
    TimestampMillis,
    /// `to_timestamp_micros`: whole microseconds since the epoch.
    TimestampMicros,
    /// `to_timestamp_nanos`: nanoseconds since the epoch.
    TimestampNanos,
    /// `years_since`: whole years since a base instant.
    YearsSince,
    /// None of them: RFC 3339.
    Rfc3339,
}

/// The encoding that the parameters ask for.
pub open spec fn finalizer_choice(p: Map<Seq<char>, Seq<char>>) -> FinalizerChoice {
    if p.dom().contains(Parameter::OutputFormat.key()) {
        FinalizerChoice::Pattern
    } else if p.dom().contains(Parameter::ToRfc2822.key()) {
        FinalizerChoice::Rfc2822
    } else if p.dom().contains(Parameter::ToTimestamp.key()) {
        FinalizerChoice::Timestamp
    } else if p.dom().contains(Parameter::ToTimestampMillis.key()) {
        FinalizerChoice::TimestampMillis
    } else if p.dom().contains(Parameter::ToTimestampMicros.key()) {
        FinalizerChoice::TimestampMicros
    } else if p.dom().contains(Parameter::ToTimestampNanos.key()) {
        FinalizerChoice::TimestampNanos
    } else if p.dom().contains(Parameter::YearsSince.key()) {
        FinalizerChoice::YearsSince
    } else {
        FinalizerChoice::Rfc3339
    }
}

impl FinalizerChoice {
    /// The encoding that the parameters ask for.
    pub fn select(params: &ParameterSet) -> (r: FinalizerChoice)
        ensures
            r == finalizer_choice(params@),
    {
        if params.has(Parameter::OutputFormat.name()) {
            FinalizerChoice::Pattern
        } else if params.has(Parameter::ToRfc2822.name()) {
            FinalizerChoice::Rfc2822
        } else if params.has(Parameter::ToTimestamp.name()) {
            FinalizerChoice::Timestamp
        } else if params.has(Parameter::ToTimestampMillis.name()) {
            FinalizerChoice::TimestampMillis
        } else if params.has(Parameter::ToTimestampMicros.name()) {
            FinalizerChoice::TimestampMicros
        } else if params.has(Parameter::ToTimestampNanos.name()) {
            FinalizerChoice::TimestampNanos
        } else if params.has(Parameter::YearsSince.name()) {
            FinalizerChoice::YearsSince
        } else {
            FinalizerChoice::Rfc3339
        }
    }
}

/// The outcome of a transformation over sequences of characters.
pub open spec fn text_result(r: Result<String, Error>) -> Result<Seq<char>, Error> {
    match r {
        Ok(text) => Ok(text@),
        Err(e) => Err(e),
    }
}

/// The text that a pattern gave, or `InvalidFormat` where the pattern could
/// not be followed.
pub open spec fn patterned(text: Option<Seq<char>>) -> Result<Seq<char>, Error> {
    match text {
        Some(written) => Ok(written),
        None => Err(Error::InvalidFormat(Parameter::OutputFormat)),
    }
}

/// Takes the text that a pattern gave.
pub fn pattern_outcome(text: Option<String>) -> (r: Result<String, Error>)
    ensures
        text_result(r) == patterned(text_of(text)),
{
    match text {
        Some(written) => Ok(written),
        None => Err(Error::InvalidFormat(Parameter::OutputFormat)),
    }
}

/// The count of years in decimal, or `NegativeRange` where there is none
/// because the base lies after the instant.
pub open spec fn aged(years: Option<int>) -> Result<Seq<char>, Error> {
    match years {
        Some(count) => Ok(decimal_text(count)),
        None => Err(Error::NegativeRange),
    }
}

/// Writes the count of years that the calendar gave.
pub fn years_outcome(years: Option<u32>) -> (r: Result<String, Error>)
    ensures
        text_result(r) == aged(count_of(years)),
{
    match years {
        Some(count) => Ok(decimal_string(count as i64)),
        None => Err(Error::NegativeRange),
    }
}

/// Whether RFC 2822 can write the local year of `m`: it has four digits for
/// it and no sign.
pub open spec fn rfc2822_holds(m: Moment) -> bool {
    -62_167_219_200 <= m.seconds() + m.offset <= 253_402_300_799
}

/// The text that the instant is written as.
///
/// For `years_since` the base is shown under the offset of the instant, so
/// that the years are counted between two local dates of one zone; there is
/// a count unless the base is the later of the two.
pub open spec fn finalized(
    p: Map<Seq<char>, Seq<char>>,
    m: Moment,
    caps: Capabilities,
) -> Result<Seq<char>, Error> {
    match finalizer_choice(p) {
        FinalizerChoice::Pattern => {
            let pattern = p[Parameter::OutputFormat.key()];
            let locale = p[Parameter::Locale.key()];
            if !p.dom().contains(Parameter::Locale.key()) {
                patterned(pattern_text(m.seconds(), m.subsec(), m.offset, pattern))
            } else if !caps.locales {
                Err(Error::UnsupportedCapability(Parameter::Locale))
            } else if !locale_known(locale) {
                Err(Error::InvalidLocale)
            } else {
                patterned(localized_text(m.seconds(), m.subsec(), m.offset, pattern, locale))
            }
        },
        FinalizerChoice::Rfc2822 => if rfc2822_holds(m) {
            Ok(rfc2822_text(m.seconds(), m.subsec(), m.offset))
        } else {
            Err(Error::OutOfRange(Parameter::ToRfc2822, Span::Instant))
        },
        FinalizerChoice::Timestamp => Ok(decimal_text(m.nanos / 1_000_000_000)),
        FinalizerChoice::TimestampMillis => Ok(decimal_text(m.nanos / 1_000_000)),
        FinalizerChoice::TimestampMicros => Ok(decimal_text(m.nanos / 1_000)),
        FinalizerChoice::TimestampNanos => if i64::MIN <= m.nanos <= i64::MAX {
            Ok(decimal_text(m.nanos))
        } else {
            Err(Error::OutOfRange(Parameter::ToTimestampNanos, Span::Instant))
        },
        FinalizerChoice::YearsSince => match settled(
            rfc3339_reading(p[Parameter::YearsSince.key()]),
            m.offset,
            Error::InvalidFormat(Parameter::YearsSince),
            Error::OutOfRange(Parameter::YearsSince, Span::Instant),
        ) {
            Ok(base) => aged(
                if base.nanos <= m.nanos {
                    Some(
                        years_elapsed(
                            m.seconds(),
                            m.subsec(),
                            m.offset,
                            base.seconds(),
                            base.subsec(),
                            base.offset,
                        ),
                    )
                } else {
                    None
                },
            ),
            Err(e) => Err(e),
        },
        FinalizerChoice::Rfc3339 => Ok(rfc3339_text(m.seconds(), m.subsec(), m.offset)),
    }
}

/// Writes the instant as the parameters ask.
pub fn finalize(
    params: &ParameterSet,
    instant: Instant,
    caps: Capabilities,
) -> (r: Result<String, Error>)
    ensures
        text_result(r) == finalized(params@, instant@, caps),
{
    let (secs, nanos, offset) = instant.parts();
    if let Some(pattern) = params.get(Parameter::OutputFormat.name()) {
        match params.get(Parameter::Locale.name()) {
            None => pattern_outcome(calendar::write_pattern(secs, nanos, offset, pattern.as_str())),
            Some(locale) => {
                if !caps.locales {
                    Err(Error::UnsupportedCapability(Parameter::Locale))
                } else if !calendar::knows_locale(locale.as_str()) {
                    Err(Error::InvalidLocale)
                } else {
                    pattern_outcome(
                        calendar::write_localized(
                            secs,
                            nanos,
                            offset,
                            pattern.as_str(),
                            locale.as_str(),
                        ),
                    )
                }
            },
        }
    } else if params.has(Parameter::ToRfc2822.name()) {
        if -62_167_219_200 <= secs + offset as i64 && secs + offset as i64 <= 253_402_300_799 {
            Ok(calendar::write_rfc2822(secs, nanos, offset))
        } else {
            Err(Error::OutOfRange(Parameter::ToRfc2822, Span::Instant))
        }
    } else if params.has(Parameter::ToTimestamp.name()) {
        Ok(decimal_string(instant.timestamp()))
    } else if params.has(Parameter::ToTimestampMillis.name()) {
        Ok(decimal_string(instant.timestamp_millis()))
    } else if params.has(Parameter::ToTimestampMicros.name()) {
        Ok(decimal_string(instant.timestamp_micros()))
    } else if params.has(Parameter::ToTimestampNanos.name()) {
        match instant.timestamp_nanos() {
            Some(total) => Ok(decimal_string(total)),
            None => Err(Error::OutOfRange(Parameter::ToTimestampNanos, Span::Instant)),
        }
    } else if let Some(text) = params.get(Parameter::YearsSince.name()) {
        match settle(
            calendar::read_rfc3339(text.as_str()),
            offset,
            Error::InvalidFormat(Parameter::YearsSince),
            Error::OutOfRange(Parameter::YearsSince, Span::Instant),
        ) {
            Ok(base) => {
                let (base_secs, base_nanos, base_offset) = base.parts();
                years_outcome(
                    calendar::years_since(secs, nanos, offset, base_secs, base_nanos, base_offset),
                )
            },
            Err(e) => Err(e),
        }
    } else {
        Ok(calendar::write_rfc3339(secs, nanos, offset))
    }
}

} // verus!
