use handlebars_chrono::decimal::IntegerFault;
use handlebars_chrono::error::{Error, ErrorKind, ZoneFault};
use handlebars_chrono::instant::Span;
use handlebars_chrono::params::Parameter;

#[test]
fn every_failure_has_its_kind() {
    assert_eq!(Error::MissingParameter(Parameter::InputFormat).kind(), ErrorKind::MissingParameter);
    assert_eq!(
        Error::InvalidInteger(Parameter::WithDay, IntegerFault::Empty).kind(),
        ErrorKind::InvalidInteger
    );
    assert_eq!(Error::InvalidFormat(Parameter::FromRfc3339).kind(), ErrorKind::InvalidFormat);
    assert_eq!(Error::OutOfRange(Parameter::AddDays, Span::Instant).kind(), ErrorKind::OutOfRange);
    assert_eq!(Error::OutOfRange(Parameter::AddWeeks, Span::Duration).kind(), ErrorKind::OutOfRange);
    assert_eq!(Error::FieldOutOfRange(Parameter::WithHour).kind(), ErrorKind::FieldOutOfRange);
    assert_eq!(Error::InvalidTimezone(ZoneFault::Name).kind(), ErrorKind::InvalidTimezone);
    assert_eq!(Error::InvalidTimezone(ZoneFault::Offset).kind(), ErrorKind::InvalidTimezone);
    assert_eq!(Error::InvalidLocale.kind(), ErrorKind::InvalidLocale);
    assert_eq!(Error::NegativeRange.kind(), ErrorKind::NegativeRange);
    assert_eq!(
        Error::UnsupportedCapability(Parameter::Locale).kind(),
        ErrorKind::UnsupportedCapability
    );
}

#[test]
fn a_bad_integer_is_reported_with_its_parameter_and_its_fault() {
    assert_eq!(
        Error::InvalidInteger(Parameter::FromTimestamp, IntegerFault::InvalidDigit).message(),
        "Invalid seconds timestamp: invalid digit found in string"
    );
    assert_eq!(
        Error::InvalidInteger(Parameter::FromTimestampMillis, IntegerFault::Empty).message(),
        "Invalid milli-seconds timestamp: cannot parse integer from empty string"
    );
    assert_eq!(
        Error::InvalidInteger(Parameter::FromTimestampMicros, IntegerFault::PosOverflow).message(),
        "Invalid micro-seconds timestamp: number too large to fit in target type"
    );
    assert_eq!(
        Error::InvalidInteger(Parameter::FromTimestampNanos, IntegerFault::NegOverflow).message(),
        "Invalid nano-seconds timestamp: number too small to fit in target type"
    );
    let fault = IntegerFault::InvalidDigit;
    let tail = ": invalid digit found in string";
    for (parameter, head) in [
        (Parameter::WithOrdinal, "Invalid ordinal parameter"),
        (Parameter::WithOrdinal0, "Invalid ordinal parameter"),
        (Parameter::WithYear, "Invalid year parameter"),
        (Parameter::WithMonth, "Invalid month parameter"),
        (Parameter::WithMonth0, "Invalid month parameter"),
        (Parameter::WithDay, "Invalid day parameter"),
        (Parameter::WithDay0, "Invalid day parameter"),
        (Parameter::WithHour, "Invalid hour parameter"),
        (Parameter::WithMinute, "Invalid minute parameter"),
        (Parameter::WithSecond, "Invalid second parameter"),
        (Parameter::WithNanosecond, "Invalid nano-second parameter"),
        (Parameter::AddMonths, "Invalid months parameter"),
        (Parameter::SubMonths, "Invalid months parameter"),
        (Parameter::AddWeeks, "Invalid weeks parameter"),
        (Parameter::SubWeeks, "Invalid weeks parameter"),
        (Parameter::AddDays, "Invalid days parameter"),
        (Parameter::SubDays, "Invalid days parameter"),
        (Parameter::AddHours, "Invalid hours parameter"),
        (Parameter::SubHours, "Invalid hours parameter"),
        (Parameter::AddMinutes, "Invalid minutes parameter"),
        (Parameter::SubMinutes, "Invalid minutes parameter"),
        (Parameter::AddSeconds, "Invalid seconds parameter"),
        (Parameter::SubSeconds, "Invalid seconds parameter"),
        (Parameter::AddMilliseconds, "Invalid milli-seconds parameter"),
        (Parameter::SubMilliseconds, "Invalid milli-seconds parameter"),
        (Parameter::AddMicroseconds, "Invalid micro-seconds parameter"),
        (Parameter::SubMicroseconds, "Invalid micro-seconds parameter"),
        (Parameter::AddNanoseconds, "Invalid nano-seconds parameter"),
        (Parameter::SubNanoseconds, "Invalid nano-seconds parameter"),
        (Parameter::Locale, "Invalid integer"),
    ] {
        assert_eq!(parameter.integer_complaint(), head);
        assert_eq!(Error::InvalidInteger(parameter, fault).message(), format!("{}{}", head, tail));
    }
}

#[test]
fn a_value_out_of_range_is_reported_with_its_parameter() {
    assert_eq!(
        Error::OutOfRange(Parameter::FromTimestamp, Span::Instant).message(),
        "Out-of-range number of seconds"
    );
    assert_eq!(
        Error::OutOfRange(Parameter::FromTimestampMillis, Span::Instant).message(),
        "Out-of-range number of milliseconds"
    );
    assert_eq!(
        Error::OutOfRange(Parameter::FromTimestampMicros, Span::Instant).message(),
        "Number of microseconds would be out of range (more than ca. 262,000 years away from common era)"
    );
    assert_eq!(
        Error::OutOfRange(Parameter::ToTimestampNanos, Span::Instant).message(),
        "An i64 with nanosecond precision can span a range of ~584 years. This timestamp is out of range."
    );
    assert_eq!(
        Error::OutOfRange(Parameter::ToRfc2822, Span::Instant).message(),
        "RFC2822 can only write the years 0 to 9999. This date is out of range."
    );
    assert_eq!(
        Error::OutOfRange(Parameter::FromRfc3339, Span::Instant).message(),
        "Date and time out of range"
    );
    for (add, sub, word) in [
        (Parameter::AddMonths, Parameter::SubMonths, "Months"),
        (Parameter::AddWeeks, Parameter::SubWeeks, "Weeks"),
        (Parameter::AddDays, Parameter::SubDays, "Days"),
        (Parameter::AddHours, Parameter::SubHours, "Hours"),
        (Parameter::AddMinutes, Parameter::SubMinutes, "Minutes"),
        (Parameter::AddSeconds, Parameter::SubSeconds, "Seconds"),
        (Parameter::AddMilliseconds, Parameter::SubMilliseconds, "Milli-seconds"),
        (Parameter::AddMicroseconds, Parameter::SubMicroseconds, "Micro-seconds"),
        (Parameter::AddNanoseconds, Parameter::SubNanoseconds, "Nano-seconds"),
    ] {
        let reach = format!("{} parameter out of range or produces invalid date", word);
        assert_eq!(Error::OutOfRange(add, Span::Instant).message(), reach);
        assert_eq!(Error::OutOfRange(sub, Span::Instant).message(), reach);
    }
    for (add, sub, word) in [
        (Parameter::AddWeeks, Parameter::SubWeeks, "Weeks"),
        (Parameter::AddHours, Parameter::SubHours, "Hours"),
        (Parameter::AddMinutes, Parameter::SubMinutes, "Minutes"),
        (Parameter::AddSeconds, Parameter::SubSeconds, "Seconds"),
        (Parameter::AddMilliseconds, Parameter::SubMilliseconds, "Milli-seconds"),
        (Parameter::AddMicroseconds, Parameter::SubMicroseconds, "Micro-seconds"),
        (Parameter::AddNanoseconds, Parameter::SubNanoseconds, "Nano-seconds"),
    ] {
        let length = format!("{} parameter out of range", word);
        assert_eq!(Error::OutOfRange(add, Span::Duration).message(), length);
        assert_eq!(Error::OutOfRange(sub, Span::Duration).message(), length);
    }
    assert_eq!(
        Error::OutOfRange(Parameter::AddDays, Span::Duration).message(),
        "Duration out of range"
    );
}

#[test]
fn a_value_that_a_field_cannot_take_is_reported_with_its_parameter() {
    for (parameter, text) in [
        (Parameter::WithOrdinal, "Ordinal parameter out of range"),
        (Parameter::WithOrdinal0, "Ordinal parameter out of range"),
        (Parameter::WithYear, "Year parameter out of range or produces invalid date"),
        (Parameter::WithMonth, "Month parameter out of range or produces invalid date"),
        (Parameter::WithMonth0, "Month parameter out of range or produces invalid date"),
        (Parameter::WithDay, "Day parameter out of range or produces invalid date"),
        (Parameter::WithDay0, "Day parameter out of range or produces invalid date"),
        (Parameter::WithHour, "Hour parameter out of range or produces invalid date"),
        (Parameter::WithMinute, "Minute parameter out of range or produces invalid date"),
        (Parameter::WithSecond, "Second parameter out of range or produces invalid date"),
        (Parameter::WithNanosecond, "Nano-second parameter out of range or produces invalid date"),
        (Parameter::AddDays, "Parameter out of range"),
    ] {
        assert_eq!(Error::FieldOutOfRange(parameter).message(), text);
    }
}

#[test]
fn the_other_failures_have_their_words() {
    assert_eq!(
        Error::MissingParameter(Parameter::InputFormat).message(),
        "Missing `input_format` hash parameter"
    );
    assert_eq!(
        Error::InvalidFormat(Parameter::FromRfc2822).message(),
        "Invalid RFC2822 datetime format"
    );
    assert_eq!(
        Error::InvalidFormat(Parameter::FromRfc3339).message(),
        "Invalid RFC3339 datetime format"
    );
    assert_eq!(
        Error::InvalidFormat(Parameter::YearsSince).message(),
        "Invalid RFC3339 datetime format"
    );
    assert_eq!(
        Error::InvalidFormat(Parameter::FromStr).message(),
        "Invalid datetime format or format doesn't match input"
    );
    assert_eq!(Error::InvalidFormat(Parameter::OutputFormat).message(), "Invalid output format");
    assert_eq!(Error::InvalidFormat(Parameter::Locale).message(), "Invalid format");
    assert_eq!(
        Error::InvalidTimezone(ZoneFault::Offset).message(),
        "Failed to parse timezone offset. Supported values are IANA timezones, local or valid fixed offset"
    );
    assert_eq!(
        Error::InvalidTimezone(ZoneFault::Name).message(),
        "Failed to parse IANA timezone. Supported values are IANA timezones, local or valid fixed offset"
    );
    assert_eq!(Error::InvalidLocale.message(), "Invalid locale provided");
    assert_eq!(Error::NegativeRange.message(), "Negative range, try swapping the parameters.");
    assert_eq!(
        Error::UnsupportedCapability(Parameter::WithTimezone).message(),
        "Named time zones are switched off: give `local` or a fixed offset"
    );
    assert_eq!(
        Error::UnsupportedCapability(Parameter::Locale).message(),
        "Locales are switched off: leave the `locale` parameter out"
    );
    assert_eq!(
        Error::UnsupportedCapability(Parameter::AddDays).message(),
        "This parameter is switched off"
    );
}
