use chrono::{DateTime, FixedOffset, Local, Locale, Utc};
use chrono_tz::Tz;
use handlebars_chrono::decimal::IntegerFault;
use handlebars_chrono::error::{Error, ZoneFault};
use handlebars_chrono::instant::{Instant, Span};
use handlebars_chrono::params::{Parameter, ParameterSet};
use handlebars_chrono::zone::Capabilities;
use handlebars_chrono::HandlebarsChronoDateTime;

fn set_of(pairs: &[(&str, &str)]) -> ParameterSet {
    let mut params = ParameterSet::new();
    for (name, value) in pairs {
        params.set(name, value);
    }
    params
}

fn run(pairs: &[(&str, &str)]) -> Result<String, Error> {
    HandlebarsChronoDateTime.call(&set_of(pairs))
}

fn run_at(pairs: &[(&str, &str)], now: i64, local: i32) -> Result<String, Error> {
    let now = Instant::from_timestamp(now).unwrap();
    HandlebarsChronoDateTime.call_at(&set_of(pairs), now, local, Capabilities::full())
}

fn text(written: &str) -> Result<String, Error> {
    Ok(written.to_string())
}

#[test]
fn a_count_of_seconds_is_written_as_rfc3339_by_default() {
    assert_eq!(run(&[("from_timestamp", "618658211")]), text("1989-08-09T09:30:11+00:00"));
    assert_eq!(
        run(&[("from_timestamp", "618658211")]),
        Ok(DateTime::from_timestamp(618658211, 0).unwrap().to_rfc3339())
    );
    assert_eq!(run(&[("from_timestamp", "0")]), text("1970-01-01T00:00:00+00:00"));
    assert_eq!(run(&[("from_timestamp", "-1")]), text("1969-12-31T23:59:59+00:00"));
}

#[test]
fn a_count_of_seconds_plus_24_months_is_written_as_a_count_of_seconds() {
    assert_eq!(
        run(&[("from_timestamp", "618658211"), ("add_months", "24"), ("to_timestamp", "true")]),
        text("681730211")
    );
}

#[test]
fn a_pattern_gives_the_exact_text() {
    assert_eq!(
        run(&[("from_timestamp", "618658211"), ("output_format", "%Y-%m-%d %H:%M:%S")]),
        text("1989-08-09 09:30:11")
    );
    assert_eq!(
        run(&[("from_timestamp", "618658211"), ("output_format", "%A, %B %e")]),
        text("Wednesday, August  9")
    );
    assert_eq!(run(&[("from_timestamp", "618658211"), ("output_format", "")]), text(""));
    assert_eq!(
        run(&[("from_timestamp", "618658211"), ("output_format", "day %j, 100%%")]),
        text("day 221, 100%")
    );
}

#[test]
fn a_pattern_takes_the_names_of_a_locale() {
    assert_eq!(
        run(&[
            ("from_timestamp", "618658211"),
            ("output_format", "%A, %B %e"),
            ("locale", "fr_FR")
        ]),
        text("mercredi, ao\u{00fb}t  9")
    );
    assert_eq!(
        run(&[
            ("from_timestamp", "618658211"),
            ("output_format", "%A, %B %e"),
            ("locale", "de_DE")
        ]),
        Ok(DateTime::from_timestamp(618658211, 0)
            .unwrap()
            .format_localized("%A, %B %e", Locale::de_DE)
            .to_string())
    );
    assert_eq!(
        run(&[("from_timestamp", "618658211"), ("output_format", "%A"), ("locale", "GAGA")]),
        Err(Error::InvalidLocale)
    );
    assert_eq!(
        run(&[("from_timestamp", "618658211"), ("output_format", "%A"), ("locale", "")]),
        Err(Error::InvalidLocale)
    );
    assert_eq!(
        run(&[("from_timestamp", "618658211"), ("locale", "GAGA"), ("to_timestamp", "1")]),
        text("618658211")
    );
}

#[test]
fn a_pattern_that_cannot_be_followed_is_refused() {
    let refused = Err(Error::InvalidFormat(Parameter::OutputFormat));
    assert_eq!(run(&[("from_timestamp", "618658211"), ("output_format", "%Q")]), refused);
    assert_eq!(run(&[("from_timestamp", "618658211"), ("output_format", "%Y-%")]), refused);
    assert_eq!(
        run(&[("from_timestamp", "618658211"), ("output_format", "%Q"), ("locale", "fr_FR")]),
        refused
    );
}

#[test]
fn every_encoding_writes_the_instant() {
    let from = ("from_timestamp_nanos", "618658211123456789");
    assert_eq!(run(&[from]), text("1989-08-09T09:30:11.123456789+00:00"));
    assert_eq!(run(&[from, ("to_rfc2822", "true")]), text("Wed, 9 Aug 1989 09:30:11 +0000"));
    assert_eq!(run(&[from, ("to_timestamp", "true")]), text("618658211"));
    assert_eq!(run(&[from, ("to_timestamp_millis", "true")]), text("618658211123"));
    assert_eq!(run(&[from, ("to_timestamp_micros", "true")]), text("618658211123456"));
    assert_eq!(run(&[from, ("to_timestamp_nanos", "true")]), text("618658211123456789"));
    assert_eq!(run(&[from, ("years_since", "1985-06-16T12:00:00Z")]), text("4"));
    assert_eq!(
        run(&[from, ("output_format", "%H:%M:%S%.9f")]),
        text("09:30:11.123456789")
    );
}

#[test]
fn counts_before_the_epoch_are_rounded_towards_the_past() {
    let from = ("from_timestamp_nanos", "-1");
    assert_eq!(run(&[from, ("to_timestamp", "")]), text("-1"));
    assert_eq!(run(&[from, ("to_timestamp_millis", "")]), text("-1"));
    assert_eq!(run(&[from, ("to_timestamp_micros", "")]), text("-1"));
    assert_eq!(run(&[from, ("to_timestamp_nanos", "")]), text("-1"));
    assert_eq!(run(&[("from_timestamp_millis", "-1001"), ("to_timestamp", "")]), text("-2"));
    assert_eq!(
        run(&[("from_timestamp_millis", "-1001"), ("to_timestamp_micros", "")]),
        text("-1001000")
    );
}

#[test]
fn the_first_encoding_that_is_asked_for_decides() {
    let from = ("from_timestamp", "618658211");
    let all = [
        from,
        ("years_since", "no date"),
        ("to_timestamp_nanos", "true"),
        ("to_timestamp_micros", "true"),
        ("to_timestamp_millis", "true"),
        ("to_timestamp", "true"),
        ("to_rfc2822", "true"),
        ("output_format", "%Y"),
    ];
    assert_eq!(run(&all), text("1989"));
    assert_eq!(run(&all[..7]), text("Wed, 9 Aug 1989 09:30:11 +0000"));
    assert_eq!(run(&all[..6]), text("618658211"));
    assert_eq!(run(&all[..5]), text("618658211000"));
    assert_eq!(run(&all[..4]), text("618658211000000"));
    assert_eq!(run(&all[..3]), text("618658211000000000"));
    assert_eq!(run(&all[..2]), Err(Error::InvalidFormat(Parameter::YearsSince)));
    assert_eq!(run(&all[..1]), text("1989-08-09T09:30:11+00:00"));
}

#[test]
fn the_first_source_that_is_given_decides() {
    let all = [
        ("to_timestamp_nanos", "true"),
        ("from_str", "1989-08-09 09:30:17"),
        ("input_format", "%Y-%m-%d %H:%M:%S"),
        ("from_rfc3339", "1989-08-09T09:30:16Z"),
        ("from_rfc2822", "Wed, 09 Aug 1989 09:30:15 +0000"),
        ("from_timestamp_nanos", "618658211000000004"),
        ("from_timestamp_micros", "618658211000003"),
        ("from_timestamp_millis", "618658211002"),
        ("from_timestamp", "618658211"),
    ];
    assert_eq!(run(&all), text("618658211000000000"));
    assert_eq!(run(&all[..8]), text("618658211002000000"));
    assert_eq!(run(&all[..7]), text("618658211000003000"));
    assert_eq!(run(&all[..6]), text("618658211000000004"));
    assert_eq!(run(&all[..5]), text("618658215000000000"));
    assert_eq!(run(&all[..4]), text("618658216000000000"));
    assert_eq!(run(&all[..3]), text("618658217000000000"));
    assert_eq!(
        run(&[("from_timestamp", "618658211"), ("from_rfc3339", "no date")]),
        text("1989-08-09T09:30:11+00:00")
    );
    assert_eq!(
        run(&[("from_timestamp", "no number"), ("from_rfc3339", "1989-08-09T09:30:16Z")]),
        Err(Error::InvalidInteger(Parameter::FromTimestamp, IntegerFault::InvalidDigit))
    );
}

#[test]
fn without_a_source_the_clock_is_read() {
    assert_eq!(run_at(&[], 618658211, 0), text("1989-08-09T09:30:11+00:00"));
    assert_eq!(run_at(&[("to_timestamp", "true")], 618658211, 0), text("618658211"));
    assert_eq!(
        run_at(&[("from_timestamp", "0"), ("to_timestamp", "true")], 618658211, 0),
        text("0")
    );
    let before = Utc::now().timestamp();
    let read: i64 = run(&[("to_timestamp", "true")]).unwrap().parse().unwrap();
    let after = Utc::now().timestamp();
    assert!(before <= read && read <= after);
    assert_eq!(run(&[]).unwrap()[..16], Utc::now().to_rfc3339()[..16]);
}

#[test]
fn texts_are_read_as_dates() {
    assert_eq!(
        run(&[("from_rfc2822", "Wed, 09 Aug 1989 09:30:11 +0200"), ("to_timestamp", "true")]),
        text("618651011")
    );
    assert_eq!(
        run(&[("from_rfc3339", "1989-08-09T09:30:11+02:00"), ("to_timestamp", "true")]),
        text("618651011")
    );
    assert_eq!(
        run(&[("from_rfc3339", "1989-08-09T09:30:11+02:00")]),
        text("1989-08-09T07:30:11+00:00")
    );
    assert_eq!(
        run(&[
            ("from_str", "1989-08-09 09:30:11"),
            ("input_format", "%Y-%m-%d %H:%M:%S"),
            ("to_timestamp", "true")
        ]),
        text("618658211")
    );
    assert_eq!(
        run(&[
            ("from_str", "09.08.1989 09:30:11.5"),
            ("input_format", "%d.%m.%Y %H:%M:%S%.f"),
            ("to_timestamp_millis", "true")
        ]),
        text("618658211500")
    );
}

#[test]
fn texts_that_are_no_dates_are_refused() {
    assert_eq!(
        run(&[("from_rfc2822", "Wed, 09 AAA 1989 09:30:11 +0200"), ("to_timestamp", "true")]),
        Err(Error::InvalidFormat(Parameter::FromRfc2822))
    );
    assert_eq!(
        run(&[("from_rfc3339", "1985_06_16T12_00_00Z"), ("to_timestamp", "true")]),
        Err(Error::InvalidFormat(Parameter::FromRfc3339))
    );
    assert_eq!(
        run(&[("from_rfc3339", ""), ("to_timestamp", "true")]),
        Err(Error::InvalidFormat(Parameter::FromRfc3339))
    );
    assert_eq!(
        run(&[("from_rfc3339", "1989-02-30T09:30:11Z")]),
        Err(Error::InvalidFormat(Parameter::FromRfc3339))
    );
    assert_eq!(
        run(&[
            ("from_str", "1985-06-16T12:00:00"),
            ("input_format", "%Y-%m-%d %H:%M:%S"),
            ("to_timestamp", "true")
        ]),
        Err(Error::InvalidFormat(Parameter::FromStr))
    );
    assert_eq!(
        run(&[("from_str", "1985-06-16"), ("input_format", "%Y-%m-%d")]),
        Err(Error::InvalidFormat(Parameter::FromStr))
    );
    assert_eq!(
        run(&[("from_str", "1985-06-16 12:00:00"), ("input_format", "%Q")]),
        Err(Error::InvalidFormat(Parameter::FromStr))
    );
}

#[test]
fn a_text_without_its_pattern_is_refused() {
    let missing = Err(Error::MissingParameter(Parameter::InputFormat));
    assert_eq!(run(&[("from_str", "1985-06-16T12:00:00Z"), ("to_timestamp", "true")]), missing);
    assert_eq!(run(&[("from_str", "no date")]), missing);
    assert_eq!(
        run(&[("input_format", "%Y"), ("to_timestamp", "1")]).map(|_| ()),
        Ok(())
    );
}

#[test]
fn counts_that_are_no_integers_are_refused() {
    assert_eq!(
        run(&[("from_timestamp", "618658ergwerg211"), ("to_timestamp", "true")]),
        Err(Error::InvalidInteger(Parameter::FromTimestamp, IntegerFault::InvalidDigit))
    );
    assert_eq!(
        run(&[("from_timestamp_millis", "618658ergwerg211123"), ("to_timestamp", "true")]),
        Err(Error::InvalidInteger(Parameter::FromTimestampMillis, IntegerFault::InvalidDigit))
    );
    assert_eq!(
        run(&[("from_timestamp_micros", "12345678901234567890"), ("to_timestamp", "true")]),
        Err(Error::InvalidInteger(Parameter::FromTimestampMicros, IntegerFault::PosOverflow))
    );
    assert_eq!(
        run(&[("from_timestamp_nanos", "12345678901234567890"), ("to_timestamp", "true")]),
        Err(Error::InvalidInteger(Parameter::FromTimestampNanos, IntegerFault::PosOverflow))
    );
    assert_eq!(
        run(&[("from_timestamp_nanos", "-12345678901234567890")]),
        Err(Error::InvalidInteger(Parameter::FromTimestampNanos, IntegerFault::NegOverflow))
    );
    assert_eq!(
        run(&[("from_timestamp", "")]),
        Err(Error::InvalidInteger(Parameter::FromTimestamp, IntegerFault::Empty))
    );
    assert_eq!(
        run(&[("from_timestamp", "618658ergwerg211")]).unwrap_err().message(),
        format!("Invalid seconds timestamp: {}", "x".parse::<i64>().unwrap_err())
    );
}

#[test]
fn counts_outside_the_range_of_instants_are_refused() {
    assert_eq!(
        run(&[("from_timestamp", "8210266876799"), ("to_timestamp", "true")]),
        text("8210266876799")
    );
    assert_eq!(
        run(&[("from_timestamp", "8210266876800")]),
        Err(Error::OutOfRange(Parameter::FromTimestamp, Span::Instant))
    );
    assert_eq!(
        run(&[("from_timestamp", "-8334601228800"), ("to_timestamp", "true")]),
        text("-8334601228800")
    );
    assert_eq!(
        run(&[("from_timestamp", "-8334601228801")]),
        Err(Error::OutOfRange(Parameter::FromTimestamp, Span::Instant))
    );
    assert_eq!(
        run(&[("from_timestamp", "9223372036854775807")]),
        Err(Error::OutOfRange(Parameter::FromTimestamp, Span::Instant))
    );
    assert_eq!(
        run(&[("from_timestamp_millis", "8210266876799999"), ("to_timestamp_millis", "")]),
        text("8210266876799999")
    );
    assert_eq!(
        run(&[("from_timestamp_millis", "8210266876800000")]),
        Err(Error::OutOfRange(Parameter::FromTimestampMillis, Span::Instant))
    );
    assert_eq!(
        run(&[("from_timestamp_micros", "-8334601228800000000"), ("to_timestamp_micros", "")]),
        text("-8334601228800000000")
    );
    assert_eq!(
        run(&[("from_timestamp_micros", "-8334601228800000001")]),
        Err(Error::OutOfRange(Parameter::FromTimestampMicros, Span::Instant))
    );
    assert_eq!(
        run(&[("from_timestamp_nanos", "9223372036854775807"), ("to_timestamp_nanos", "")]),
        text("9223372036854775807")
    );
    assert_eq!(
        run(&[("from_timestamp_nanos", "-9223372036854775808"), ("to_timestamp_nanos", "")]),
        text("-9223372036854775808")
    );
}

#[test]
fn nanoseconds_are_written_only_where_64_bits_hold_them() {
    let beyond = Err(Error::OutOfRange(Parameter::ToTimestampNanos, Span::Instant));
    assert_eq!(run(&[("from_timestamp", "9223372037"), ("to_timestamp_nanos", "true")]), beyond);
    assert_eq!(run(&[("from_timestamp", "-9223372038"), ("to_timestamp_nanos", "true")]), beyond);
    assert_eq!(
        run(&[("from_timestamp", "9223372036"), ("to_timestamp_nanos", "true")]),
        text("9223372036000000000")
    );
    assert_eq!(
        run(&[
            ("from_timestamp_nanos", "9223372036854775807"),
            ("add_nanoseconds", "1"),
            ("to_timestamp_nanos", "true")
        ]),
        beyond
    );
    assert_eq!(
        run(&[
            ("from_timestamp_nanos", "9223372036854775807"),
            ("add_nanoseconds", "1"),
            ("to_timestamp_micros", "true")
        ]),
        text("9223372036854775")
    );
}

#[test]
fn rfc2822_writes_the_years_0_to_9999() {
    let beyond = Err(Error::OutOfRange(Parameter::ToRfc2822, Span::Instant));
    assert_eq!(
        run(&[("from_timestamp", "253402300799"), ("to_rfc2822", "true")]),
        text("Fri, 31 Dec 9999 23:59:59 +0000")
    );
    assert_eq!(run(&[("from_timestamp", "253402300800"), ("to_rfc2822", "true")]), beyond);
    assert_eq!(
        run(&[("from_timestamp", "253402300799"), ("with_timezone", "+00:01"), ("to_rfc2822", "1")]),
        beyond
    );
    assert_eq!(
        run(&[("from_timestamp", "253402300800"), ("with_timezone", "-00:01"), ("to_rfc2822", "1")]),
        text("Fri, 31 Dec 9999 23:59:00 -0001")
    );
    assert_eq!(
        run(&[("from_timestamp", "-62167219200"), ("to_rfc2822", "true")]),
        Ok(DateTime::from_timestamp(-62167219200, 0).unwrap().to_rfc2822())
    );
    assert_eq!(run(&[("from_timestamp", "-62167219201"), ("to_rfc2822", "true")]), beyond);
    assert_eq!(
        run(&[("from_timestamp", "-62167219201"), ("with_timezone", "+00:01"), ("to_rfc2822", "1")]),
        Ok(DateTime::from_timestamp(-62167219201, 0)
            .unwrap()
            .with_timezone(&FixedOffset::east_opt(60).unwrap())
            .to_rfc2822())
    );
    assert_eq!(run(&[("from_timestamp", "8210266876799"), ("to_rfc2822", "true")]), beyond);
}

#[test]
fn whole_years_are_counted_from_a_base() {
    let from = ("from_timestamp", "618658211");
    assert_eq!(run(&[from, ("years_since", "1985-06-16T12:00:00Z")]), text("4"));
    assert_eq!(run(&[from, ("years_since", "1985-08-09T09:30:11Z")]), text("4"));
    assert_eq!(run(&[from, ("years_since", "1985-08-09T09:30:12Z")]), text("3"));
    assert_eq!(run(&[from, ("years_since", "1989-08-09T09:30:11Z")]), text("0"));
    assert_eq!(run(&[from, ("years_since", "1989-08-09T11:30:11+02:00")]), text("0"));
    assert_eq!(run(&[from, ("years_since", "0000-01-01T00:00:00Z")]), text("1989"));
    assert_eq!(run(&[from, ("years_since", "1989-08-09T09:30:12Z")]), Err(Error::NegativeRange));
    assert_eq!(run(&[from, ("years_since", "2024-01-01T00:00:00Z")]), Err(Error::NegativeRange));
    assert_eq!(
        run(&[from, ("years_since", "1985-06-16 12:00:00")]),
        Err(Error::InvalidFormat(Parameter::YearsSince))
    );
    let base = run(&[("from_timestamp", "487771200")]).unwrap();
    assert_eq!(base, "1985-06-16T12:00:00+00:00");
    assert_eq!(run(&[from, ("years_since", base.as_str())]), text("4"));
    assert_eq!(
        run(&[("from_timestamp", "487771200"), ("years_since", "1989-08-09T09:30:11Z")])
            .unwrap_err()
            .message(),
        "Negative range, try swapping the parameters."
    );
}

#[test]
fn years_are_counted_onward_under_any_offset() {
    let refused = Err(Error::NegativeRange);
    for zone in ["-06:00", "+06:00", "+00:00", "-10:30", "Asia/Tokyo"] {
        let at = [("from_rfc3339", "1989-08-09T09:30:11Z"), ("with_timezone", zone)];
        let since = |base: &str| run(&[at[0], at[1], ("years_since", base)]);
        assert_eq!(since("1989-08-09T09:30:11Z"), text("0"), "{}", zone);
        assert_eq!(since("1989-08-09T03:30:11-06:00"), text("0"), "{}", zone);
        assert_eq!(since("1989-08-09T09:30:10.999999999Z"), text("0"), "{}", zone);
        assert_eq!(since("1989-08-09T09:30:11.000000001Z"), refused, "{}", zone);
        assert_eq!(since("1989-08-09T15:30:12+06:00"), refused, "{}", zone);
        assert_eq!(since("1989-08-09T03:30:12Z"), text("0"), "{}", zone);
        assert_eq!(since("1988-08-09T09:30:11Z"), text("1"), "{}", zone);
        assert_eq!(since("1988-08-09T09:30:11.000000001Z"), text("0"), "{}", zone);
        assert_eq!(since("1985-06-16T12:00:00Z"), text("4"), "{}", zone);
        assert_eq!(since("2024-01-01T00:00:00Z"), refused, "{}", zone);
    }
}

#[test]
fn the_instant_is_shown_under_the_offset_asked_for() {
    let from = ("from_rfc3339", "1989-08-09T09:30:11+02:00");
    assert_eq!(
        run(&[from, ("with_timezone", "America/Edmonton")]),
        text("1989-08-09T01:30:11-06:00")
    );
    assert_eq!(
        run(&[from, ("with_timezone", "America/Edmonton")]),
        Ok(DateTime::parse_from_rfc3339("1989-08-09T09:30:11+02:00")
            .unwrap()
            .with_timezone(&Tz::America__Edmonton)
            .to_rfc3339())
    );
    assert_eq!(
        run(&[("from_timestamp", "600341411"), ("with_timezone", "America/Edmonton")]),
        text("1989-01-09T02:30:11-07:00")
    );
    assert_eq!(run(&[from, ("with_timezone", "-06:00")]), text("1989-08-09T01:30:11-06:00"));
    assert_eq!(run(&[from, ("with_timezone", "+05:30")]), text("1989-08-09T13:00:11+05:30"));
    assert_eq!(run(&[from, ("with_timezone", "+0530")]), text("1989-08-09T13:00:11+05:30"));
    assert_eq!(run(&[from, ("with_timezone", "UTC")]), text("1989-08-09T07:30:11+00:00"));
    assert_eq!(run(&[from, ("with_timezone", "Europe/Paris")]), text("1989-08-09T09:30:11+02:00"));
    assert_eq!(
        run(&[from, ("with_timezone", "-06:00"), ("to_timestamp", "true")]),
        text("618651011")
    );
    assert_eq!(
        run(&[from, ("with_timezone", "-06:00"), ("output_format", "%H %z")]),
        text("01 -0600")
    );
}

#[test]
fn the_word_local_asks_for_the_offset_of_the_machine() {
    let from = ("from_rfc3339", "1989-08-09T09:30:11+02:00");
    assert_eq!(run_at(&[from, ("with_timezone", "local")], 0, 3600), text("1989-08-09T08:30:11+01:00"));
    assert_eq!(run_at(&[from, ("with_timezone", "LOCAL")], 0, -1800), text("1989-08-09T07:00:11-00:30"));
    assert_eq!(run_at(&[from, ("with_timezone", "Local")], 0, 0), text("1989-08-09T07:30:11+00:00"));
    assert_eq!(
        run_at(&[from, ("with_timezone", "local")], 0, 86_400),
        Err(Error::InvalidTimezone(ZoneFault::Offset))
    );
    assert_eq!(
        run_at(&[from, ("with_timezone", "locale")], 0, 3600),
        Err(Error::InvalidTimezone(ZoneFault::Name))
    );
    assert_eq!(
        run_at(&[from, ("with_timezone", " local")], 0, 3600),
        Err(Error::InvalidTimezone(ZoneFault::Name))
    );
    let machine = Local::now().fixed_offset().timezone();
    assert_eq!(
        run(&[from, ("with_timezone", "local")]),
        Ok(DateTime::parse_from_rfc3339("1989-08-09T09:30:11+02:00")
            .unwrap()
            .with_timezone(&machine)
            .to_rfc3339())
    );
}

#[test]
fn offsets_and_zones_that_are_none_are_refused() {
    let from = ("from_rfc3339", "1989-08-09T09:30:11+02:00");
    let offset = Err(Error::InvalidTimezone(ZoneFault::Offset));
    let name = Err(Error::InvalidTimezone(ZoneFault::Name));
    assert_eq!(run(&[from, ("with_timezone", "-2500")]), offset);
    assert_eq!(run(&[from, ("with_timezone", "+24:00")]), offset);
    assert_eq!(run(&[from, ("with_timezone", "+11:61")]), offset);
    assert_eq!(run(&[from, ("with_timezone", "+1")]), offset);
    assert_eq!(run(&[from, ("with_timezone", "-1x:00")]), offset);
    assert_eq!(run(&[from, ("with_timezone", "0")]), name);
    assert_eq!(run(&[from, ("with_timezone", "01:00")]), name);
    assert_eq!(run(&[from, ("with_timezone", "Plovdiv")]), name);
    assert_eq!(run(&[from, ("with_timezone", "")]), name);
    assert_eq!(run(&[from, ("with_timezone", "+")]), name);
    assert_eq!(run(&[from, ("with_timezone", "america/edmonton")]), name);
    assert_eq!(
        run(&[from, ("with_timezone", "-2500")]).unwrap_err().message(),
        "Failed to parse timezone offset. Supported values are IANA timezones, local or valid fixed offset"
    );
}

#[test]
fn an_offset_is_taken_whatever_its_digits() {
    let from = ("from_timestamp", "618658211");
    assert_eq!(run(&[from, ("with_timezone", "+11:11")]), text("1989-08-09T20:41:11+11:11"));
    assert_eq!(run(&[from, ("with_timezone", "-11:11")]), text("1989-08-08T22:19:11-11:11"));
    assert_eq!(run(&[from, ("with_timezone", "+1234")]), text("1989-08-09T22:04:11+12:34"));
    assert_eq!(run(&[from, ("with_timezone", "-23:59")]), text("1989-08-08T09:31:11-23:59"));
    assert_eq!(run(&[from, ("with_timezone", "+00:00")]), text("1989-08-09T09:30:11+00:00"));
    assert_eq!(
        run(&[from, ("with_timezone", "+11:11"), ("to_timestamp", "true")]),
        text("618658211")
    );
    for zone in ["+11:11", "-05:45", "+09:30", "-12:00", "+13:45", "+23:59"] {
        let expected = DateTime::from_timestamp(618658211, 0)
            .unwrap()
            .with_timezone(&zone.parse::<FixedOffset>().unwrap())
            .to_rfc3339();
        assert_eq!(run(&[from, ("with_timezone", zone)]), Ok(expected));
    }
}

#[test]
fn a_zone_is_found_by_its_name_whatever_its_digits() {
    let from = ("from_timestamp", "618658211");
    assert_eq!(run(&[from, ("with_timezone", "Etc/GMT+10")]), text("1989-08-08T23:30:11-10:00"));
    assert_eq!(run(&[from, ("with_timezone", "Etc/GMT-10")]), text("1989-08-09T19:30:11+10:00"));
    assert_eq!(run(&[from, ("with_timezone", "Etc/GMT0")]), text("1989-08-09T09:30:11+00:00"));
    assert_eq!(run(&[from, ("with_timezone", "EST5EDT")]), text("1989-08-09T05:30:11-04:00"));
}

#[test]
fn what_is_switched_off_is_refused_by_name() {
    let from = ("from_timestamp", "618658211");
    let now = Instant::from_timestamp(0).unwrap();
    let bare = Capabilities { named_zones: false, locales: false };
    let helper = HandlebarsChronoDateTime;
    assert_eq!(
        helper.call_at(&set_of(&[from, ("with_timezone", "Europe/Paris")]), now, 0, bare),
        Err(Error::UnsupportedCapability(Parameter::WithTimezone))
    );
    assert_eq!(
        helper.call_at(&set_of(&[from, ("with_timezone", "Plovdiv")]), now, 0, bare),
        Err(Error::UnsupportedCapability(Parameter::WithTimezone))
    );
    assert_eq!(
        helper.call_at(&set_of(&[from, ("with_timezone", "+01:00")]), now, 0, bare),
        text("1989-08-09T10:30:11+01:00")
    );
    assert_eq!(
        helper.call_at(&set_of(&[from, ("with_timezone", "local")]), now, 7200, bare),
        text("1989-08-09T11:30:11+02:00")
    );
    assert_eq!(
        helper.call_at(&set_of(&[from, ("output_format", "%A"), ("locale", "fr_FR")]), now, 0, bare),
        Err(Error::UnsupportedCapability(Parameter::Locale))
    );
    assert_eq!(
        helper.call_at(&set_of(&[from, ("output_format", "%A"), ("locale", "GAGA")]), now, 0, bare),
        Err(Error::UnsupportedCapability(Parameter::Locale))
    );
    assert_eq!(
        helper.call_at(&set_of(&[from, ("output_format", "%A")]), now, 0, bare),
        text("Wednesday")
    );
    let zones = Capabilities { named_zones: true, locales: false };
    assert_eq!(
        helper.call_at(&set_of(&[from, ("with_timezone", "Europe/Paris")]), now, 0, zones),
        text("1989-08-09T11:30:11+02:00")
    );
    assert_eq!(Capabilities::full(), Capabilities { named_zones: true, locales: true });
}

#[test]
fn a_leap_second_is_read_as_the_second_after() {
    assert_eq!(
        run(&[("from_rfc3339", "2016-12-31T23:59:60Z"), ("to_timestamp", "true")]),
        text("1483228800")
    );
    assert_eq!(
        run(&[("from_rfc3339", "2016-12-31T23:59:60.5Z")]),
        text("2017-01-01T00:00:00.500+00:00")
    );
    assert_eq!(
        run(&[("from_rfc3339", "2016-12-31T23:59:60Z"), ("to_timestamp_nanos", "true")]),
        Ok(DateTime::parse_from_rfc3339("2016-12-31T23:59:60Z")
            .unwrap()
            .timestamp_nanos_opt()
            .unwrap()
            .to_string())
    );
}

#[test]
fn what_is_written_as_rfc3339_is_read_back() {
    for (secs, nanos, zone) in [
        (618658211i64, 0u32, "+00:00"),
        (618658211, 123_456_789, "-06:00"),
        (0, 1, "+05:30"),
        (-1, 999_999_999, "-23:59"),
        (253_402_214_400, 0, "+00:00"),
        (-62_167_132_800, 500_000_000, "+00:00"),
        (1_483_228_800, 0, "America/Edmonton"),
    ] {
        let count = (secs as i128 * 1_000_000_000 + nanos as i128).to_string();
        let secs = secs.to_string();
        let nanos = nanos.to_string();
        let written = run(&[
            ("from_timestamp", secs.as_str()),
            ("with_nanosecond", nanos.as_str()),
            ("with_timezone", zone),
        ])
        .unwrap();
        assert_eq!(
            run(&[("from_rfc3339", written.as_str()), ("output_format", "%s %f")]),
            Ok(format!("{} {:09}", secs, nanos.parse::<u32>().unwrap()))
        );
        if count.parse::<i64>().is_ok() {
            assert_eq!(
                run(&[("from_rfc3339", written.as_str()), ("to_timestamp_nanos", "true")]),
                Ok(count)
            );
        }
    }
}

#[test]
fn rfc3339_has_four_digits_for_the_year() {
    let written = run(&[("from_timestamp", "253402300800")]).unwrap();
    assert_eq!(written, "+10000-01-01T00:00:00+00:00");
    assert_eq!(
        run(&[("from_rfc3339", written.as_str())]),
        Err(Error::InvalidFormat(Parameter::FromRfc3339))
    );
    let written = run(&[("from_timestamp", "-62167219201")]).unwrap();
    assert_eq!(written, "-0001-12-31T23:59:59+00:00");
    assert_eq!(
        run(&[("from_rfc3339", written.as_str())]),
        Err(Error::InvalidFormat(Parameter::FromRfc3339))
    );
}

#[test]
fn a_count_that_is_read_is_the_count_that_is_written() {
    for count in ["0", "1", "-1", "618658211", "-618658211", "8210266876799", "-8334601228800"] {
        assert_eq!(run(&[("from_timestamp", count), ("to_timestamp", "true")]), text(count));
        let millis = (count.parse::<i64>().unwrap() * 1000).to_string();
        assert_eq!(
            run(&[("from_timestamp_millis", millis.as_str()), ("to_timestamp_millis", "true")]),
            Ok(millis.clone())
        );
        let micros = (count.parse::<i64>().unwrap() * 1_000_000).to_string();
        assert_eq!(
            run(&[("from_timestamp_micros", micros.as_str()), ("to_timestamp_micros", "true")]),
            Ok(micros.clone())
        );
    }
    for count in ["618658211123", "-618658211123", "999", "-999"] {
        assert_eq!(
            run(&[("from_timestamp_millis", count), ("to_timestamp_millis", "true")]),
            text(count)
        );
        assert_eq!(
            run(&[("from_timestamp_micros", count), ("to_timestamp_micros", "true")]),
            text(count)
        );
        assert_eq!(
            run(&[("from_timestamp_nanos", count), ("to_timestamp_nanos", "true")]),
            text(count)
        );
    }
    assert_eq!(run(&[("from_timestamp", "+0618658211"), ("to_timestamp", "1")]), text("618658211"));
}

#[test]
fn two_days_added_and_two_days_subtracted_lead_back() {
    let there =
        run(&[("from_timestamp", "618658211"), ("add_days", "2"), ("to_timestamp", "true")]);
    assert_eq!(there, text("618831011"));
    assert_eq!(
        run(&[("from_timestamp", "618831011"), ("sub_days", "2"), ("to_timestamp", "true")]),
        text("618658211")
    );
    for (count, days) in [(-8334601228800i64, 190_000_000i64), (8210266876799 - 86_400, 1), (0, 0)]
    {
        let reached = (count + 86_400 * days).to_string();
        let (count, days) = (count.to_string(), days.to_string());
        assert_eq!(
            run(&[("from_timestamp", &count), ("add_days", &days), ("to_timestamp", "true")]),
            Ok(reached.clone())
        );
        assert_eq!(
            run(&[("from_timestamp", &reached), ("sub_days", &days), ("to_timestamp", "true")]),
            Ok(count)
        );
    }

    let there = run(&[("from_timestamp", "618658211"), ("add_days", "2")]).unwrap();
    assert_eq!(there, "1989-08-11T09:30:11+00:00");
    assert_eq!(
        run(&[("from_rfc3339", there.as_str()), ("sub_days", "2"), ("to_timestamp", "true")]),
        text("618658211")
    );
    let there = run(&[
        ("from_timestamp_nanos", "618658211123456789"),
        ("add_days", "2"),
        ("to_timestamp_nanos", "true"),
    ])
    .unwrap();
    assert_eq!(there, "618831011123456789");
    assert_eq!(
        run(&[
            ("from_timestamp_nanos", there.as_str()),
            ("sub_days", "2"),
            ("to_timestamp_nanos", "true")
        ]),
        text("618658211123456789")
    );
    assert_eq!(
        run(&[
            ("from_timestamp", "618658211"),
            ("add_days", "2"),
            ("sub_days", "2"),
            ("to_timestamp", "true")
        ]),
        text("618658211")
    );
}

#[test]
fn the_first_failure_is_the_result() {
    assert_eq!(
        run(&[
            ("from_timestamp", "no number"),
            ("with_timezone", "Plovdiv"),
            ("with_year", "abc"),
            ("locale", "GAGA"),
            ("output_format", "%Q")
        ]),
        Err(Error::InvalidInteger(Parameter::FromTimestamp, IntegerFault::InvalidDigit))
    );
    assert_eq!(
        run(&[
            ("from_timestamp", "618658211"),
            ("with_timezone", "Plovdiv"),
            ("with_year", "abc"),
            ("locale", "GAGA"),
            ("output_format", "%Q")
        ]),
        Err(Error::InvalidTimezone(ZoneFault::Name))
    );
    assert_eq!(
        run(&[
            ("from_timestamp", "618658211"),
            ("with_ordinal", "366"),
            ("with_year", "abc"),
            ("locale", "GAGA"),
            ("output_format", "%Q")
        ]),
        Err(Error::FieldOutOfRange(Parameter::WithOrdinal))
    );
    assert_eq!(
        run(&[
            ("from_timestamp", "618658211"),
            ("sub_nanoseconds", "x"),
            ("add_months", "y"),
            ("locale", "GAGA"),
            ("output_format", "%Q")
        ]),
        Err(Error::InvalidInteger(Parameter::AddMonths, IntegerFault::InvalidDigit))
    );
    assert_eq!(
        run(&[("from_timestamp", "618658211"), ("locale", "GAGA"), ("output_format", "%Q")]),
        Err(Error::InvalidLocale)
    );
}
