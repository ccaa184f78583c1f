//! The named parameters of one invocation.

use vstd::prelude::*;
use vstd::string::*;
use crate::text::same_text;

verus! {

/// The parameter names that the transformation understands.
#[derive(Clone, Copy, Debug, PartialEq, Eq, Structural)]
pub enum Parameter {
    FromTimestamp,
    FromTimestampMillis,
    FromTimestampMicros,
    FromTimestampNanos,
    FromRfc2822,
    FromRfc3339,
    FromStr,
    InputFormat,
    WithTimezone,
    WithOrdinal,
    WithOrdinal0,
    WithYear,
    WithMonth,
    WithMonth0,
    WithDay,
    WithDay0,
    WithHour,
    WithMinute,
    WithSecond,
    WithNanosecond,
    AddMonths,
    AddWeeks,
    AddDays,
    AddHours,
    AddMinutes,
    AddSeconds,
    AddMilliseconds,
    AddMicroseconds,
    AddNanoseconds,
    SubMonths,
    SubWeeks,
    SubDays,
    SubHours,
    SubMinutes,
    SubSeconds,
    SubMilliseconds,
    SubMicroseconds,
    SubNanoseconds,
    OutputFormat,
    Locale,
    ToRfc2822,
    ToTimestamp,
    ToTimestampMillis,
    ToTimestampMicros,
    ToTimestampNanos,
    YearsSince,
}

impl Parameter {
    /// The name under which the parameter is given.
    pub open spec fn key(self) -> Seq<char> {
        match self {
            Parameter::FromTimestamp => "from_timestamp"@,
            Parameter::FromTimestampMillis => "from_timestamp_millis"@,
            Parameter::FromTimestampMicros => "from_timestamp_micros"@,
            Parameter::FromTimestampNanos => "from_timestamp_nanos"@,
            Parameter::FromRfc2822 => "from_rfc2822"@,
            Parameter::FromRfc3339 => "from_rfc3339"@,
            Parameter::FromStr => "from_str"@,
            Parameter::InputFormat => "input_format"@,
            Parameter::WithTimezone => "with_timezone"@,
            Parameter::WithOrdinal => "with_ordinal"@,
            Parameter::WithOrdinal0 => "with_ordinal0"@,
            Parameter::WithYear => "with_year"@,
            Parameter::WithMonth => "with_month"@,
            Parameter::WithMonth0 => "with_month0"@,
            Parameter::WithDay => "with_day"@,
            Parameter::WithDay0 => "with_day0"@,
            Parameter::WithHour => "with_hour"@,
            Parameter::WithMinute => "with_minute"@,
            Parameter::WithSecond => "with_second"@,
            Parameter::WithNanosecond => "with_nanosecond"@,
            Parameter::AddMonths => "add_months"@,
            Parameter::AddWeeks => "add_weeks"@,
            Parameter::AddDays => "add_days"@,
            Parameter::AddHours => "add_hours"@,
            Parameter::AddMinutes => "add_minutes"@,
            Parameter::AddSeconds => "add_seconds"@,
            Parameter::AddMilliseconds => "add_milliseconds"@,
            Parameter::AddMicroseconds => "add_microseconds"@,
            Parameter::AddNanoseconds => "add_nanoseconds"@,
            Parameter::SubMonths => "sub_months"@,
            Parameter::SubWeeks => "sub_weeks"@,
            Parameter::SubDays => "sub_days"@,
            Parameter::SubHours => "sub_hours"@,
            Parameter::SubMinutes => "sub_minutes"@,
            Parameter::SubSeconds => "sub_seconds"@,
            Parameter::SubMilliseconds => "sub_milliseconds"@,
            Parameter::SubMicroseconds => "sub_microseconds"@,
            Parameter::SubNanoseconds => "sub_nanoseconds"@,
            Parameter::OutputFormat => "output_format"@,
            Parameter::Locale => "locale"@,
            Parameter::ToRfc2822 => "to_rfc2822"@,
            Parameter::ToTimestamp => "to_timestamp"@,
            Parameter::ToTimestampMillis => "to_timestamp_millis"@,
            Parameter::ToTimestampMicros => "to_timestamp_micros"@,
            Parameter::ToTimestampNanos => "to_timestamp_nanos"@,
            Parameter::YearsSince => "years_since"@,
        }
    }

    /// The name under which the parameter is given.
    pub fn name(self) -> (r: &'static str)
        ensures
            r@ == self.key(),
    {
        match self {
            Parameter::FromTimestamp => "from_timestamp",
            Parameter::FromTimestampMillis => "from_timestamp_millis",
            Parameter::FromTimestampMicros => "from_timestamp_micros",
            Parameter::FromTimestampNanos => "from_timestamp_nanos",
            Parameter::FromRfc2822 => "from_rfc2822",
            Parameter::FromRfc3339 => "from_rfc3339",
            Parameter::FromStr => "from_str",
            Parameter::InputFormat => "input_format",
            Parameter::WithTimezone => "with_timezone",
            Parameter::WithOrdinal => "with_ordinal",
            Parameter::WithOrdinal0 => "with_ordinal0",
            Parameter::WithYear => "with_year",
            Parameter::WithMonth => "with_month",
            Parameter::WithMonth0 => "with_month0",
            Parameter::WithDay => "with_day",
            Parameter::WithDay0 => "with_day0",
            Parameter::WithHour => "with_hour",
            Parameter::WithMinute => "with_minute",
            Parameter::WithSecond => "with_second",
            Parameter::WithNanosecond => "with_nanosecond",
            Parameter::AddMonths => "add_months",
            Parameter::AddWeeks => "add_weeks",
            Parameter::AddDays => "add_days",
            Parameter::AddHours => "add_hours",
            Parameter::AddMinutes => "add_minutes",
            Parameter::AddSeconds => "add_seconds",
            Parameter::AddMilliseconds => "add_milliseconds",
            Parameter::AddMicroseconds => "add_microseconds",
            Parameter::AddNanoseconds => "add_nanoseconds",
            Parameter::SubMonths => "sub_months",
            Parameter::SubWeeks => "sub_weeks",
            Parameter::SubDays => "sub_days",
            Parameter::SubHours => "sub_hours",
            Parameter::SubMinutes => "sub_minutes",
            Parameter::SubSeconds => "sub_seconds",
            Parameter::SubMilliseconds => "sub_milliseconds",
            Parameter::SubMicroseconds => "sub_microseconds",
            Parameter::SubNanoseconds => "sub_nanoseconds",
            Parameter::OutputFormat => "output_format",
            Parameter::Locale => "locale",
            Parameter::ToRfc2822 => "to_rfc2822",
            Parameter::ToTimestamp => "to_timestamp",
            Parameter::ToTimestampMillis => "to_timestamp_millis",
            Parameter::ToTimestampMicros => "to_timestamp_micros",
            Parameter::ToTimestampNanos => "to_timestamp_nanos",
            Parameter::YearsSince => "years_since",
        }
    }
}

/// One name with the text given for it.
#[derive(Clone, Debug)]
pub struct Entry {
    name: String,
    value: String,
}

/// The mapping that a sequence of entries stands for: a later entry replaces
/// an earlier one of the same name.
pub closed spec fn entries_map(entries: Seq<Entry>) -> Map<Seq<char>, Seq<char>>
    decreases entries.len(),
{
    if entries.len() == 0 {
        Map::empty()
    } else {
        entries_map(entries.drop_last()).insert(entries.last().name@, entries.last().value@)
    }
}

/// A mapping from parameter names to the texts given for them. Names are
/// compared character by character, and each name has at most one text.
#[derive(Clone, Debug, Default)]
pub struct ParameterSet {
    entries: Vec<Entry>,
}

impl View for ParameterSet {
    type V = Map<Seq<char>, Seq<char>>;

    closed spec fn view(&self) -> Map<Seq<char>, Seq<char>> {
        entries_map(self.entries@)
    }
}

impl ParameterSet {
    /// The empty set.
    pub fn new() -> (r: ParameterSet)
        ensures
            r@ == Map::<Seq<char>, Seq<char>>::empty(),
    {
        ParameterSet { entries: Vec::new() }
    }

    /// Gives `name` the text `value`, in place of any text it had.
    pub fn set(&mut self, name: &str, value: &str)
        ensures
            final(self)@ == old(self)@.insert(name@, value@),
    {
        let entry = Entry { name: String::from_str(name), value: String::from_str(value) };
        let ghost before = self.entries@;
        self.entries.push(entry);
        assert(self.entries@.drop_last() =~= before);
    }

    /// The text given for `name`, if any.
    pub fn get(&self, name: &str) -> (r: Option<&String>)
        ensures
            match r {
                Some(v) => self@.dom().contains(name@) && self@[name@] == v@,
                None => !self@.dom().contains(name@),
            },
    {
        let mut i: usize = self.entries.len();
        assert(self.entries@.take(i as int) =~= self.entries@);
        while i > 0
            invariant
                i <= self.entries@.len(),
                self@.dom().contains(name@) == entries_map(self.entries@.take(i as int)).dom().contains(
                    name@,
                ),
                self@.dom().contains(name@) ==> self@[name@] == entries_map(
                    self.entries@.take(i as int),
                )[name@],
            decreases i,
        {
            proof {
                assert(self.entries@.take(i as int).drop_last() =~= self.entries@.take(i - 1));
            }
            i = i - 1;
            if same_text(self.entries[i].name.as_str(), name) {
                return Some(&self.entries[i].value);
            }
        }
        None
    }

    /// Whether a text is given for `name`.
    pub fn has(&self, name: &str) -> (r: bool)
        ensures
            r == self@.dom().contains(name@),
    {
        self.get(name).is_some()
    }
}

} // verus!
