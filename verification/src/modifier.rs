//! The modifier stage: field setters and shifts, applied to the running
//! instant in one fixed order.

use vstd::prelude::*;
use crate::calendar;
use crate::calendar::{
    clock_set, day_months_earlier, day_months_later, day_with_day, day_with_day0, day_with_month,
    day_with_month0, day_with_ordinal, day_with_ordinal0, day_with_year, days_moved, landed,
    reading_of,
};
use crate::decimal::{parse_decimal, parse_i32, parse_i64, parse_u32, parse_u64, IntegerFault};
use crate::error::Error;
use crate::instant::{shifted, Instant, Moment, Span, Unit};
use crate::params::{Parameter, ParameterSet};

verus! {

/// The fields of the local date and time that a setter can replace.
#[derive(Clone, Copy, Debug, PartialEq, Eq, Structural)]
pub enum Field {
    /// The day of the year, counted from 1.
    Ordinal,
    /// The day of the year, counted from 0.
    Ordinal0,
    /// The year, before or after the year 0.
    Year,
    /// The month, counted from 1.
    Month,
    /// The month, counted from 0.
    Month0,
    /// The day of the month, counted from 1.
    Day,
    /// The day of the month, counted from 0.
    Day0,
    /// The hour, from 0 to 23.
    Hour,
    /// The minute, from 0 to 59.
    Minute,
    /// The second, from 0 to 59.
    Second,
    /// The nanosecond, short of a second.
    Nanosecond,
}

/// What a modifier parameter does, before its value is read.
#[derive(Clone, Copy, Debug, PartialEq, Eq, Structural)]
pub enum Role {
    /// Sets a field of the local date and time.
    Setter(Field),
    /// Moves by calendar months, back where `back` is set.
    Months { back: bool },
    /// Moves by calendar days, back where `back` is set.
    Days { back: bool },
    /// Moves by a duration of fixed length, back where `back` is set.
    Shift { unit: Unit, back: bool },
}

/// A modifier with its value.
#[derive(Clone, Copy, Debug, PartialEq, Eq, Structural)]
pub enum Modifier {
    /// Sets `field` to `value`.
    Setter { field: Field, value: i64 },
    /// Moves by `count` calendar months.
    Months { back: bool, count: u32 },
    /// Moves by `days` calendar days.
    Days { back: bool, days: u64 },
    /// Moves by `amount` units of fixed length; a negative amount moves the
    /// other way.
    Shift { unit: Unit, back: bool, amount: i64 },
}

/// The number of modifier parameters.
pub const MODIFIERS: usize = 29;

/// The modifiers in the order in which they are applied: the setters from
/// the day of the year to the nanosecond, then what is added, from months to
/// nanoseconds, then what is subtracted, in the same order.
pub open spec fn role_at(k: int) -> Role {
    if k == 0 {
        Role::Setter(Field::Ordinal)
    } else if k == 1 {
        Role::Setter(Field::Ordinal0)
    } else if k == 2 {
        Role::Setter(Field::Year)
    } else if k == 3 {
        Role::Setter(Field::Month)
    } else if k == 4 {
        Role::Setter(Field::Month0)
    } else if k == 5 {
        Role::Setter(Field::Day)
    } else if k == 6 {
        Role::Setter(Field::Day0)
    } else if k == 7 {
        Role::Setter(Field::Hour)
    } else if k == 8 {
        Role::Setter(Field::Minute)
    } else if k == 9 {
        Role::Setter(Field::Second)
    } else if k == 10 {
        Role::Setter(Field::Nanosecond)
    } else {
        let back = k >= 20;
        let j = if back {
            k - 20
        } else {
            k - 11
        };
        if j == 0 {
            Role::Months { back }
        } else if j == 1 {
            Role::Shift { unit: Unit::Weeks, back }
        } else if j == 2 {
            Role::Days { back }
        } else if j == 3 {
            Role::Shift { unit: Unit::Hours, back }
        } else if j == 4 {
            Role::Shift { unit: Unit::Minutes, back }
        } else if j == 5 {
            Role::Shift { unit: Unit::Seconds, back }
        } else if j == 6 {
            Role::Shift { unit: Unit::Milliseconds, back }
        } else if j == 7 {
            Role::Shift { unit: Unit::Microseconds, back }
        } else {
            Role::Shift { unit: Unit::Nanoseconds, back }
        }
    }
}

impl Field {
    /// The parameter that sets the field.
    pub open spec fn parameter_of(self) -> Parameter {
        match self {
            Field::Ordinal => Parameter::WithOrdinal,
            Field::Ordinal0 => Parameter::WithOrdinal0,
            Field::Year => Parameter::WithYear,
            Field::Month => Parameter::WithMonth,
            Field::Month0 => Parameter::WithMonth0,
            Field::Day => Parameter::WithDay,
            Field::Day0 => Parameter::WithDay0,
            Field::Hour => Parameter::WithHour,
            Field::Minute => Parameter::WithMinute,
            Field::Second => Parameter::WithSecond,
            Field::Nanosecond => Parameter::WithNanosecond,
        }
    }

    /// The parameter that sets the field.
    pub fn parameter(self) -> (r: Parameter)
        ensures
            r == self.parameter_of(),
    {
        match self {
            Field::Ordinal => Parameter::WithOrdinal,
            Field::Ordinal0 => Parameter::WithOrdinal0,
            Field::Year => Parameter::WithYear,
            Field::Month => Parameter::WithMonth,
            Field::Month0 => Parameter::WithMonth0,
            Field::Day => Parameter::WithDay,
            Field::Day0 => Parameter::WithDay0,
            Field::Hour => Parameter::WithHour,
            Field::Minute => Parameter::WithMinute,
            Field::Second => Parameter::WithSecond,
            Field::Nanosecond => Parameter::WithNanosecond,
        }
    }

    /// The values that the field can take at all, whatever the date.
    pub open spec fn takes(self, value: int) -> bool {
        match self {
            Field::Ordinal => 1 <= value <= 366,
            Field::Ordinal0 => 0 <= value <= 365,
            Field::Year => i32::MIN <= value <= i32::MAX,
            Field::Month => 1 <= value <= 12,
            Field::Month0 => 0 <= value <= 11,
            Field::Day => 1 <= value <= 31,
            Field::Day0 => 0 <= value <= 30,
            Field::Hour => 0 <= value <= 23,
            Field::Minute => 0 <= value <= 59,
            Field::Second => 0 <= value <= 59,
            Field::Nanosecond => 0 <= value <= 999_999_999,
        }
    }

    /// Whether the field can take `value` at all, whatever the date.
    pub fn accepts(self, value: i64) -> (r: bool)
        ensures
            r == self.takes(value as int),
    {
        match self {
            Field::Ordinal => 1 <= value && value <= 366,
            Field::Ordinal0 => 0 <= value && value <= 365,
            Field::Year => -2_147_483_648 <= value && value <= 2_147_483_647,
            Field::Month => 1 <= value && value <= 12,
            Field::Month0 => 0 <= value && value <= 11,
            Field::Day => 1 <= value && value <= 31,
            Field::Day0 => 0 <= value && value <= 30,
            Field::Hour => 0 <= value && value <= 23,
            Field::Minute => 0 <= value && value <= 59,
            Field::Second => 0 <= value && value <= 59,
            Field::Nanosecond => 0 <= value && value <= 999_999_999,
        }
    }

    /// The local day that the calendar reaches from the local date of `m`
    /// with the field set to `value`. Only a field of the date moves the day.
    pub open spec fn day_reached(self, m: Moment, value: int) -> Option<int> {
        match self {
            Field::Ordinal => day_with_ordinal(m.seconds(), m.subsec(), m.offset, value),
            Field::Ordinal0 => day_with_ordinal0(m.seconds(), m.subsec(), m.offset, value),
            Field::Year => day_with_year(m.seconds(), m.subsec(), m.offset, value),
            Field::Month => day_with_month(m.seconds(), m.subsec(), m.offset, value),
            Field::Month0 => day_with_month0(m.seconds(), m.subsec(), m.offset, value),
            Field::Day => day_with_day(m.seconds(), m.subsec(), m.offset, value),
            Field::Day0 => day_with_day0(m.seconds(), m.subsec(), m.offset, value),
            _ => Some(m.local_day()),
        }
    }

    /// What the calendar makes of the instant with the field set to `value`.
    ///
    /// A field of the date takes the calendar to say which day is reached;
    /// the time of day stays. A field of the time of day is replaced where it
    /// stands, and there is a result where the instant reached lies in range.
    pub open spec fn reading(self, m: Moment, value: int) -> Option<(int, int)> {
        match self {
            Field::Ordinal | Field::Ordinal0 | Field::Year | Field::Month | Field::Month0
            | Field::Day | Field::Day0 => landed(
                self.day_reached(m, value),
                m.seconds(),
                m.subsec(),
                m.offset,
            ),
            Field::Hour => clock_set(
                0 <= value < 24,
                m.seconds(),
                m.subsec(),
                m.offset,
                value * 3600 + m.time_of_day() % 3600,
            ),
            Field::Minute => clock_set(
                0 <= value < 60,
                m.seconds(),
                m.subsec(),
                m.offset,
                m.time_of_day() / 3600 * 3600 + value * 60 + m.time_of_day() % 60,
            ),
            Field::Second => clock_set(
                0 <= value < 60,
                m.seconds(),
                m.subsec(),
                m.offset,
                m.time_of_day() / 60 * 60 + value,
            ),
            Field::Nanosecond => Some((m.seconds(), value)),
        }
    }
}

impl Unit {
    /// The parameter that shifts by the unit.
    pub open spec fn parameter_of(self, back: bool) -> Parameter {
        match self {
            Unit::Weeks => if back {
                Parameter::SubWeeks
            } else {
                Parameter::AddWeeks
            },
            Unit::Hours => if back {
                Parameter::SubHours
            } else {
                Parameter::AddHours
            },
            Unit::Minutes => if back {
                Parameter::SubMinutes
            } else {
                Parameter::AddMinutes
            },
            Unit::Seconds => if back {
                Parameter::SubSeconds
            } else {
                Parameter::AddSeconds
            },
            Unit::Milliseconds => if back {
                Parameter::SubMilliseconds
            } else {
                Parameter::AddMilliseconds
            },
            Unit::Microseconds => if back {
                Parameter::SubMicroseconds
            } else {
                Parameter::AddMicroseconds
            },
            Unit::Nanoseconds => if back {
                Parameter::SubNanoseconds
            } else {
                Parameter::AddNanoseconds
            },
        }
    }

    /// The parameter that shifts by the unit.
    pub fn parameter(self, back: bool) -> (r: Parameter)
        ensures
            r == self.parameter_of(back),
    {
        match self {
            Unit::Weeks => if back {
                Parameter::SubWeeks
            } else {
                Parameter::AddWeeks
            },
            Unit::Hours => if back {
                Parameter::SubHours
            } else {
                Parameter::AddHours
            },
            Unit::Minutes => if back {
                Parameter::SubMinutes
            } else {
                Parameter::AddMinutes
            },
            Unit::Seconds => if back {
                Parameter::SubSeconds
            } else {
                Parameter::AddSeconds
            },
            Unit::Milliseconds => if back {
                Parameter::SubMilliseconds
            } else {
                Parameter::AddMilliseconds
            },
            Unit::Microseconds => if back {
                Parameter::SubMicroseconds
            } else {
                Parameter::AddMicroseconds
            },
            Unit::Nanoseconds => if back {
                Parameter::SubNanoseconds
            } else {
                Parameter::AddNanoseconds
            },
        }
    }
}

impl Role {
    /// The role that stands at place `k` of the order.
    pub fn nth(k: usize) -> (r: Role)
        ensures
            r == role_at(k as int),
    {
        if k == 0 {
            Role::Setter(Field::Ordinal)
        } else if k == 1 {
            Role::Setter(Field::Ordinal0)
        } else if k == 2 {
            Role::Setter(Field::Year)
        } else if k == 3 {
            Role::Setter(Field::Month)
        } else if k == 4 {
            Role::Setter(Field::Month0)
        } else if k == 5 {
            Role::Setter(Field::Day)
        } else if k == 6 {
            Role::Setter(Field::Day0)
        } else if k == 7 {
            Role::Setter(Field::Hour)
        } else if k == 8 {
            Role::Setter(Field::Minute)
        } else if k == 9 {
            Role::Setter(Field::Second)
        } else if k == 10 {
            Role::Setter(Field::Nanosecond)
        } else {
            let back = k >= 20;
            let j: usize = if back {
                k - 20
            } else {
                k - 11
            };
            if j == 0 {
                Role::Months { back }
            } else if j == 1 {
                Role::Shift { unit: Unit::Weeks, back }
            } else if j == 2 {
                Role::Days { back }
            } else if j == 3 {
                Role::Shift { unit: Unit::Hours, back }
            } else if j == 4 {
                Role::Shift { unit: Unit::Minutes, back }
            } else if j == 5 {
                Role::Shift { unit: Unit::Seconds, back }
            } else if j == 6 {
                Role::Shift { unit: Unit::Milliseconds, back }
            } else if j == 7 {
                Role::Shift { unit: Unit::Microseconds, back }
            } else {
                Role::Shift { unit: Unit::Nanoseconds, back }
            }
        }
    }

    /// The parameter that plays the role.
    pub open spec fn parameter_of(self) -> Parameter {
        match self {
            Role::Setter(field) => field.parameter_of(),
            Role::Months { back } => if back {
                Parameter::SubMonths
            } else {
                Parameter::AddMonths
            },
            Role::Days { back } => if back {
                Parameter::SubDays
            } else {
                Parameter::AddDays
            },
            Role::Shift { unit, back } => unit.parameter_of(back),
        }
    }

    /// The parameter that plays the role.
    pub fn parameter(self) -> (r: Parameter)
        ensures
            r == self.parameter_of(),
    {
        match self {
            Role::Setter(field) => field.parameter(),
            Role::Months { back } => if back {
                Parameter::SubMonths
            } else {
                Parameter::AddMonths
            },
            Role::Days { back } => if back {
                Parameter::SubDays
            } else {
                Parameter::AddDays
            },
            Role::Shift { unit, back } => unit.parameter(back),
        }
    }

    /// The modifier that `text` gives the role: the year is read as a signed
    /// 32-bit integer, every other field and a count of months as an unsigned
    /// one, a count of days as an unsigned 64-bit integer, and every other
    /// amount as a signed 64-bit integer.
    pub open spec fn read_of(self, text: Seq<char>) -> Result<Modifier, Error> {
        let parameter = self.parameter_of();
        match self {
            Role::Setter(Field::Year) => match parse_decimal(text, i32::MIN as int, i32::MAX as int) {
                Ok(v) => Ok(Modifier::Setter { field: Field::Year, value: v as i64 }),
                Err(fault) => Err(Error::InvalidInteger(parameter, fault)),
            },
            Role::Setter(field) => match parse_decimal(text, 0, u32::MAX as int) {
                Ok(v) => Ok(Modifier::Setter { field, value: v as i64 }),
                Err(fault) => Err(Error::InvalidInteger(parameter, fault)),
            },
            Role::Months { back } => match parse_decimal(text, 0, u32::MAX as int) {
                Ok(v) => Ok(Modifier::Months { back, count: v as u32 }),
                Err(fault) => Err(Error::InvalidInteger(parameter, fault)),
            },
            Role::Days { back } => match parse_decimal(text, 0, u64::MAX as int) {
                Ok(v) => Ok(Modifier::Days { back, days: v as u64 }),
                Err(fault) => Err(Error::InvalidInteger(parameter, fault)),
            },
            Role::Shift { unit, back } => match parse_decimal(
                text,
                i64::MIN as int,
                i64::MAX as int,
            ) {
                Ok(v) => Ok(Modifier::Shift { unit, back, amount: v as i64 }),
                Err(fault) => Err(Error::InvalidInteger(parameter, fault)),
            },
        }
    }

    /// Reads the value of the role's parameter.
    pub fn read(self, text: &str) -> (r: Result<Modifier, Error>)
        ensures
            r == self.read_of(text@),
    {
        let parameter = self.parameter();
        match self {
            Role::Setter(Field::Year) => match parse_i32(text) {
                Ok(v) => Ok(Modifier::Setter { field: Field::Year, value: v as i64 }),
                Err(fault) => Err(Error::InvalidInteger(parameter, fault)),
            },
            Role::Setter(field) => match parse_u32(text) {
                Ok(v) => Ok(Modifier::Setter { field, value: v as i64 }),
                Err(fault) => Err(Error::InvalidInteger(parameter, fault)),
            },
            Role::Months { back } => match parse_u32(text) {
                Ok(v) => Ok(Modifier::Months { back, count: v }),
                Err(fault) => Err(Error::InvalidInteger(parameter, fault)),
            },
            Role::Days { back } => match parse_u64(text) {
                Ok(v) => Ok(Modifier::Days { back, days: v }),
                Err(fault) => Err(Error::InvalidInteger(parameter, fault)),
            },
            Role::Shift { unit, back } => match parse_i64(text) {
                Ok(v) => Ok(Modifier::Shift { unit, back, amount: v }),
                Err(fault) => Err(Error::InvalidInteger(parameter, fault)),
            },
        }
    }
}

/// The outcome of a step over moments.
pub open spec fn moment_result(r: Result<Instant, Error>) -> Result<Moment, Error> {
    match r {
        Ok(i) => Ok(i@),
        Err(e) => Err(e),
    }
}

/// What becomes of a reading that the calendar gave: the instant that it
/// writes, shown under `offset`; `absent` where there is none, `beyond` where
/// it lies outside the range of instants.
pub open spec fn settled(
    reading: Option<(int, int)>,
    offset: int,
    absent: Error,
    beyond: Error,
) -> Result<Moment, Error> {
    match reading {
        None => Err(absent),
        Some((seconds, subsec)) => match Moment::at(seconds * 1_000_000_000 + subsec, offset) {
            Some(m) => Ok(m),
            None => Err(beyond),
        },
    }
}

/// Turns a reading that the calendar gave into an instant.
pub fn settle(
    reading: Option<(i64, u32)>,
    offset: i32,
    absent: Error,
    beyond: Error,
) -> (r: Result<Instant, Error>)
    ensures
        moment_result(r) == settled(reading_of(reading), offset as int, absent, beyond),
{
    match reading {
        None => Err(absent),
        Some((secs, nanos)) => match Instant::from_reading(secs, nanos, offset) {
            Some(i) => Ok(i),
            None => Err(beyond),
        },
    }
}

impl Modifier {
    /// The parameter that gave the modifier.
    pub open spec fn parameter_of(self) -> Parameter {
        match self {
            Modifier::Setter { field, value } => field.parameter_of(),
            Modifier::Months { back, count } => (Role::Months { back }).parameter_of(),
            Modifier::Days { back, days } => (Role::Days { back }).parameter_of(),
            Modifier::Shift { unit, back, amount } => unit.parameter_of(back),
        }
    }

    /// The instant that the modifier makes of `m`.
    ///
    /// A setter fails with `FieldOutOfRange` where the field cannot take the
    /// value at all, and where the calendar has no such date in range. A
    /// shift by months keeps the day of the month or, in a shorter month,
    /// takes its last day; it fails with `OutOfRange`, as every shift does
    /// that leaves the range.
    pub open spec fn applied(self, m: Moment) -> Result<Moment, Error> {
        let parameter = self.parameter_of();
        let beyond = Error::OutOfRange(parameter, Span::Instant);
        match self {
            Modifier::Setter { field, value } => if field.takes(value as int) {
                settled(
                    field.reading(m, value as int),
                    m.offset,
                    Error::FieldOutOfRange(parameter),
                    Error::FieldOutOfRange(parameter),
                )
            } else {
                Err(Error::FieldOutOfRange(parameter))
            },
            Modifier::Months { back, count } => settled(
                landed(
                    if back {
                        day_months_earlier(m.seconds(), m.subsec(), m.offset, count as int)
                    } else {
                        day_months_later(m.seconds(), m.subsec(), m.offset, count as int)
                    },
                    m.seconds(),
                    m.subsec(),
                    m.offset,
                ),
                m.offset,
                beyond,
                beyond,
            ),
            Modifier::Days { back, days } => settled(
                days_moved(m.seconds(), m.subsec(), m.offset, days as int, back),
                m.offset,
                beyond,
                beyond,
            ),
            Modifier::Shift { unit, back, amount } => match shifted(m, unit, amount as int, back) {
                Ok(moved) => Ok(moved),
                Err(span) => Err(Error::OutOfRange(parameter, span)),
            },
        }
    }

    /// Applies the modifier to an instant.
    pub fn apply(self, instant: Instant) -> (r: Result<Instant, Error>)
        ensures
            moment_result(r) == self.applied(instant@),
    {
        let (secs, nanos, offset) = instant.parts();
        match self {
            Modifier::Setter { field, value } => {
                let parameter = field.parameter();
                let failure = Error::FieldOutOfRange(parameter);
                if !field.accepts(value) {
                    return Err(failure);
                }
                let reading = match field {
                    Field::Ordinal => calendar::with_ordinal(secs, nanos, offset, value as u32),
                    Field::Ordinal0 => calendar::with_ordinal0(secs, nanos, offset, value as u32),
                    Field::Year => calendar::with_year(secs, nanos, offset, value as i32),
                    Field::Month => calendar::with_month(secs, nanos, offset, value as u32),
                    Field::Month0 => calendar::with_month0(secs, nanos, offset, value as u32),
                    Field::Day => calendar::with_day(secs, nanos, offset, value as u32),
                    Field::Day0 => calendar::with_day0(secs, nanos, offset, value as u32),
                    Field::Hour => calendar::with_hour(secs, nanos, offset, value as u32),
                    Field::Minute => calendar::with_minute(secs, nanos, offset, value as u32),
                    Field::Second => calendar::with_second(secs, nanos, offset, value as u32),
                    Field::Nanosecond => calendar::with_nanosecond(
                        secs,
                        nanos,
                        offset,
                        value as u32,
                    ),
                };
                settle(reading, offset, failure, failure)
            },
            Modifier::Months { back, count } => {
                let failure = Error::OutOfRange((Role::Months { back }).parameter(), Span::Instant);
                let reading = if back {
                    calendar::sub_months(secs, nanos, offset, count)
                } else {
                    calendar::add_months(secs, nanos, offset, count)
                };
                settle(reading, offset, failure, failure)
            },
            Modifier::Days { back, days } => {
                let failure = Error::OutOfRange((Role::Days { back }).parameter(), Span::Instant);
                let reading = if back {
                    calendar::sub_days(secs, nanos, offset, days)
                } else {
                    calendar::add_days(secs, nanos, offset, days)
                };
                settle(reading, offset, failure, failure)
            },
            Modifier::Shift { unit, back, amount } => match instant.shift(unit, amount, back) {
                Ok(moved) => Ok(moved),
                Err(span) => Err(Error::OutOfRange(unit.parameter(back), span)),
            },
        }
    }
}

/// What one place of the order makes of `m`: nothing where its parameter is
/// absent; else the value is read, and the modifier applied.
pub open spec fn stepped(
    p: Map<Seq<char>, Seq<char>>,
    m: Moment,
    role: Role,
) -> Result<Moment, Error> {
    let key = role.parameter_of().key();
    if p.dom().contains(key) {
        match role.read_of(p[key]) {
            Ok(modifier) => modifier.applied(m),
            Err(e) => Err(e),
        }
    } else {
        Ok(m)
    }
}

/// What the places of the order from `k` on make of `m`: the first failure
/// ends the stage.
pub open spec fn modified_from(
    p: Map<Seq<char>, Seq<char>>,
    m: Moment,
    k: int,
) -> Result<Moment, Error>
    decreases MODIFIERS - k,
{
    if k < 0 || k >= MODIFIERS {
        Ok(m)
    } else {
        match stepped(p, m, role_at(k)) {
            Ok(next) => modified_from(p, next, k + 1),
            Err(e) => Err(e),
        }
    }
}

/// What the modifier stage makes of `m`.
pub open spec fn modified(p: Map<Seq<char>, Seq<char>>, m: Moment) -> Result<Moment, Error> {
    modified_from(p, m, 0)
}

/// Applies one place of the order.
pub fn step(params: &ParameterSet, instant: Instant, role: Role) -> (r: Result<Instant, Error>)
    ensures
        moment_result(r) == stepped(params@, instant@, role),
{
    match params.get(role.parameter().name()) {
        None => Ok(instant),
        Some(text) => match role.read(text.as_str()) {
            Ok(modifier) => modifier.apply(instant),
            Err(e) => Err(e),
        },
    }
}

/// Applies every modifier that is given, in the order of `role_at`.
pub fn modify(params: &ParameterSet, instant: Instant) -> (r: Result<Instant, Error>)
    ensures
        moment_result(r) == modified(params@, instant@),
{
    let mut current = instant;
    let mut k: usize = 0;
    while k < MODIFIERS
        invariant
            k <= MODIFIERS,
            modified(params@, instant@) == modified_from(params@, current@, k as int),
        decreases MODIFIERS - k,
    {
        match step(params, current, Role::nth(k)) {
            Ok(next) => {
                current = next;
            },
            Err(e) => {
                return Err(e);
            },
        }
        k = k + 1;
    }
    Ok(current)
}

} // verus!
