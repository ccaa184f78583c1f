//! What holds of every transformation, stated over the functions that say
//! what a transformation gives.

use vstd::prelude::*;
use crate::calendar::{
    day_months_earlier, day_months_later, fixed_offset_reading, rfc3339_reading, rfc3339_text,
    seconds_in_range,
};
use crate::decimal::{decimal_text, lemma_decimal_round_trip, parse_decimal, IntegerFault};
use crate::error::{Error, ZoneFault};
use crate::finalizer::{finalized, finalizer_choice, FinalizerChoice};
use crate::helper::transformed;
use crate::initializer::{initializer_choice, started, InitializerChoice};
use crate::instant::{max_nanos, min_nanos, shifted, Moment, Span, Unit, MAX_SECONDS, MIN_SECONDS};
use crate::modifier::{
    modified, modified_from, role_at, settled, stepped, Field, Modifier, Role, MODIFIERS,
};
use crate::params::Parameter;
use crate::zone::{offset_shaped, shown, zone_choice, zoned, Capabilities, ZoneChoice};

verus! {

/// Whether no modifier but the one at place `j` of the order is given, and
/// no `with_timezone`. With `j` outside the order, no modifier is given.
pub open spec fn only_modifier(p: Map<Seq<char>, Seq<char>>, j: int) -> bool {
    &&& !p.dom().contains(Parameter::WithTimezone.key())
    &&& forall|k: int|
        0 <= k < MODIFIERS && k != j ==> !p.dom().contains(
            (#[trigger] role_at(k)).parameter_of().key(),
        )
}

/// Whether, of `with_timezone` and the modifiers, none but `parameter` is
/// given.
pub open spec fn no_modifier_but(p: Map<Seq<char>, Seq<char>>, parameter: Parameter) -> bool {
    &&& !p.dom().contains(Parameter::WithTimezone.key())
    &&& forall|k: int|
        0 <= k < MODIFIERS && (#[trigger] role_at(k)).parameter_of() != parameter
            ==> !p.dom().contains(role_at(k).parameter_of().key())
}

/// Whether neither `with_timezone` nor any modifier is given.
pub open spec fn unmodified(p: Map<Seq<char>, Seq<char>>) -> bool {
    only_modifier(p, -1)
}

/// A run of places whose parameters are absent changes nothing: the stage
/// from the first of them on is the stage from the place after the last.
proof fn lemma_absent_run(p: Map<Seq<char>, Seq<char>>, m: Moment, from: int, to: int)
    requires
        0 <= from <= to <= MODIFIERS,
        forall|k: int|
            from <= k < to ==> !p.dom().contains((#[trigger] role_at(k)).parameter_of().key()),
    ensures
        modified_from(p, m, from) == modified_from(p, m, to),
    decreases to - from,
{
    if from < to {
        assert(stepped(p, m, role_at(from)) == Ok::<Moment, Error>(m));
        lemma_absent_run(p, m, from + 1, to);
    }
}

/// Where no modifier is given, the modifier stage changes nothing.
pub proof fn lemma_no_modifier(p: Map<Seq<char>, Seq<char>>, m: Moment)
    requires
        unmodified(p),
    ensures
        modified(p, m) == Ok::<Moment, Error>(m),
{
    lemma_absent_run(p, m, 0, MODIFIERS as int);
}

/// Where one modifier is given, the modifier stage is that modifier.
pub proof fn lemma_one_modifier(p: Map<Seq<char>, Seq<char>>, m: Moment, j: int)
    requires
        only_modifier(p, j),
        0 <= j < MODIFIERS,
    ensures
        modified(p, m) == stepped(p, m, role_at(j)),
{
    lemma_absent_run(p, m, 0, j);
    if let Ok(next) = stepped(p, m, role_at(j)) {
        lemma_absent_run(p, next, j + 1, MODIFIERS as int);
    }
}

/// What a transformation gives that has no `with_timezone` and at most the
/// modifier at place `j`: the starting moment in UTC, changed by that
/// modifier, written out.
proof fn lemma_plain_transformation(
    p: Map<Seq<char>, Seq<char>>,
    now: Moment,
    local: int,
    caps: Capabilities,
    j: int,
    start: Moment,
)
    requires
        only_modifier(p, j),
        -1 <= j < MODIFIERS,
        started(p, now) == Ok::<Moment, Error>(start),
        start.valid(),
        start.offset == 0,
    ensures
        j == -1 ==> transformed(p, now, local, caps) == finalized(p, start, caps),
        j >= 0 ==> transformed(p, now, local, caps) == match stepped(p, start, role_at(j)) {
            Ok(last) => finalized(p, last, caps),
            Err(e) => Err(e),
        },
{
    assert(zone_choice(p) == ZoneChoice::Utc);
    assert(zoned(p, start, local, caps) == Ok::<Moment, Error>(start));
    if j == -1 {
        lemma_no_modifier(p, start);
    } else {
        lemma_one_modifier(p, start, j);
    }
}

/// A modifier leaves a moment in range, under the offset that it had.
pub proof fn lemma_modifier_keeps_range(m: Moment, modifier: Modifier, changed: Moment)
    requires
        m.valid(),
        modifier.applied(m) == Ok::<Moment, Error>(changed),
    ensures
        changed.valid(),
        changed.offset == m.offset,
{
}

proof fn lemma_modified_from_keeps_range(
    p: Map<Seq<char>, Seq<char>>,
    m: Moment,
    k: int,
    changed: Moment,
)
    requires
        m.valid(),
        0 <= k <= MODIFIERS,
        modified_from(p, m, k) == Ok::<Moment, Error>(changed),
    ensures
        changed.valid(),
        changed.offset == m.offset,
    decreases MODIFIERS - k,
{
    if k < MODIFIERS {
        let role = role_at(k);
        let next = stepped(p, m, role)->Ok_0;
        let key = role.parameter_of().key();
        if p.dom().contains(key) {
            lemma_modifier_keeps_range(m, role.read_of(p[key])->Ok_0, next);
        }
        lemma_modified_from_keeps_range(p, next, k + 1, changed);
    }
}

/// The modifier stage leaves a moment in range, under the offset that it
/// had.
pub proof fn lemma_modifiers_keep_range(p: Map<Seq<char>, Seq<char>>, m: Moment, changed: Moment)
    requires
        m.valid(),
        modified(p, m) == Ok::<Moment, Error>(changed),
    ensures
        changed.valid(),
        changed.offset == m.offset,
{
    lemma_modified_from_keeps_range(p, m, 0, changed);
}

/// The starting moment lies in range where the clock does.
pub proof fn lemma_start_in_range(p: Map<Seq<char>, Seq<char>>, now: Moment, start: Moment)
    requires
        now.valid(),
        started(p, now) == Ok::<Moment, Error>(start),
    ensures
        start.valid(),
{
}

/// `with_timezone` changes the offset and not the instant.
pub proof fn lemma_zone_keeps_instant(
    p: Map<Seq<char>, Seq<char>>,
    m: Moment,
    local: int,
    caps: Capabilities,
    shown: Moment,
)
    requires
        m.valid(),
        zoned(p, m, local, caps) == Ok::<Moment, Error>(shown),
    ensures
        shown.valid(),
        shown.nanos == m.nanos,
{
}

/// The default path: with no parameter at all, what the clock shows is
/// written as RFC 3339 in UTC.
pub proof fn lemma_default_path(now: Moment, local: int, caps: Capabilities)
    requires
        now.valid(),
    ensures
        transformed(Map::empty(), now, local, caps) == Ok::<Seq<char>, Error>(
            rfc3339_text(now.seconds(), now.subsec(), 0),
        ),
{
    let p = Map::<Seq<char>, Seq<char>>::empty();
    assert(zone_choice(p) == ZoneChoice::Utc);
    let start = Moment { nanos: now.nanos, offset: 0 };
    assert(zoned(p, now, local, caps) == Ok::<Moment, Error>(start));
    lemma_no_modifier(p, start);
}

/// The surroundings are read only where they are asked for: the clock
/// matters only where no source is given, the machine's zone only where
/// `with_timezone` is `local`.
pub proof fn lemma_surroundings_unread(
    p: Map<Seq<char>, Seq<char>>,
    caps: Capabilities,
    now: Moment,
    local: int,
    other_now: Moment,
    other_local: int,
)
    requires
        initializer_choice(p) == InitializerChoice::Clock ==> now == other_now,
        zone_choice(p) == ZoneChoice::Local ==> local == other_local,
    ensures
        transformed(p, now, local, caps) == transformed(p, other_now, other_local, caps),
{
}

/// The first source decides: two sets of parameters that give the same
/// source, with the same text for it, start at the same moment, whatever
/// else they hold and whatever the clock shows.
pub proof fn lemma_first_source_decides(
    p: Map<Seq<char>, Seq<char>>,
    q: Map<Seq<char>, Seq<char>>,
    now_p: Moment,
    now_q: Moment,
)
    requires
        initializer_choice(p) == initializer_choice(q),
        match initializer_choice(p) {
            InitializerChoice::Timestamp => p[Parameter::FromTimestamp.key()]
                == q[Parameter::FromTimestamp.key()],
            InitializerChoice::TimestampMillis => p[Parameter::FromTimestampMillis.key()]
                == q[Parameter::FromTimestampMillis.key()],
            InitializerChoice::TimestampMicros => p[Parameter::FromTimestampMicros.key()]
                == q[Parameter::FromTimestampMicros.key()],
            InitializerChoice::TimestampNanos => p[Parameter::FromTimestampNanos.key()]
                == q[Parameter::FromTimestampNanos.key()],
            InitializerChoice::Rfc2822 => p[Parameter::FromRfc2822.key()]
                == q[Parameter::FromRfc2822.key()],
            InitializerChoice::Rfc3339 => p[Parameter::FromRfc3339.key()]
                == q[Parameter::FromRfc3339.key()],
            InitializerChoice::Pattern => {
                &&& p[Parameter::FromStr.key()] == q[Parameter::FromStr.key()]
                &&& p.dom().contains(Parameter::InputFormat.key()) == q.dom().contains(
                    Parameter::InputFormat.key(),
                )
                &&& p[Parameter::InputFormat.key()] == q[Parameter::InputFormat.key()]
            },
            InitializerChoice::Clock => now_p == now_q,
        },
    ensures
        started(p, now_p) == started(q, now_q),
{
}

/// The first encoding decides: two sets of parameters that ask for the same
/// encoding, with the same texts for it, write a moment alike, whatever else
/// they hold.
pub proof fn lemma_first_encoding_decides(
    p: Map<Seq<char>, Seq<char>>,
    q: Map<Seq<char>, Seq<char>>,
    m: Moment,
    caps: Capabilities,
)
    requires
        finalizer_choice(p) == finalizer_choice(q),
        match finalizer_choice(p) {
            FinalizerChoice::Pattern => {
                &&& p[Parameter::OutputFormat.key()] == q[Parameter::OutputFormat.key()]
                &&& p.dom().contains(Parameter::Locale.key()) == q.dom().contains(
                    Parameter::Locale.key(),
                )
                &&& p[Parameter::Locale.key()] == q[Parameter::Locale.key()]
            },
            FinalizerChoice::YearsSince => p[Parameter::YearsSince.key()]
                == q[Parameter::YearsSince.key()],
            _ => true,
        },
    ensures
        finalized(p, m, caps) == finalized(q, m, caps),
{
}

/// Years are counted onward only: where `years_since` gives a base, the
/// result is `NegativeRange` if the base lies after the instant, and a count
/// of years if it does not.
pub proof fn lemma_years_are_counted_onward(
    p: Map<Seq<char>, Seq<char>>,
    m: Moment,
    caps: Capabilities,
    base: Moment,
)
    requires
        finalizer_choice(p) == FinalizerChoice::YearsSince,
        settled(
            rfc3339_reading(p[Parameter::YearsSince.key()]),
            m.offset,
            Error::InvalidFormat(Parameter::YearsSince),
            Error::OutOfRange(Parameter::YearsSince, Span::Instant),
        ) == Ok::<Moment, Error>(base),
    ensures
        base.nanos > m.nanos ==> finalized(p, m, caps) == Err::<Seq<char>, Error>(
            Error::NegativeRange,
        ),
        base.nanos <= m.nanos ==> finalized(p, m, caps) is Ok,
{
}

/// Whether no modifier but those at the places `j` and `k` of the order is
/// given, and no `with_timezone`.
pub open spec fn only_modifiers(p: Map<Seq<char>, Seq<char>>, j: int, k: int) -> bool {
    &&& !p.dom().contains(Parameter::WithTimezone.key())
    &&& forall|i: int|
        0 <= i < MODIFIERS && i != j && i != k ==> !p.dom().contains(
            (#[trigger] role_at(i)).parameter_of().key(),
        )
}

/// Modifier ordering: where two modifiers are given, the one that stands
/// later in the order is applied to what the earlier one made, whichever
/// way round they were given. So of `with_month` and `with_month0` it is
/// `with_month0` that has the last word on the month.
pub proof fn lemma_two_modifiers(p: Map<Seq<char>, Seq<char>>, m: Moment, j: int, k: int)
    requires
        only_modifiers(p, j, k),
        0 <= j < k < MODIFIERS,
    ensures
        modified(p, m) == match stepped(p, m, role_at(j)) {
            Ok(next) => stepped(p, next, role_at(k)),
            Err(e) => Err(e),
        },
{
    lemma_absent_run(p, m, 0, j);
    if let Ok(next) = stepped(p, m, role_at(j)) {
        lemma_absent_run(p, next, j + 1, k);
        if let Ok(last) = stepped(p, next, role_at(k)) {
            lemma_absent_run(p, last, k + 1, MODIFIERS as int);
        }
    }
}

/// Splitting a count of seconds into days and the time of day, and that
/// into hour, minute and second.
proof fn lemma_time_of_day(day: int, time: int)
    requires
        0 <= time < 86_400,
    ensures
        (day * 86_400 + time) / 86_400 == day,
        (day * 86_400 + time) % 86_400 == time,
        0 <= time / 3600 < 24,
        0 <= time % 3600 / 60 < 60,
        time == (time / 3600) * 3600 + (time % 3600 / 60) * 60 + time % 60,
        time % 3600 % 60 == time % 60,
{
}

/// The time of day that an hour, a minute and a second make up.
proof fn lemma_time_made(hour: int, minute: int, second: int)
    requires
        0 <= hour < 24,
        0 <= minute < 60,
        0 <= second < 60,
    ensures
        0 <= hour * 3600 + minute * 60 + second < 86_400,
        (hour * 3600 + minute * 60 + second) / 3600 == hour,
        (hour * 3600 + minute * 60 + second) % 3600 == minute * 60 + second,
        (minute * 60 + second) / 60 == minute,
        (hour * 3600 + minute * 60 + second) % 60 == second,
{
}

/// What a moment shows after its time of day was replaced.
proof fn lemma_time_replaced(m: Moment, set: Moment, hour: int, minute: int, second: int)
    requires
        0 <= hour < 24,
        0 <= minute < 60,
        0 <= second < 60,
        0 <= m.subsec() < 1_000_000_000,
        set.offset == m.offset,
        set.nanos == (m.seconds() - m.time_of_day() + hour * 3600 + minute * 60 + second)
            * 1_000_000_000 + m.subsec(),
    ensures
        set.local_day() == m.local_day(),
        set.hour() == hour,
        set.minute() == minute,
        set.second() == second,
        set.subsec() == m.subsec(),
{
    let time = hour * 3600 + minute * 60 + second;
    let local = m.local_seconds();
    let day = local / 86_400;
    assert(local == day * 86_400 + m.time_of_day());
    assert(set.seconds() == m.seconds() - m.time_of_day() + time);
    assert(set.local_seconds() == day * 86_400 + time);
    lemma_time_made(hour, minute, second);
    lemma_time_of_day(day, time);
}

/// A change of the date keeps the time: after a setter of the day of the
/// year, the year, the month or the day of the month, and after a shift by
/// months or days, the local time of day, the nanosecond and the offset are
/// what they were. A shift by days moves the local day by that many days.
pub proof fn lemma_date_change_keeps_time(m: Moment, modifier: Modifier, changed: Moment)
    requires
        m.valid(),
        match modifier {
            Modifier::Setter { field, value } => field != Field::Hour && field != Field::Minute
                && field != Field::Second && field != Field::Nanosecond,
            Modifier::Months { back, count } => true,
            Modifier::Days { back, days } => true,
            Modifier::Shift { unit, back, amount } => false,
        },
        modifier.applied(m) == Ok::<Moment, Error>(changed),
    ensures
        changed.offset == m.offset,
        changed.time_of_day() == m.time_of_day(),
        changed.hour() == m.hour(),
        changed.minute() == m.minute(),
        changed.second() == m.second(),
        changed.subsec() == m.subsec(),
        modifier matches Modifier::Days { back: false, days } ==> changed.local_day()
            == m.local_day() + days,
        modifier matches Modifier::Days { back: true, days } ==> changed.local_day()
            == m.local_day() - days,
{
    let time = m.time_of_day();
    match modifier {
        Modifier::Days { back, days } => {
            let moved = if back {
                -days
            } else {
                days as int
            };
            assert(changed.nanos == m.nanos + moved * 86_400_000_000_000);
            assert(changed.seconds() == m.seconds() + moved * 86_400);
            assert(changed.subsec() == m.subsec());
            lemma_time_of_day(m.local_day() + moved, time);
        },
        Modifier::Months { back, count } => {
            let day = if back {
                day_months_earlier(m.seconds(), m.subsec(), m.offset, count as int)
            } else {
                day_months_later(m.seconds(), m.subsec(), m.offset, count as int)
            }->Some_0;
            assert(changed.nanos == (day * 86_400 + time - m.offset) * 1_000_000_000 + m.subsec());
            assert(changed.seconds() == day * 86_400 + time - m.offset);
            lemma_time_of_day(day, time);
        },
        Modifier::Setter { field, value } => {
            let day = field.day_reached(m, value as int)->Some_0;
            assert(changed.nanos == (day * 86_400 + time - m.offset) * 1_000_000_000 + m.subsec());
            assert(changed.seconds() == day * 86_400 + time - m.offset);
            lemma_time_of_day(day, time);
        },
        _ => {},
    }
}

/// A field of the time of day that was set is what the instant shows: after
/// a setter of the hour, the minute, the second or the nanosecond, the local
/// time has the value in that field, and the other three fields and the local
/// day are what they were.
pub proof fn lemma_clock_field_set(m: Moment, field: Field, value: i64, set: Moment)
    requires
        m.valid(),
        field == Field::Hour || field == Field::Minute || field == Field::Second || field
            == Field::Nanosecond,
        (Modifier::Setter { field, value }).applied(m) == Ok::<Moment, Error>(set),
    ensures
        set.offset == m.offset,
        set.local_day() == m.local_day(),
        set.hour() == if field == Field::Hour {
            value as int
        } else {
            m.hour()
        },
        set.minute() == if field == Field::Minute {
            value as int
        } else {
            m.minute()
        },
        set.second() == if field == Field::Second {
            value as int
        } else {
            m.second()
        },
        set.subsec() == if field == Field::Nanosecond {
            value as int
        } else {
            m.subsec()
        },
{
    let time = m.time_of_day();
    lemma_time_of_day(m.local_day(), time);
    let (hour, minute, second) = (m.hour(), m.minute(), m.second());
    assert(field.takes(value as int));
    match field {
        Field::Hour => {
            assert(time % 3600 == minute * 60 + second);
            lemma_time_replaced(m, set, value as int, minute, second);
        },
        Field::Minute => {
            assert(time - time % 3600 == hour * 3600);
            lemma_time_replaced(m, set, hour, value as int, second);
        },
        Field::Second => {
            assert(time - time % 60 == hour * 3600 + minute * 60);
            lemma_time_replaced(m, set, hour, minute, value as int);
        },
        _ => {
            assert(set.nanos == m.seconds() * 1_000_000_000 + value);
            assert(set.seconds() == m.seconds());
        },
    }
}

/// Epoch equivalence, seconds: a count of seconds that is taken as the
/// start, not modified, and written as a count of seconds, is written as the
/// count that was read.
pub proof fn lemma_seconds_in_seconds_out(
    p: Map<Seq<char>, Seq<char>>,
    count: int,
    now: Moment,
    local: int,
    caps: Capabilities,
)
    requires
        MIN_SECONDS <= count <= MAX_SECONDS,
        initializer_choice(p) == InitializerChoice::Timestamp,
        parse_decimal(p[Parameter::FromTimestamp.key()], i64::MIN as int, i64::MAX as int) == Ok::<
            int,
            IntegerFault,
        >(count),
        unmodified(p),
        finalizer_choice(p) == FinalizerChoice::Timestamp,
    ensures
        transformed(p, now, local, caps) == Ok::<Seq<char>, Error>(decimal_text(count)),
{
    let start = Moment { nanos: count * 1_000_000_000, offset: 0 };
    lemma_plain_transformation(p, now, local, caps, -1, start);
}

/// Epoch equivalence, milliseconds: a count of milliseconds in range that is
/// taken as the start, not modified, and written as a count of milliseconds,
/// is written as the count that was read.
pub proof fn lemma_millis_in_millis_out(
    p: Map<Seq<char>, Seq<char>>,
    count: int,
    now: Moment,
    local: int,
    caps: Capabilities,
)
    requires
        min_nanos() <= count * 1_000_000 <= max_nanos(),
        initializer_choice(p) == InitializerChoice::TimestampMillis,
        parse_decimal(
            p[Parameter::FromTimestampMillis.key()],
            i64::MIN as int,
            i64::MAX as int,
        ) == Ok::<int, IntegerFault>(count),
        unmodified(p),
        finalizer_choice(p) == FinalizerChoice::TimestampMillis,
    ensures
        transformed(p, now, local, caps) == Ok::<Seq<char>, Error>(decimal_text(count)),
{
    let start = Moment { nanos: count * 1_000_000, offset: 0 };
    lemma_plain_transformation(p, now, local, caps, -1, start);
}

/// Epoch equivalence, microseconds.
pub proof fn lemma_micros_in_micros_out(
    p: Map<Seq<char>, Seq<char>>,
    count: int,
    now: Moment,
    local: int,
    caps: Capabilities,
)
    requires
        min_nanos() <= count * 1_000 <= max_nanos(),
        initializer_choice(p) == InitializerChoice::TimestampMicros,
        parse_decimal(
            p[Parameter::FromTimestampMicros.key()],
            i64::MIN as int,
            i64::MAX as int,
        ) == Ok::<int, IntegerFault>(count),
        unmodified(p),
        finalizer_choice(p) == FinalizerChoice::TimestampMicros,
    ensures
        transformed(p, now, local, caps) == Ok::<Seq<char>, Error>(decimal_text(count)),
{
    let start = Moment { nanos: count * 1_000, offset: 0 };
    lemma_plain_transformation(p, now, local, caps, -1, start);
}

/// Epoch equivalence, nanoseconds: every 64-bit count comes back.
pub proof fn lemma_nanos_in_nanos_out(
    p: Map<Seq<char>, Seq<char>>,
    count: int,
    now: Moment,
    local: int,
    caps: Capabilities,
)
    requires
        initializer_choice(p) == InitializerChoice::TimestampNanos,
        parse_decimal(
            p[Parameter::FromTimestampNanos.key()],
            i64::MIN as int,
            i64::MAX as int,
        ) == Ok::<int, IntegerFault>(count),
        unmodified(p),
        finalizer_choice(p) == FinalizerChoice::TimestampNanos,
    ensures
        transformed(p, now, local, caps) == Ok::<Seq<char>, Error>(decimal_text(count)),
{
    let start = Moment { nanos: count, offset: 0 };
    lemma_plain_transformation(p, now, local, caps, -1, start);
}

/// Arithmetic inverse, fixed lengths: a shift that succeeds is undone by the
/// same shift in the other direction, which succeeds too.
pub proof fn lemma_shift_undone(m: Moment, unit: Unit, amount: int, back: bool, moved: Moment)
    requires
        m.valid(),
        shifted(m, unit, amount, back) == Ok::<Moment, Span>(moved),
    ensures
        shifted(moved, unit, amount, !back) == Ok::<Moment, Span>(m),
{
}

/// Arithmetic inverse, days: where the local date and time of an instant
/// lie in range, as they do in UTC, a number of days that was added with
/// success is taken off again by subtracting the same number, which succeeds
/// and gives the first instant; and so the other way round.
pub proof fn lemma_days_undone(m: Moment, days: u64, back: bool, there: Moment)
    requires
        m.valid(),
        seconds_in_range(m.local_seconds()),
        (Modifier::Days { back, days }).applied(m) == Ok::<Moment, Error>(there),
    ensures
        (Modifier::Days { back: !back, days }).applied(there) == Ok::<Moment, Error>(m),
{
    let moved = if back {
        -days
    } else {
        days as int
    };
    assert(there.nanos == (m.seconds() + 86_400 * moved) * 1_000_000_000 + m.subsec());
    assert(there.seconds() == m.seconds() + 86_400 * moved);
    assert(there.subsec() == m.subsec());
}

/// A shift by days in UTC succeeds wherever the instant reached lies in
/// range, and moves the instant by that many times 86400 seconds.
pub proof fn lemma_days_in_utc(m: Moment, days: u64, back: bool)
    requires
        m.valid(),
        m.offset == 0,
    ensures
        (Modifier::Days { back, days }).applied(m) == match Moment::at(
            if back {
                m.nanos - days * 86_400_000_000_000
            } else {
                m.nanos + days * 86_400_000_000_000
            },
            0,
        ) {
            Some(moved) => Ok::<Moment, Error>(moved),
            None => Err::<Moment, Error>(
                Error::OutOfRange((Modifier::Days { back, days }).parameter_of(), Span::Instant),
            ),
        },
{
    let moved = if back {
        -days
    } else {
        days as int
    };
    let target = m.seconds() + 86_400 * moved;
    assert(m.nanos == m.seconds() * 1_000_000_000 + m.subsec());
    assert(seconds_in_range(target) <==> min_nanos() <= target * 1_000_000_000 + m.subsec()
        <= max_nanos());
}

/// A setter of the hour, the minute, the second or the nanosecond, given a
/// value of its field, succeeds wherever the instant reached lies in range:
/// always for the nanosecond, and for the others unless the instant lies
/// within a day of an end of the range.
pub proof fn lemma_clock_field_succeeds(m: Moment, field: Field, value: i64)
    requires
        m.valid(),
        field == Field::Hour || field == Field::Minute || field == Field::Second || field
            == Field::Nanosecond,
        field.takes(value as int),
        field == Field::Nanosecond || (MIN_SECONDS + 86_400 <= m.seconds() <= MAX_SECONDS
            - 86_400),
    ensures
        (Modifier::Setter { field, value }).applied(m) is Ok,
{
    let time = m.time_of_day();
    assert(0 <= time < 86_400);
    assert(m.nanos == m.seconds() * 1_000_000_000 + m.subsec());
    match field {
        Field::Hour => {
            let target = m.seconds() - time + (value * 3600 + time % 3600);
            assert(seconds_in_range(target));
            assert(min_nanos() <= target * 1_000_000_000 + m.subsec() <= max_nanos());
        },
        Field::Minute => {
            let target = m.seconds() - time + (time / 3600 * 3600 + value * 60 + time % 60);
            assert(seconds_in_range(target));
            assert(min_nanos() <= target * 1_000_000_000 + m.subsec() <= max_nanos());
        },
        Field::Second => {
            let target = m.seconds() - time + (time / 60 * 60 + value);
            assert(seconds_in_range(target));
            assert(min_nanos() <= target * 1_000_000_000 + m.subsec() <= max_nanos());
        },
        _ => {
            assert(min_nanos() <= m.seconds() * 1_000_000_000 + value <= max_nanos());
        },
    }
}

/// Arithmetic inverse, as two transformations: the first starts at a count of
/// seconds, adds a number of days and writes the count of seconds reached;
/// the second, made at any later time, starts at what the first wrote and
/// subtracts the same number of days. Where the count reached lies in range,
/// both succeed: the first writes the count that lies that many days later,
/// the second the count that the first started at.
pub proof fn lemma_days_there_and_back(
    first: Map<Seq<char>, Seq<char>>,
    second: Map<Seq<char>, Seq<char>>,
    count: int,
    days: int,
    now: Moment,
    local: int,
    caps: Capabilities,
    later_now: Moment,
    later_local: int,
    later_caps: Capabilities,
)
    requires
        MIN_SECONDS <= count,
        count + 86_400 * days <= MAX_SECONDS,
        initializer_choice(first) == InitializerChoice::Timestamp,
        parse_decimal(first[Parameter::FromTimestamp.key()], i64::MIN as int, i64::MAX as int)
            == Ok::<int, IntegerFault>(count),
        no_modifier_but(first, Parameter::AddDays),
        first.dom().contains(Parameter::AddDays.key()),
        parse_decimal(first[Parameter::AddDays.key()], 0, u64::MAX as int) == Ok::<
            int,
            IntegerFault,
        >(days),
        finalizer_choice(first) == FinalizerChoice::Timestamp,
        initializer_choice(second) == InitializerChoice::Timestamp,
        second[Parameter::FromTimestamp.key()] == decimal_text(count + 86_400 * days),
        no_modifier_but(second, Parameter::SubDays),
        second.dom().contains(Parameter::SubDays.key()),
        parse_decimal(second[Parameter::SubDays.key()], 0, u64::MAX as int) == Ok::<
            int,
            IntegerFault,
        >(days),
        finalizer_choice(second) == FinalizerChoice::Timestamp,
    ensures
        transformed(first, now, local, caps) == Ok::<Seq<char>, Error>(
            decimal_text(count + 86_400 * days),
        ),
        transformed(second, later_now, later_local, later_caps) == Ok::<Seq<char>, Error>(
            decimal_text(count),
        ),
{
    let reached = count + 86_400 * days;
    let start = Moment { nanos: count * 1_000_000_000, offset: 0 };
    let there = Moment { nanos: reached * 1_000_000_000, offset: 0 };
    assert(role_at(13) == Role::Days { back: false });
    assert(role_at(22) == Role::Days { back: true });
    assert(only_modifier(first, 13));
    assert(only_modifier(second, 22));
    lemma_days_in_utc(start, days as u64, false);
    lemma_days_in_utc(there, days as u64, true);
    lemma_plain_transformation(first, now, local, caps, 13, start);
    assert(stepped(first, start, role_at(13)) == Ok::<Moment, Error>(there));
    lemma_decimal_round_trip(reached, i64::MIN as int, i64::MAX as int);
    lemma_plain_transformation(second, later_now, later_local, later_caps, 22, there);
    assert(stepped(second, there, role_at(22)) == Ok::<Moment, Error>(start));
}

/// Reading back what was written as RFC 3339, as two transformations: the
/// first starts at a count of nanoseconds, changes nothing and writes
/// RFC 3339; the second starts at what the first wrote, changes nothing and
/// writes the count of nanoseconds. Where the calendar reads the instant of
/// the first back from what it writes of it, the second writes the count that
/// the first started at. That the calendar does so is the premise here, not a
/// thing proved: its writer and its reader are two functions of `chrono`, and
/// nothing about the one is known from the other.
pub proof fn lemma_rfc3339_there_and_back(
    first: Map<Seq<char>, Seq<char>>,
    second: Map<Seq<char>, Seq<char>>,
    count: int,
    now: Moment,
    local: int,
    caps: Capabilities,
    later_now: Moment,
    later_local: int,
    later_caps: Capabilities,
)
    requires
        rfc3339_reading(rfc3339_text(count / 1_000_000_000, count % 1_000_000_000, 0)) == Some(
            (count / 1_000_000_000, count % 1_000_000_000),
        ),
        initializer_choice(first) == InitializerChoice::TimestampNanos,
        parse_decimal(
            first[Parameter::FromTimestampNanos.key()],
            i64::MIN as int,
            i64::MAX as int,
        ) == Ok::<int, IntegerFault>(count),
        unmodified(first),
        finalizer_choice(first) == FinalizerChoice::Rfc3339,
        initializer_choice(second) == InitializerChoice::Rfc3339,
        transformed(first, now, local, caps) == Ok::<Seq<char>, Error>(
            second[Parameter::FromRfc3339.key()],
        ),
        unmodified(second),
        finalizer_choice(second) == FinalizerChoice::TimestampNanos,
    ensures
        transformed(second, later_now, later_local, later_caps) == Ok::<Seq<char>, Error>(
            decimal_text(count),
        ),
{
    let start = Moment { nanos: count, offset: 0 };
    lemma_plain_transformation(first, now, local, caps, -1, start);
    assert(count == (count / 1_000_000_000) * 1_000_000_000 + count % 1_000_000_000);
    lemma_plain_transformation(second, later_now, later_local, later_caps, -1, start);
}

/// An offset is taken whatever its digits: a text that begins with a sign
/// and a digit is read as a fixed offset, never looked up as a zone, and what
/// the reader of offsets makes of it decides.
pub proof fn lemma_signed_text_is_an_offset(
    p: Map<Seq<char>, Seq<char>>,
    m: Moment,
    local: int,
    caps: Capabilities,
)
    requires
        p.dom().contains(Parameter::WithTimezone.key()),
        offset_shaped(p[Parameter::WithTimezone.key()]),
    ensures
        zone_choice(p) == ZoneChoice::Fixed,
        zoned(p, m, local, caps) == shown(
            m,
            fixed_offset_reading(p[Parameter::WithTimezone.key()]),
            ZoneFault::Offset,
        ),
{
}

/// The place in the order of the shift by `unit`.
pub open spec fn shift_place(unit: Unit, back: bool) -> int {
    let start: int = if back {
        20
    } else {
        11
    };
    start + match unit {
        Unit::Weeks => 1int,
        Unit::Hours => 3,
        Unit::Minutes => 4,
        Unit::Seconds => 5,
        Unit::Milliseconds => 6,
        Unit::Microseconds => 7,
        Unit::Nanoseconds => 8,
    }
}

proof fn lemma_shift_place(p: Map<Seq<char>, Seq<char>>, unit: Unit, back: bool)
    requires
        no_modifier_but(p, unit.parameter_of(back)),
    ensures
        role_at(shift_place(unit, back)) == (Role::Shift { unit, back }),
        only_modifier(p, shift_place(unit, back)),
{
    let j = shift_place(unit, back);
    assert(role_at(j) == Role::Shift { unit, back });
    assert forall|k: int| 0 <= k < MODIFIERS && k != j implies !p.dom().contains(
        (#[trigger] role_at(k)).parameter_of().key(),
    ) by {
        assert(role_at(k).parameter_of() != unit.parameter_of(back));
    }
}

/// Arithmetic inverse of the shifts of fixed length, as two transformations:
/// the first starts at a count of nanoseconds, adds an amount of a unit and
/// writes the count reached; the second, made at any later time, starts at
/// what the first wrote and subtracts the same amount. Where the first
/// succeeds, the second succeeds too, and writes the count that the first
/// started at.
pub proof fn lemma_shift_there_and_back(
    first: Map<Seq<char>, Seq<char>>,
    second: Map<Seq<char>, Seq<char>>,
    unit: Unit,
    count: int,
    amount: int,
    between: Seq<char>,
    now: Moment,
    local: int,
    caps: Capabilities,
    later_now: Moment,
    later_local: int,
    later_caps: Capabilities,
)
    requires
        initializer_choice(first) == InitializerChoice::TimestampNanos,
        parse_decimal(
            first[Parameter::FromTimestampNanos.key()],
            i64::MIN as int,
            i64::MAX as int,
        ) == Ok::<int, IntegerFault>(count),
        no_modifier_but(first, unit.parameter_of(false)),
        first.dom().contains(unit.parameter_of(false).key()),
        parse_decimal(first[unit.parameter_of(false).key()], i64::MIN as int, i64::MAX as int)
            == Ok::<int, IntegerFault>(amount),
        finalizer_choice(first) == FinalizerChoice::TimestampNanos,
        transformed(first, now, local, caps) == Ok::<Seq<char>, Error>(between),
        initializer_choice(second) == InitializerChoice::TimestampNanos,
        second[Parameter::FromTimestampNanos.key()] == between,
        no_modifier_but(second, unit.parameter_of(true)),
        second.dom().contains(unit.parameter_of(true).key()),
        parse_decimal(second[unit.parameter_of(true).key()], i64::MIN as int, i64::MAX as int)
            == Ok::<int, IntegerFault>(amount),
        finalizer_choice(second) == FinalizerChoice::TimestampNanos,
    ensures
        transformed(second, later_now, later_local, later_caps) == Ok::<Seq<char>, Error>(
            decimal_text(count),
        ),
{
    let start = Moment { nanos: count, offset: 0 };
    lemma_shift_place(first, unit, false);
    lemma_shift_place(second, unit, true);
    lemma_plain_transformation(first, now, local, caps, shift_place(unit, false), start);
    let there = stepped(first, start, role_at(shift_place(unit, false)))->Ok_0;
    assert(shifted(start, unit, amount, false) == Ok::<Moment, Span>(there));
    assert(between == decimal_text(there.nanos));
    lemma_decimal_round_trip(there.nanos, i64::MIN as int, i64::MAX as int);
    let restart = Moment { nanos: there.nanos, offset: 0 };
    lemma_shift_undone(start, unit, amount, false, there);
    lemma_plain_transformation(
        second,
        later_now,
        later_local,
        later_caps,
        shift_place(unit, true),
        restart,
    );
}

} // verus!
