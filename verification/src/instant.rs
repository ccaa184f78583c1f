//! A point in time: a count of nanoseconds since the Unix epoch, together
//! with the offset from UTC under which it is shown.

use vstd::prelude::*;

verus! {

/// The first second that an instant can lie in: midnight before
/// January 1 of the year -262143, UTC.
pub const MIN_SECONDS: i64 = -8_334_601_228_800;

/// The last second that an instant can lie in: the one before midnight
/// after December 31 of the year 262142, UTC.
pub const MAX_SECONDS: i64 = 8_210_266_876_799;

/// The earliest instant, in nanoseconds since the epoch.
pub open spec fn min_nanos() -> int {
    MIN_SECONDS * 1_000_000_000
}

/// The latest instant, in nanoseconds since the epoch.
pub open spec fn max_nanos() -> int {
    MAX_SECONDS * 1_000_000_000 + 999_999_999
}

/// Whether `offset` is a distance from UTC of less than a day, in seconds.
pub open spec fn offset_valid(offset: int) -> bool {
    -86_400 < offset < 86_400
}

/// The mathematical model of an instant.
pub struct Moment {
    /// Nanoseconds since 1970-01-01T00:00:00Z, leap seconds not counted.
    pub nanos: int,
    /// Local time minus UTC, in seconds.
    pub offset: int,
}

impl Moment {
    /// Whether the moment lies in the range of instants, under an offset of
    /// less than a day.
    pub open spec fn valid(self) -> bool {
        min_nanos() <= self.nanos <= max_nanos() && offset_valid(self.offset)
    }

    /// Whole seconds since the epoch, rounded towards the past.
    pub open spec fn seconds(self) -> int {
        self.nanos / 1_000_000_000
    }

    /// Nanoseconds since the last whole second.
    pub open spec fn subsec(self) -> int {
        self.nanos % 1_000_000_000
    }

    /// Whole seconds since the local epoch: what a clock at the offset shows.
    pub open spec fn local_seconds(self) -> int {
        self.seconds() + self.offset
    }

    /// The local day, counted from the local epoch.
    pub open spec fn local_day(self) -> int {
        self.local_seconds() / 86_400
    }

    /// Seconds since local midnight.
    pub open spec fn time_of_day(self) -> int {
        self.local_seconds() % 86_400
    }

    /// The local hour, from 0 to 23.
    pub open spec fn hour(self) -> int {
        self.time_of_day() / 3600
    }

    /// The local minute, from 0 to 59.
    pub open spec fn minute(self) -> int {
        self.time_of_day() % 3600 / 60
    }

    /// The local second, from 0 to 59.
    pub open spec fn second(self) -> int {
        self.time_of_day() % 60
    }

    /// The moment `nanos` after the epoch shown under `offset`, where both are
    /// in range.
    pub open spec fn at(nanos: int, offset: int) -> Option<Moment> {
        let m = Moment { nanos, offset };
        if m.valid() {
            Some(m)
        } else {
            None
        }
    }

    /// The same moment shown under another offset.
    pub open spec fn shown_under(self, offset: int) -> Moment {
        Moment { nanos: self.nanos, offset }
    }
}

/// The granularities of a fixed-length duration.
#[derive(Clone, Copy, Debug, PartialEq, Eq, Structural)]
pub enum Unit {
    /// Seven days of 24 hours.
    Weeks,
    /// 3600 seconds.
    Hours,
    /// 60 seconds.
    Minutes,
    /// A second.
    Seconds,
    /// A thousandth of a second.
    Milliseconds,
    /// A millionth of a second.
    Microseconds,
    /// A billionth of a second.
    Nanoseconds,
}

impl Unit {
    /// The length of one unit in nanoseconds.
    pub open spec fn nanos(self) -> int {
        match self {
            Unit::Weeks => 604_800_000_000_000,
            Unit::Hours => 3_600_000_000_000,
            Unit::Minutes => 60_000_000_000,
            Unit::Seconds => 1_000_000_000,
            Unit::Milliseconds => 1_000_000,
            Unit::Microseconds => 1_000,
            Unit::Nanoseconds => 1,
        }
    }

    /// The length of one unit in nanoseconds.
    pub fn length(self) -> (r: i64)
        ensures
            r == self.nanos(),
    {
        match self {
            Unit::Weeks => 604_800_000_000_000,
            Unit::Hours => 3_600_000_000_000,
            Unit::Minutes => 60_000_000_000,
            Unit::Seconds => 1_000_000_000,
            Unit::Milliseconds => 1_000_000,
            Unit::Microseconds => 1_000,
            Unit::Nanoseconds => 1,
        }
    }
}

/// Which range a shift has left.
#[derive(Clone, Copy, Debug, PartialEq, Eq, Structural)]
pub enum Span {
    /// The duration itself is longer than a duration can be.
    Duration,
    /// The instant reached lies outside the range of instants.
    Instant,
}

/// A duration holds at most `i64::MAX` milliseconds, in either direction.
pub open spec fn duration_fits(nanos: int) -> bool {
    -(i64::MAX * 1_000_000) <= nanos <= i64::MAX * 1_000_000
}

/// The moment that lies `amount` units after `m`, or before it where `back`
/// is set.
pub open spec fn shifted(m: Moment, unit: Unit, amount: int, back: bool) -> Result<Moment, Span> {
    let length = amount * unit.nanos();
    let target = if back {
        m.nanos - length
    } else {
        m.nanos + length
    };
    if !duration_fits(length) {
        Err(Span::Duration)
    } else if min_nanos() <= target <= max_nanos() {
        Ok(Moment { nanos: target, offset: m.offset })
    } else {
        Err(Span::Instant)
    }
}

/// A point in time with nanosecond precision and a display offset.
#[derive(Clone, Copy, Debug)]
pub struct Instant {
    secs: i64,
    nanos: u32,
    offset: i32,
}

impl View for Instant {
    type V = Moment;

    closed spec fn view(&self) -> Moment {
        Moment { nanos: self.secs * 1_000_000_000 + self.nanos, offset: self.offset as int }
    }
}

/// The moment of an instant that may be absent.
pub open spec fn view_of(r: Option<Instant>) -> Option<Moment> {
    match r {
        Some(i) => Some(i@),
        None => None,
    }
}

impl Instant {
    #[verifier::type_invariant]
    spec fn well_formed(self) -> bool {
        &&& MIN_SECONDS <= self.secs <= MAX_SECONDS
        &&& self.nanos < 1_000_000_000
        &&& -86_400 < self.offset < 86_400
    }

    /// The instant `total` nanoseconds after the epoch, shown under `offset`,
    /// where both are known to be in range.
    pub(crate) fn at_total(total: i128, offset: i32) -> (r: Instant)
        requires
            Moment::at(total as int, offset as int) is Some,
        ensures
            r@ == (Moment { nanos: total as int, offset: offset as int }),
    {
        let above: u128 = (total - (MIN_SECONDS as i128) * 1_000_000_000) as u128;
        let whole: u128 = above / 1_000_000_000;
        let rest: u128 = above % 1_000_000_000;
        let secs: i64 = (whole as i128 + MIN_SECONDS as i128) as i64;
        let nanos: u32 = rest as u32;
        Instant { secs, nanos, offset }
    }

    /// The instant `total` nanoseconds after the epoch, shown under `offset`.
    pub fn from_total(total: i128, offset: i32) -> (r: Option<Instant>)
        ensures
            view_of(r) == Moment::at(total as int, offset as int),
    {
        if offset <= -86_400 || offset >= 86_400 {
            return None;
        }
        if total < (MIN_SECONDS as i128) * 1_000_000_000 || total > (MAX_SECONDS as i128)
            * 1_000_000_000 + 999_999_999 {
            return None;
        }
        Some(Instant::at_total(total, offset))
    }

    /// The start of the second `secs` seconds after the epoch, in UTC.
    pub fn from_timestamp(secs: i64) -> (r: Option<Instant>)
        ensures
            view_of(r) == Moment::at(secs * 1_000_000_000, 0),
    {
        Instant::from_total((secs as i128) * 1_000_000_000, 0)
    }

    /// The instant `millis` milliseconds after the epoch, in UTC.
    pub fn from_timestamp_millis(millis: i64) -> (r: Option<Instant>)
        ensures
            view_of(r) == Moment::at(millis * 1_000_000, 0),
    {
        Instant::from_total((millis as i128) * 1_000_000, 0)
    }

    /// The instant `micros` microseconds after the epoch, in UTC.
    pub fn from_timestamp_micros(micros: i64) -> (r: Option<Instant>)
        ensures
            view_of(r) == Moment::at(micros * 1_000, 0),
    {
        Instant::from_total((micros as i128) * 1_000, 0)
    }

    /// The instant `nanos` nanoseconds after the epoch, in UTC. Every 64-bit
    /// count lies in range.
    pub fn from_timestamp_nanos(nanos: i64) -> (r: Instant)
        ensures
            r@ == (Moment { nanos: nanos as int, offset: 0 }),
    {
        Instant::at_total(nanos as i128, 0)
    }

    /// The instant that a calendar reads as `secs` whole seconds since the
    /// epoch and `nanos` nanoseconds more. A `nanos` of a second or more,
    /// which is how a leap second is written, counts on into the next second.
    pub fn from_reading(secs: i64, nanos: u32, offset: i32) -> (r: Option<Instant>)
        ensures
            view_of(r) == Moment::at(secs * 1_000_000_000 + nanos, offset as int),
    {
        Instant::from_total((secs as i128) * 1_000_000_000 + nanos as i128, offset)
    }

    /// Whole seconds since the epoch, the nanoseconds since the last of them,
    /// and the offset in seconds.
    pub fn parts(&self) -> (r: (i64, u32, i32))
        ensures
            r.0 == self@.seconds(),
            r.1 == self@.subsec(),
            r.2 == self@.offset,
            MIN_SECONDS <= r.0 <= MAX_SECONDS,
            r.1 < 1_000_000_000,
            self@.valid(),
    {
        proof {
            use_type_invariant(self);
        }
        (self.secs, self.nanos, self.offset)
    }

    /// Whole seconds since the epoch.
    pub fn timestamp(&self) -> (r: i64)
        ensures
            r == self@.seconds(),
            MIN_SECONDS <= r <= MAX_SECONDS,
            self@.valid(),
    {
        proof {
            use_type_invariant(self);
        }
        self.secs
    }

    /// Nanoseconds since the last whole second.
    pub fn subsec_nanos(&self) -> (r: u32)
        ensures
            r == self@.subsec(),
            r < 1_000_000_000,
    {
        proof {
            use_type_invariant(self);
        }
        self.nanos
    }

    /// Local time minus UTC, in seconds.
    pub fn offset_seconds(&self) -> (r: i32)
        ensures
            r == self@.offset,
            offset_valid(r as int),
    {
        proof {
            use_type_invariant(self);
        }
        self.offset
    }

    /// Whole milliseconds since the epoch.
    pub fn timestamp_millis(&self) -> (r: i64)
        ensures
            r == self@.nanos / 1_000_000,
    {
        proof {
            use_type_invariant(self);
        }
        self.secs * 1000 + (self.nanos / 1_000_000) as i64
    }

    /// Whole microseconds since the epoch.
    pub fn timestamp_micros(&self) -> (r: i64)
        ensures
            r == self@.nanos / 1_000,
    {
        proof {
            use_type_invariant(self);
        }
        self.secs * 1_000_000 + (self.nanos / 1_000) as i64
    }

    /// Nanoseconds since the epoch, where 64 bits hold them.
    pub fn timestamp_nanos(&self) -> (r: Option<i64>)
        ensures
            match r {
                Some(n) => n == self@.nanos,
                None => self@.nanos < i64::MIN || self@.nanos > i64::MAX,
            },
    {
        proof {
            use_type_invariant(self);
        }
        let total: i128 = (self.secs as i128) * 1_000_000_000 + self.nanos as i128;
        if total < i64::MIN as i128 || total > i64::MAX as i128 {
            None
        } else {
            Some(total as i64)
        }
    }

    /// The same instant shown under `offset`, where that is less than a day.
    pub fn with_offset(&self, offset: i32) -> (r: Option<Instant>)
        ensures
            view_of(r) == Moment::at(self@.nanos, offset as int),
    {
        proof {
            use_type_invariant(self);
        }
        if offset <= -86_400 || offset >= 86_400 {
            None
        } else {
            Some(Instant { secs: self.secs, nanos: self.nanos, offset })
        }
    }

    /// The instant `amount` units later, or earlier where `back` is set.
    pub fn shift(&self, unit: Unit, amount: i64, back: bool) -> (r: Result<Instant, Span>)
        ensures
            match r {
                Ok(i) => shifted(self@, unit, amount as int, back) == Ok::<Moment, Span>(i@),
                Err(e) => shifted(self@, unit, amount as int, back) == Err::<Moment, Span>(e),
            },
    {
        proof {
            use_type_invariant(self);
        }
        let each: i64 = unit.length();
        assert(-0x8000_0000_0000_0000 * 604_800_000_000_000 <= amount * each
            <= 0x8000_0000_0000_0000 * 604_800_000_000_000) by (nonlinear_arith)
            requires
                -0x8000_0000_0000_0000 <= amount <= 0x8000_0000_0000_0000,
                1 <= each <= 604_800_000_000_000,
        ;
        let length: i128 = (amount as i128) * (each as i128);
        let limit: i128 = (i64::MAX as i128) * 1_000_000;
        if length < -limit || length > limit {
            return Err(Span::Duration);
        }
        let total: i128 = (self.secs as i128) * 1_000_000_000 + self.nanos as i128;
        let target: i128 = if back {
            total - length
        } else {
            total + length
        };
        match Instant::from_total(target, self.offset) {
            Some(i) => Ok(i),
            None => Err(Span::Instant),
        }
    }
}

} // verus!
