//! The offset under which the instant is shown: the first of the modifiers.

use vstd::prelude::*;
use crate::calendar;
use crate::calendar::{fixed_offset_reading, offset_of, zone_offset_reading};
use crate::decimal::is_digit;
use crate::error::{Error, ZoneFault};
use crate::instant::{Instant, Moment};
use crate::modifier::moment_result;
use crate::params::{Parameter, ParameterSet};
use crate::text::chars_of;

verus! {

/// What an invocation may use beyond the calendar itself.
#[derive(Clone, Copy, Debug, PartialEq, Eq, Structural)]
pub struct Capabilities {
    /// Whether `with_timezone` may name a zone.
    pub named_zones: bool,
    /// Whether `locale` may be given.
    pub locales: bool,
}

impl Capabilities {
    /// Everything switched on.
    pub fn full() -> (r: Capabilities)
        ensures
            r == (Capabilities { named_zones: true, locales: true }),
    {
        Capabilities { named_zones: true, locales: true }
    }
}

/// The ways in which `with_timezone` gives an offset.
#[derive(Clone, Copy, Debug, PartialEq, Eq, Structural)]
pub enum ZoneChoice {
    /// The parameter is absent: the instant is shown in UTC.
    Utc,
    /// The word `local`: the offset of the machine's own zone.
    Local,
    /// A text that begins with a sign and a digit: a fixed offset such as
    /// `+02:00` or `-11:11`.
    Fixed,
    /// Any other text: the name of a zone.
    Named,
}

/// Whether `s` is the word `local`, in capitals or small letters.
pub open spec fn local_word(s: Seq<char>) -> bool {
    &&& s.len() == 5
    &&& (s[0] == 'l' || s[0] == 'L')
    &&& (s[1] == 'o' || s[1] == 'O')
    &&& (s[2] == 'c' || s[2] == 'C')
    &&& (s[3] == 'a' || s[3] == 'A')
    &&& (s[4] == 'l' || s[4] == 'L')
}

/// Whether `text` is the word `local`, in capitals or small letters.
pub fn is_local_word(text: &str) -> (r: bool)
    ensures
        r == local_word(text@),
{
    let s = chars_of(text);
    s.len() == 5 && (s[0] == 'l' || s[0] == 'L') && (s[1] == 'o' || s[1] == 'O') && (s[2] == 'c'
        || s[2] == 'C') && (s[3] == 'a' || s[3] == 'A') && (s[4] == 'l' || s[4] == 'L')
}

/// Whether `s` has the shape of an offset: a sign, `+` or `-`, and after it a
/// digit. What follows does not matter here: it is the reader of offsets that
/// takes the text or refuses it.
pub open spec fn offset_shaped(s: Seq<char>) -> bool {
    &&& s.len() >= 2
    &&& (s[0] == '+' || s[0] == '-')
    &&& is_digit(s[1])
}

/// Whether `text` begins with a sign and a digit.
pub fn is_offset_shaped(text: &str) -> (r: bool)
    ensures
        r == offset_shaped(text@),
{
    let s = chars_of(text);
    s.len() >= 2 && (s[0] == '+' || s[0] == '-') && s[1] >= '0' && s[1] <= '9'
}

/// Which way of giving an offset the text of `with_timezone` takes: the word
/// `local`; a fixed offset, where the text begins with a sign and a digit,
/// whatever its digits; else the name of a zone.
pub open spec fn zone_choice_of(text: Seq<char>) -> ZoneChoice {
    if local_word(text) {
        ZoneChoice::Local
    } else if offset_shaped(text) {
        ZoneChoice::Fixed
    } else {
        ZoneChoice::Named
    }
}

/// The way in which the parameters give an offset.
pub open spec fn zone_choice(p: Map<Seq<char>, Seq<char>>) -> ZoneChoice {
    let key = Parameter::WithTimezone.key();
    if p.dom().contains(key) {
        zone_choice_of(p[key])
    } else {
        ZoneChoice::Utc
    }
}

impl ZoneChoice {
    /// The way in which the parameters give an offset.
    pub fn select(params: &ParameterSet) -> (r: ZoneChoice)
        ensures
            r == zone_choice(params@),
    {
        match params.get(Parameter::WithTimezone.name()) {
            None => ZoneChoice::Utc,
            Some(text) => if is_local_word(text.as_str()) {
                ZoneChoice::Local
            } else if is_offset_shaped(text.as_str()) {
                ZoneChoice::Fixed
            } else {
                ZoneChoice::Named
            },
        }
    }
}

/// The moment `m` shown under an offset that was looked up: `fault` where
/// there is none, or none of less than a day.
pub open spec fn shown(m: Moment, offset: Option<int>, fault: ZoneFault) -> Result<Moment, Error> {
    match offset {
        Some(seconds) => match Moment::at(m.nanos, seconds) {
            Some(moved) => Ok(moved),
            None => Err(Error::InvalidTimezone(fault)),
        },
        None => Err(Error::InvalidTimezone(fault)),
    }
}

/// Shows an instant under an offset that was looked up.
pub fn show(instant: Instant, offset: Option<i32>, fault: ZoneFault) -> (r: Result<Instant, Error>)
    ensures
        moment_result(r) == shown(instant@, offset_of(offset), fault),
{
    match offset {
        Some(seconds) => match instant.with_offset(seconds) {
            Some(moved) => Ok(moved),
            None => Err(Error::InvalidTimezone(fault)),
        },
        None => Err(Error::InvalidTimezone(fault)),
    }
}

/// What `with_timezone` makes of `m`: the same moment under another offset.
/// `local` is the offset of the machine's own zone.
pub open spec fn zoned(
    p: Map<Seq<char>, Seq<char>>,
    m: Moment,
    local: int,
    caps: Capabilities,
) -> Result<Moment, Error> {
    let text = p[Parameter::WithTimezone.key()];
    match zone_choice(p) {
        ZoneChoice::Utc => shown(m, Some(0), ZoneFault::Offset),
        ZoneChoice::Local => shown(m, Some(local), ZoneFault::Offset),
        ZoneChoice::Fixed => shown(m, fixed_offset_reading(text), ZoneFault::Offset),
        ZoneChoice::Named => if caps.named_zones {
            shown(m, zone_offset_reading(text, m.seconds(), m.subsec()), ZoneFault::Name)
        } else {
            Err(Error::UnsupportedCapability(Parameter::WithTimezone))
        },
    }
}

/// Shows the instant under the offset that `with_timezone` asks for.
pub fn rezone(
    params: &ParameterSet,
    instant: Instant,
    local: i32,
    caps: Capabilities,
) -> (r: Result<Instant, Error>)
    ensures
        moment_result(r) == zoned(params@, instant@, local as int, caps),
{
    match params.get(Parameter::WithTimezone.name()) {
        None => show(instant, Some(0), ZoneFault::Offset),
        Some(text) => {
            if is_local_word(text.as_str()) {
                show(instant, Some(local), ZoneFault::Offset)
            } else if is_offset_shaped(text.as_str()) {
                show(instant, calendar::read_fixed_offset(text.as_str()), ZoneFault::Offset)
            } else if caps.named_zones {
                let (secs, nanos, _) = instant.parts();
                show(
                    instant,
                    calendar::read_zone_offset(text.as_str(), secs, nanos),
                    ZoneFault::Name,
                )
            } else {
                Err(Error::UnsupportedCapability(Parameter::WithTimezone))
            }
        },
    }
}

} // verus!
