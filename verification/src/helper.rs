//! The transformation as a whole: initialize, modify, finalize.

use vstd::prelude::*;
use crate::calendar;
use crate::error::Error;
use crate::finalizer::{finalize, finalized, text_result};
use crate::initializer::{initialize, initializer_choice, started, InitializerChoice};
use crate::instant::{offset_valid, Instant, Moment};
use crate::modifier::{modified, modify};
use crate::params::ParameterSet;
use crate::laws::lemma_surroundings_unread;
use crate::zone::{rezone, zone_choice, zoned, Capabilities, ZoneChoice};

verus! {

/// What the parameters `p` make of the surroundings: `now` is what the clock
/// shows, `local` the offset of the machine's own zone.
///
/// The starting moment is built, shown under the offset that `with_timezone`
/// asks for, changed by the modifiers, and written out. The first failure is
/// the result.
pub open spec fn transformed(
    p: Map<Seq<char>, Seq<char>>,
    now: Moment,
    local: int,
    caps: Capabilities,
) -> Result<Seq<char>, Error> {
    match started(p, now) {
        Err(e) => Err(e),
        Ok(start) => match zoned(p, start, local, caps) {
            Err(e) => Err(e),
            Ok(shown) => match modified(p, shown) {
                Err(e) => Err(e),
                Ok(last) => finalized(p, last, caps),
            },
        },
    }
}

/// The date and time helper. It holds nothing: every invocation stands alone.
#[derive(Clone, Copy, Debug)]
pub struct HandlebarsChronoDateTime;

impl HandlebarsChronoDateTime {
    /// Transforms under given surroundings: nothing but the arguments decides
    /// the result.
    pub fn call_at(
        &self,
        params: &ParameterSet,
        now: Instant,
        local: i32,
        caps: Capabilities,
    ) -> (r: Result<String, Error>)
        ensures
            text_result(r) == transformed(params@, now@, local as int, caps),
    {
        let start = match initialize(params, now) {
            Ok(i) => i,
            Err(e) => {
                return Err(e);
            },
        };
        let shown = match rezone(params, start, local, caps) {
            Ok(i) => i,
            Err(e) => {
                return Err(e);
            },
        };
        let last = match modify(params, shown) {
            Ok(i) => i,
            Err(e) => {
                return Err(e);
            },
        };
        finalize(params, last, caps)
    }

    /// Transforms with everything switched on. The clock is read where no
    /// source of a starting instant is given, the machine's zone where
    /// `with_timezone` is `local`; the result is that of `call_at` under what
    /// they showed. Where neither is asked for, the parameters alone decide.
    pub fn call(&self, params: &ParameterSet) -> (r: Result<String, Error>)
        ensures
            exists|now: Moment, local: int|
                now.valid() && offset_valid(local) && text_result(r) == #[trigger] transformed(
                    params@,
                    now,
                    local,
                    Capabilities { named_zones: true, locales: true },
                ),
            initializer_choice(params@) != InitializerChoice::Clock && zone_choice(params@)
                != ZoneChoice::Local ==> forall|now: Moment, local: int|
                text_result(r) == #[trigger] transformed(
                    params@,
                    now,
                    local,
                    Capabilities { named_zones: true, locales: true },
                ),
    {
        let now = match InitializerChoice::select(params) {
            InitializerChoice::Clock => {
                let (secs, nanos) = calendar::clock_now();
                Instant::at_total((secs as i128) * 1_000_000_000 + nanos as i128, 0)
            },
            _ => Instant::from_timestamp_nanos(0),
        };
        let local = match ZoneChoice::select(params) {
            ZoneChoice::Local => calendar::clock_offset(),
            _ => 0,
        };
        let r = self.call_at(params, now, local, Capabilities::full());
        proof {
            let caps = Capabilities { named_zones: true, locales: true };
            assert forall|other_now: Moment, other_local: int|
                initializer_choice(params@) != InitializerChoice::Clock && zone_choice(params@)
                    != ZoneChoice::Local implies text_result(r) == #[trigger] transformed(
                params@,
                other_now,
                other_local,
                caps,
            ) by {
                lemma_surroundings_unread(params@, caps, now@, local as int, other_now, other_local);
            }
        }
        r
    }
}

} // verus!
