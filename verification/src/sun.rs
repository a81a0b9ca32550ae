//! The trusted boundary: the astronomical dawn calculator, the system clock,
//! and the system time zone. Each item here wraps one outside call; its
//! contract states only what the outside source shows of every outcome.

use vstd::prelude::*;
use chrono::TimeZone;
use crate::offset::{MIN_INSTANT, MAX_INSTANT};
use crate::zone::LocalLookup;

verus! {

/// A geographic position (latitude/longitude), as the astronomical
/// calculator represents it. Opaque here: the resolver only passes it
/// through to the dawn search.
#[verifier::external_type_specification]
#[verifier::external_body]
pub struct ExGlobalPosition(circadia::GlobalPosition);

/// Relies on `circadia::SunEvents::history`: walking backward day by day
/// from the start instant, it yields the most recent dawn event strictly
/// before that instant. At positions where dawn never occurs (inside the
/// polar circles in some seasons) the backward search does not return;
/// the surrounding design leaves that case unspecified.
#[verifier::external_body]
pub(crate) fn last_dawn_before(t: i64, pos: &circadia::GlobalPosition) -> (d: i64)
    requires
        MIN_INSTANT <= t <= MAX_INSTANT,
    ensures
        d < t,
{
    let start = chrono::DateTime::from_timestamp(t, 0).unwrap();
    let events = [circadia::SunEvent::DAWN];
    let mut history = circadia::SunEvents::starting_from(start, pos.clone(), &events).history();
    let (_event, dawn) = history.next().unwrap();
    dawn.timestamp()
}

/// Relies on `std::time::SystemTime::now` and `duration_since`: the whole
/// seconds between the UTC epoch and the system clock's reading, with the
/// flag set exactly when the clock reads before the epoch (the error arm of
/// `duration_since` carries that distance). Nothing is promised of the
/// value; unlike the calendar library's own clock reading, neither arm
/// panics.
#[verifier::external_body]
pub(crate) fn clock_since_epoch() -> (bool, u64) {
    match std::time::SystemTime::now().duration_since(std::time::UNIX_EPOCH) {
        Ok(d) => (false, d.as_secs()),
        Err(e) => (true, e.duration().as_secs()),
    }
}

/// Relies on `chrono::Local::offset_from_local_datetime`: maps a local
/// wall-clock stamp (taken here as seconds since the epoch of the local
/// calendar) to the system zone's offset from UTC, which may be missing or
/// twofold around clock changes. Each returned offset is the seconds field
/// of a `chrono::FixedOffset`, which that type keeps strictly within one
/// day of zero.
#[verifier::external_body]
pub(crate) fn local_offset_for(naive: i64) -> (r: LocalLookup<i32>)
    requires
        MIN_INSTANT <= naive <= MAX_INSTANT,
    ensures
        match r {
            LocalLookup::NotFound => true,
            LocalLookup::Single(o) => -86400 < o < 86400,
            LocalLookup::Ambiguous(o1, o2) => -86400 < o1 < 86400 && -86400 < o2 < 86400,
        },
{
    let stamp = chrono::DateTime::from_timestamp(naive, 0).unwrap().naive_utc();
    match chrono::Local.offset_from_local_datetime(&stamp) {
        chrono::LocalResult::Single(o) => LocalLookup::Single(o.local_minus_utc()),
        chrono::LocalResult::Ambiguous(o1, o2) => {
            LocalLookup::Ambiguous(o1.local_minus_utc(), o2.local_minus_utc())
        }
        chrono::LocalResult::None => LocalLookup::NotFound,
    }
}

} // verus!
