//! The dawn-anchored zone itself: a fixed offset from UTC resolved so that
//! the most recent dawn at a chosen position reads as local midnight.

use vstd::prelude::*;
use core::marker::PhantomData;
use crate::offset::{dawn_offset, offset_for_dawn, secs_of_day, seconds_from_midnight, MAX_INSTANT,
    MIN_INSTANT, SECS_PER_DAY};
use crate::sun::{clock_since_epoch, last_dawn_before, local_offset_for};

verus! {

/// A kind of place on the globe. Implement this to pick the location whose
/// dawn schedule governs the zone; the position is a property of the type,
/// not of any particular value.
pub trait Positioned: Clone {
    fn position() -> circadia::GlobalPosition;
}

/// Result of mapping a local wall-clock stamp, mirroring the three-way
/// outcome of the calendar library's local-time resolution: no valid
/// mapping, a unique one, or two of them (around a fold of the clock).
#[derive(Debug)]
pub enum LocalLookup<T> {
    NotFound,
    Single(T),
    Ambiguous(T, T),
}

/// The dawn-anchored zone for the location `P`: a fixed offset from UTC,
/// in seconds, under which the dawn it was resolved from reads as 00:00:00.
#[derive(Debug)]
pub struct Circadian<P: Positioned> {
    offset_secs: i32,
    _marker: PhantomData<P>,
}

/// An instant paired with the dawn-anchored zone resolved for it.
#[derive(Debug)]
pub struct CircadianTime<P: Positioned> {
    /// The instant, in seconds since the UTC epoch.
    pub utc_secs: i64,
    /// The zone resolved from the most recent dawn before that instant.
    pub zone: Circadian<P>,
}

impl<P: Positioned> Circadian<P> {
    /// The offset from UTC, in seconds east (non-positive: the local day
    /// trails the UTC day by dawn's time of day).
    pub closed spec fn offset(self) -> int {
        self.offset_secs as int
    }

    /// Well-formed: the offset magnitude lies in [0, 86400) seconds.
    pub open spec fn wf(self) -> bool {
        -86400 < self.offset() <= 0
    }

    /// The offset is anchored to some dawn instant at or before `t`.
    pub open spec fn resolved_from(self, t: int) -> bool {
        exists|d: int| d <= t && self.offset() == #[trigger] dawn_offset(d)
    }

    /// The offset is what a resolution would yield after interpreting a
    /// local wall-clock stamp `local` under a provisional offset `o` of
    /// less than one day's magnitude.
    pub open spec fn resolved_via_guess(self, local: int, o: int) -> bool {
        &&& -86400 < o < 86400
        &&& self.resolved_from(local - o)
    }

    /// Resolve the zone anchored to the most recent dawn at `P`'s position
    /// before the reference instant `t` (seconds since the UTC epoch).
    pub fn for_time(t: i64) -> (z: Self)
        requires
            MIN_INSTANT <= t <= MAX_INSTANT,
        ensures
            z.wf(),
            z.resolved_from(t as int),
    {
        let pos = P::position();
        let dawn: i64 = last_dawn_before(t, &pos);
        let o: i32 = offset_for_dawn(dawn);
        let z = Circadian { offset_secs: o, _marker: PhantomData };
        proof {
            assert(z.offset() == dawn_offset(dawn as int));
        }
        z
    }

    /// Resolve the zone for the instant `t` and pair the two: the instant
    /// kept as given, the zone anchored to the most recent dawn before it.
    /// Yields nothing exactly when `t` lies outside the supported calendar
    /// window.
    pub fn resolve_at(t: i64) -> (r: Option<CircadianTime<P>>)
        ensures
            match r {
                Some(zt) => {
                    &&& zt.utc_secs == t
                    &&& MIN_INSTANT <= t <= MAX_INSTANT
                    &&& zt.zone.wf()
                    &&& zt.zone.resolved_from(t as int)
                },
                None => !(MIN_INSTANT <= t <= MAX_INSTANT),
            },
    {
        if MIN_INSTANT <= t && t <= MAX_INSTANT {
            let zone = Self::for_time(t);
            Some(CircadianTime { utc_secs: t, zone })
        } else {
            None
        }
    }

    /// The current instant in the dawn-anchored zone for `P`. Reads the
    /// system clock and hands its reading to `resolve_at`; yields nothing
    /// only if that clock reads an instant outside the supported calendar
    /// window.
    pub fn now() -> (r: Option<CircadianTime<P>>)
        ensures
            match r {
                Some(zt) => {
                    &&& MIN_INSTANT <= zt.utc_secs <= MAX_INSTANT
                    &&& zt.zone.wf()
                    &&& zt.zone.resolved_from(zt.utc_secs as int)
                },
                None => true,
            },
    {
        let (before_epoch, magnitude) = clock_since_epoch();
        if magnitude > (MAX_INSTANT as u64) {
            None
        } else {
            let m: i64 = magnitude as i64;
            let t: i64 = if before_epoch {
                -m
            } else {
                m
            };
            Self::resolve_at(t)
        }
    }

    /// The fixed offset from UTC, in seconds east.
    pub fn fix(&self) -> (o: i32)
        ensures
            o == self.offset(),
    {
        self.offset_secs
    }

    /// A zone carrying the same offset; the offset value is its own zone.
    pub fn from_offset(offset: &Circadian<P>) -> (z: Self)
        ensures
            z.offset() == offset.offset(),
    {
        Circadian { offset_secs: offset.offset_secs, _marker: PhantomData }
    }

    /// A zone with the given offset from UTC in seconds east, accepted
    /// exactly when its magnitude lies in [0, 86400) and it does not run
    /// ahead of UTC — the shape every resolved offset has.
    pub fn from_seconds(secs: i32) -> (r: Option<Self>)
        ensures
            match r {
                Some(z) => z.offset() == secs && z.wf(),
                None => !(-86400 < secs <= 0),
            },
    {
        if -86400 < secs && secs <= 0 {
            Some(Circadian { offset_secs: secs, _marker: PhantomData })
        } else {
            None
        }
    }

    /// The symbolic name of this kind of zone. It identifies the kind, not
    /// the instantaneous offset, which varies with date and location.
    pub fn label(&self) -> (s: &'static str)
        ensures
            s@ == "CRC"@,
    {
        "CRC"
    }

    /// Resolve the zone for a UTC calendar instant (seconds since the
    /// UTC epoch).
    pub fn offset_from_utc_datetime(&self, utc: i64) -> (z: Circadian<P>)
        requires
            MIN_INSTANT <= utc <= MAX_INSTANT,
        ensures
            z.wf(),
            z.resolved_from(utc as int),
    {
        Self::for_time(utc)
    }

    /// Resolve the zone for midnight of a UTC calendar date (days since
    /// the UTC epoch).
    pub fn offset_from_utc_date(&self, day: i64) -> (z: Circadian<P>)
        requires
            MIN_INSTANT <= day * 86400 <= MAX_INSTANT,
        ensures
            z.wf(),
            z.resolved_from(day * 86400),
    {
        let t: i64 = day * SECS_PER_DAY;
        self.offset_from_utc_datetime(t)
    }

    /// Recompute the dawn-anchored offset from a system-zone lookup of the
    /// wall-clock stamp `local`: variant for variant — a missing or twofold
    /// mapping carries through unchanged — with each contained system
    /// offset `o` replaced by the zone resolved from the instant
    /// `local - o`.
    pub fn apply_lookup(local: i64, lk: LocalLookup<i32>) -> (r: LocalLookup<Circadian<P>>)
        requires
            MIN_INSTANT + 86400 <= local <= MAX_INSTANT - 86400,
            match lk {
                LocalLookup::NotFound => true,
                LocalLookup::Single(o) => -86400 < o < 86400,
                LocalLookup::Ambiguous(o1, o2) => -86400 < o1 < 86400 && -86400 < o2 < 86400,
            },
        ensures
            match (lk, r) {
                (LocalLookup::NotFound, LocalLookup::NotFound) => true,
                (LocalLookup::Single(o), LocalLookup::Single(z)) => {
                    z.wf() && z.resolved_from(local - o)
                },
                (LocalLookup::Ambiguous(o1, o2), LocalLookup::Ambiguous(z1, z2)) => {
                    &&& z1.wf() && z1.resolved_from(local - o1)
                    &&& z2.wf() && z2.resolved_from(local - o2)
                },
                _ => false,
            },
            match r {
                LocalLookup::NotFound => true,
                LocalLookup::Single(z) => z.wf() && (exists|o: int|
                    #[trigger] z.resolved_via_guess(local as int, o)),
                LocalLookup::Ambiguous(z1, z2) => {
                    &&& z1.wf() && (exists|o: int| #[trigger] z1.resolved_via_guess(local as int, o))
                    &&& z2.wf() && (exists|o: int| #[trigger] z2.resolved_via_guess(local as int, o))
                },
            },
    {
        match lk {
            LocalLookup::NotFound => LocalLookup::NotFound,
            LocalLookup::Single(o) => {
                let z = Self::for_time(local - (o as i64));
                proof {
                    assert(z.resolved_via_guess(local as int, o as int));
                }
                LocalLookup::Single(z)
            }
            LocalLookup::Ambiguous(o1, o2) => {
                let z1 = Self::for_time(local - (o1 as i64));
                let z2 = Self::for_time(local - (o2 as i64));
                proof {
                    assert(z1.resolved_via_guess(local as int, o1 as int));
                    assert(z2.resolved_via_guess(local as int, o2 as int));
                }
                LocalLookup::Ambiguous(z1, z2)
            }
        }
    }

    /// Resolve the zone for a local wall-clock stamp (seconds since the
    /// epoch of the local calendar). The stamp is first interpreted as UTC
    /// under the system zone's own offset for it — a single provisional
    /// guess, not an iteration — and the dawn-anchored offset is then
    /// recomputed from the resulting instant by `apply_lookup`, which also
    /// carries a missing or twofold system mapping through unchanged.
    pub fn offset_from_local_datetime(&self, local: i64) -> (r: LocalLookup<Circadian<P>>)
        requires
            MIN_INSTANT + 86400 <= local <= MAX_INSTANT - 86400,
        ensures
            match r {
                LocalLookup::NotFound => true,
                LocalLookup::Single(z) => z.wf() && (exists|o: int|
                    #[trigger] z.resolved_via_guess(local as int, o)),
                LocalLookup::Ambiguous(z1, z2) => {
                    &&& z1.wf() && (exists|o: int| #[trigger] z1.resolved_via_guess(local as int, o))
                    &&& z2.wf() && (exists|o: int| #[trigger] z2.resolved_via_guess(local as int, o))
                },
            },
    {
        let lk = local_offset_for(local);
        Self::apply_lookup(local, lk)
    }

    /// Resolve the zone for midnight of a local calendar date (days since
    /// the epoch of the local calendar).
    pub fn offset_from_local_date(&self, day: i64) -> (r: LocalLookup<Circadian<P>>)
        requires
            MIN_INSTANT + 86400 <= day * 86400 <= MAX_INSTANT - 86400,
        ensures
            match r {
                LocalLookup::NotFound => true,
                LocalLookup::Single(z) => z.wf() && (exists|o: int|
                    #[trigger] z.resolved_via_guess(day * 86400, o)),
                LocalLookup::Ambiguous(z1, z2) => {
                    &&& z1.wf() && (exists|o: int| #[trigger] z1.resolved_via_guess(day * 86400, o))
                    &&& z2.wf() && (exists|o: int| #[trigger] z2.resolved_via_guess(day * 86400, o))
                },
            },
    {
        let local: i64 = day * SECS_PER_DAY;
        self.offset_from_local_datetime(local)
    }
}

impl<P: Positioned> CircadianTime<P> {
    /// The instant's local time of day, in seconds since the local
    /// midnight — that is, since the dawn the zone is anchored to.
    pub fn local_seconds_of_day(&self) -> (s: i64)
        requires
            self.zone.wf(),
            i64::MIN <= self.utc_secs + self.zone.offset(),
        ensures
            s == secs_of_day(self.utc_secs + self.zone.offset()),
            0 <= s < 86400,
    {
        let o: i32 = self.zone.fix();
        let local: i64 = self.utc_secs + (o as i64);
        seconds_from_midnight(local)
    }
}

} // verus!
