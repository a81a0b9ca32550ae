//! The arithmetic at the heart of the dawn-anchored zone: turning the UTC
//! instant of a dawn event into the fixed offset under which that dawn reads
//! as local midnight.

use vstd::prelude::*;
use vstd::arithmetic::div_mod::{lemma_fundamental_div_mod, lemma_mod_multiples_basic};

verus! {

/// Seconds in one day.
pub const SECS_PER_DAY: i64 = 86400;

/// Earliest reference instant (seconds since the UTC epoch) the resolver
/// accepts. The window lies safely inside the calendar range of the date-time
/// library, leaving headroom for the backward dawn search.
pub const MIN_INSTANT: i64 = -8_000_000_000_000;

/// Latest reference instant (seconds since the UTC epoch) the resolver
/// accepts.
pub const MAX_INSTANT: i64 = 8_000_000_000_000;

/// The time of day, in seconds since UTC midnight, of the instant `t`
/// (seconds since the UTC epoch).
pub open spec fn secs_of_day(t: int) -> int {
    t % 86400
}

/// The offset from UTC, in seconds, anchored to a dawn that occurred at the
/// UTC instant `d`: dawn's time of day, negated, so that the dawn instant
/// itself reads as local 00:00:00.
pub open spec fn dawn_offset(d: int) -> int {
    -secs_of_day(d)
}

/// Seconds since UTC midnight of the instant `t`, as executable code.
pub fn seconds_from_midnight(t: i64) -> (s: i64)
    ensures
        s == secs_of_day(t as int),
        0 <= s < 86400,
{
    let r: i64 = t % 86400;
    if r < 0 {
        r + 86400
    } else {
        r
    }
}

/// The offset from UTC, in seconds, anchored to a dawn at the UTC instant
/// `dawn`.
pub fn offset_for_dawn(dawn: i64) -> (o: i32)
    ensures
        o == dawn_offset(dawn as int),
        -86400 < o <= 0,
{
    let s = seconds_from_midnight(dawn);
    -(s as i32)
}

/// Every dawn-anchored offset has magnitude below one day.
pub proof fn lemma_offset_in_range(d: int)
    ensures
        -86400 < dawn_offset(d) <= 0,
{
}

/// The offset is a pure function of the dawn instant it is anchored to: two
/// resolutions that found the same dawn agree, with no hidden state.
pub proof fn lemma_offset_deterministic(d: int, o1: int, o2: int)
    requires
        o1 == dawn_offset(d),
        o2 == dawn_offset(d),
    ensures
        o1 == o2,
{
}

/// Anchoring: under the offset anchored to a dawn at `d`, the instant `d`
/// itself reads as local 00:00:00.
pub proof fn lemma_dawn_reads_midnight(d: int)
    ensures
        secs_of_day(d + dawn_offset(d)) == 0,
{
    lemma_fundamental_div_mod(d, 86400);
    assert(d + dawn_offset(d) == 86400 * (d / 86400));
    lemma_mod_multiples_basic(d / 86400, 86400);
}

/// The offset changes exactly with dawn's time of day: two dawns yield the
/// same offset if and only if they occur at the same time of the UTC day.
/// Between two crossings of dawn the anchoring dawn's time of day is what
/// governs the offset; two positions whose dawns differ in time of day
/// resolve to different offsets.
pub proof fn lemma_offset_tracks_dawn_time(d1: int, d2: int)
    ensures
        dawn_offset(d1) == dawn_offset(d2) <==> secs_of_day(d1) == secs_of_day(d2),
{
}

} // verus!
