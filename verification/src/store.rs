//! Settings that outlive a power cut: the schedule, and a once-a-minute
//! checkpoint of the clock. The flash store itself is driven by the
//! application; these functions decide what a value read back from it is
//! worth. A read that failed or found nothing arrives as `None`, and a
//! value out of range (a corrupted or foreign entry) is treated the same.

use vstd::prelude::*;

use crate::clock::SECS_PER_DAY;
use crate::schedule::{Minutes, Schedule, MINUTES_PER_DAY};

verus! {

/// A stored time of day, when there is one and it is in range.
pub open spec fn valid_minutes(raw: Option<u16>) -> Option<Minutes> {
    match raw {
        Some(v) => if v < MINUTES_PER_DAY {
            Some(v)
        } else {
            None
        },
        None => None,
    }
}

/// The schedule stored as the entries `on` and `off`.
pub open spec fn stored_schedule(on: Option<u16>, off: Option<u16>) -> Option<Schedule> {
    match (valid_minutes(on), valid_minutes(off)) {
        (Some(on), Some(off)) => Some(Schedule { on, off }),
        _ => None,
    }
}

/// The clock checkpoint stored as the entry `raw`.
pub open spec fn stored_clock(raw: Option<u32>) -> Option<u32> {
    match raw {
        Some(secs) => if secs < SECS_PER_DAY {
            Some(secs)
        } else {
            None
        },
        None => None,
    }
}

/// The time of day read back from a stored entry.
pub fn minutes_from(raw: Option<u16>) -> (r: Option<Minutes>)
    ensures
        r == valid_minutes(raw),
{
    match raw {
        Some(v) => if v < MINUTES_PER_DAY {
            Some(v)
        } else {
            None
        },
        None => None,
    }
}

/// The schedule read back from its two stored entries: both must be valid
/// times of day.
pub fn schedule_from(on: Option<u16>, off: Option<u16>) -> (r: Option<Schedule>)
    ensures
        r == stored_schedule(on, off),
{
    let on = minutes_from(on)?;
    let off = minutes_from(off)?;
    Some(Schedule { on, off })
}

/// The last checkpointed time of day, in seconds since midnight, read back
/// from its stored entry.
pub fn clock_from(raw: Option<u32>) -> (r: Option<u32>)
    ensures
        r == stored_clock(raw),
{
    match raw {
        Some(secs) => if (secs as u64) < SECS_PER_DAY {
            Some(secs)
        } else {
            None
        },
        None => None,
    }
}

/// A saved schedule of valid times of day is read back unchanged, and so
/// is a clock checkpoint within one day.
pub proof fn lemma_read_back_what_was_saved(s: Schedule, secs: u32)
    requires
        s.on < MINUTES_PER_DAY,
        s.off < MINUTES_PER_DAY,
        secs < SECS_PER_DAY,
    ensures
        stored_schedule(Some(s.on), Some(s.off)) == Some(s),
        stored_clock(Some(secs)) == Some(secs),
{
}

/// Nothing stored, or an entry out of range, reads back as nothing.
pub proof fn lemma_missing_or_invalid_reads_nothing(on: Option<u16>, off: Option<u16>)
    requires
        valid_minutes(on) is None || valid_minutes(off) is None,
    ensures
        stored_schedule(on, off) is None,
{
}

/// A stored time of day is taken exactly when it lies within the day, and
/// then as it was stored; a clock checkpoint likewise.
pub proof fn lemma_only_times_within_the_day(v: u16, secs: u32)
    ensures
        valid_minutes(Some(v)) is Some <==> v < 24 * 60,
        valid_minutes(Some(v)) matches Some(m) ==> m == v,
        stored_clock(Some(secs)) is Some <==> secs < 86_400,
        stored_clock(Some(secs)) matches Some(s) ==> s == secs,
{
}

} // verus!
