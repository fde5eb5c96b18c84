//! Wall clock with no network and no RTC chip: the user sets the time on
//! the touchscreen and the ESP32's crystal keeps it (roughly a second a
//! day of drift). Only the time of day matters; the date is fictitious.
//!
//! The time lives in the system clock, which survives crashes and
//! reflashes but not a power cut. The main loop checkpoints it to flash
//! every minute and, after a power-on reset, restores the checkpoint —
//! late by however long the power was out, so the restored time is flagged
//! until the user confirms it.
//!
//! That flag rides in the fictitious date so it survives soft resets too:
//! a user-set clock counts from `BASE_SET`, a restored one from
//! `BASE_RESTORED`, and an untouched system clock starts at the epoch.

use std::time::{Duration, SystemTime, SystemTimeError, UNIX_EPOCH};
use vstd::prelude::*;

verus! {

pub const SECS_PER_DAY: u64 = 86_400;

/// 2000-01-01T00:00:00Z
pub const BASE_RESTORED: u64 = 946_684_800;

/// 2026-01-01T00:00:00Z
pub const BASE_SET: u64 = 1_767_225_600;

#[derive(Debug, Clone, Copy, PartialEq, Eq, Structural)]
pub enum Trust {
    /// Never set since power-on and nothing to restore.
    Unset,
    /// Restored from the flash checkpoint after a power cut.
    Restored,
    /// Set by the user.
    UserSet,
}

/// How far the system clock reading `epoch` (seconds since the Unix
/// epoch) can be trusted.
pub open spec fn trust_of(epoch: int) -> Trust {
    if epoch >= BASE_SET {
        Trust::UserSet
    } else if epoch >= BASE_RESTORED {
        Trust::Restored
    } else {
        Trust::Unset
    }
}

/// The time of day the system clock reading `epoch` stands for, in seconds
/// since midnight, or None while the clock is unset.
pub open spec fn time_of_day(epoch: int) -> Option<u32> {
    if trust_of(epoch) == Trust::Unset {
        None
    } else {
        Some((epoch % (SECS_PER_DAY as int)) as u32)
    }
}

/// The system clock reading that `set` writes for `secs_of_day`.
pub open spec fn setting(secs_of_day: int, restored: bool) -> int {
    (if restored {
        BASE_RESTORED
    } else {
        BASE_SET
    }) + secs_of_day % (SECS_PER_DAY as int)
}

#[verifier::external_type_specification]
#[verifier::external_body]
pub struct ExSystemTime(SystemTime);

#[verifier::external_type_specification]
#[verifier::external_body]
pub struct ExSystemTimeError(SystemTimeError);

/// The system clock's current reading.
///
/// Trusted: calls `SystemTime::now`. The reading depends on the moment of
/// the call, so nothing is stated of it.
#[verifier::external_body]
fn system_now() -> SystemTime {
    SystemTime::now()
}

/// How long after the Unix epoch `t` is; an error when `t` is earlier.
///
/// Trusted: calls `SystemTime::duration_since` with `UNIX_EPOCH`. Both
/// `SystemTime` and `Duration` are opaque here, so nothing is stated of
/// the result.
#[verifier::external_body]
fn since_unix_epoch(t: SystemTime) -> Result<Duration, SystemTimeError> {
    t.duration_since(UNIX_EPOCH)
}

/// The whole seconds of `d`.
///
/// Trusted: calls `Duration::as_secs`. `Duration` is opaque here, so
/// nothing is stated of the result.
#[verifier::external_body]
fn whole_secs(d: Duration) -> u64 {
    d.as_secs()
}

/// Seconds since the Unix epoch on the system clock; 0 when the clock
/// reads earlier than the epoch.
fn epoch_secs() -> u64 {
    match since_unix_epoch(system_now()) {
        Ok(d) => whole_secs(d),
        Err(_) => 0,
    }
}

/// How far the clock reading `epoch` can be trusted.
pub fn trust_at(epoch: u64) -> (r: Trust)
    ensures
        r == trust_of(epoch as int),
{
    if epoch >= BASE_SET {
        Trust::UserSet
    } else if epoch >= BASE_RESTORED {
        Trust::Restored
    } else {
        Trust::Unset
    }
}

/// Seconds since midnight on the clock reading `epoch`, or None while the
/// clock is unset.
pub fn secs_of_day_at(epoch: u64) -> (r: Option<u32>)
    ensures
        r == time_of_day(epoch as int),
{
    if trust_at(epoch) != Trust::Unset {
        Some((epoch % SECS_PER_DAY) as u32)
    } else {
        None
    }
}

/// How far the system clock can be trusted right now: `trust_at` of the
/// clock's reading. The reading depends on the moment of the call, so every
/// value is possible and nothing is stated of the result.
pub fn trust() -> (r: Trust) {
    trust_at(epoch_secs())
}

/// Seconds since midnight from two clock readings taken one after the
/// other: `trust_reading` decides whether the clock is set, `time_reading`
/// gives the time of day.
pub open spec fn time_of_day_from(trust_reading: int, time_reading: int) -> Option<u32> {
    if trust_of(trust_reading) == Trust::Unset {
        None
    } else {
        Some((time_reading % (SECS_PER_DAY as int)) as u32)
    }
}

/// Seconds since midnight, or None while the clock is unset, from a reading
/// that decides whether the clock is set and a reading that gives the time.
pub fn secs_of_day_from(trust_reading: u64, time_reading: u64) -> (r: Option<u32>)
    ensures
        r == time_of_day_from(trust_reading as int, time_reading as int),
{
    if trust_at(trust_reading) != Trust::Unset {
        Some((time_reading % SECS_PER_DAY) as u32)
    } else {
        None
    }
}

/// Seconds since midnight, or None while the clock is unset: the system
/// clock is read once for its trust and once more for the time, and the
/// two readings go to `secs_of_day_from`. The readings depend on the moment
/// of the call, so only that a time is within one day is stated of the
/// result; `secs_of_day_from` states it for given readings.
pub fn secs_of_day() -> (r: Option<u32>)
    ensures
        r matches Some(s) ==> s < SECS_PER_DAY,
{
    let trust_reading = epoch_secs();
    let time_reading = epoch_secs();
    secs_of_day_from(trust_reading, time_reading)
}

/// The system clock reading to write to set the time of day to
/// `secs_of_day`. `restored` marks a checkpoint restore rather than a time
/// the user entered.
pub fn clock_setting(secs_of_day: u32, restored: bool) -> (r: u64)
    ensures
        r == setting(secs_of_day as int, restored),
{
    let base = if restored {
        BASE_RESTORED
    } else {
        BASE_SET
    };
    base + secs_of_day as u64 % SECS_PER_DAY
}

/// After a power-on reset: the checkpoint to restore the clock from, when
/// the clock is unset and there is one. A clock that kept its time across
/// the reset is left alone.
pub fn restore_point(trust: Trust, checkpoint: Option<u32>) -> (r: Option<u32>)
    ensures
        r == (if trust == Trust::Unset {
            checkpoint
        } else {
            None
        }),
{
    match trust {
        Trust::Unset => checkpoint,
        _ => None,
    }
}

/// Setting the clock and reading it back gives the time of day that was
/// set (within one day) and the trust that goes with how it was set.
pub proof fn lemma_set_then_read(secs_of_day: int, restored: bool)
    requires
        0 <= secs_of_day,
    ensures
        trust_of(setting(secs_of_day, restored)) == (if restored {
            Trust::Restored
        } else {
            Trust::UserSet
        }),
        time_of_day(setting(secs_of_day, restored)) == Some(
            (secs_of_day % (SECS_PER_DAY as int)) as u32,
        ),
{
    let d = SECS_PER_DAY as int;
    let base = if restored {
        BASE_RESTORED as int
    } else {
        BASE_SET as int
    };
    let s = secs_of_day % d;
    assert(base % d == 0);
    vstd::arithmetic::div_mod::lemma_mod_bound(secs_of_day, d);
    vstd::arithmetic::div_mod::lemma_add_mod_noop(base, s, d);
    vstd::arithmetic::div_mod::lemma_mod_twice(secs_of_day, d);
}

/// A clock that has never been set reads as unset and shows no time.
pub proof fn lemma_unset_has_no_time(epoch: int)
    requires
        epoch < BASE_RESTORED,
    ensures
        trust_of(epoch) == Trust::Unset,
        time_of_day(epoch) is None,
{
}

/// Two readings of the same moment give what one reading gives.
pub proof fn lemma_one_reading(epoch: int)
    ensures
        time_of_day_from(epoch, epoch) == time_of_day(epoch),
{
}

/// After the clock is set to `secs_of_day`, readings taken at or after
/// that moment read as set, and a reading `elapsed` seconds later gives the
/// time that was set plus the elapsed time, wrapped into the day; read at
/// once, it gives back the time that was set.
pub proof fn lemma_read_after_set(
    secs_of_day: int,
    restored: bool,
    trust_reading: int,
    elapsed: int,
)
    requires
        0 <= secs_of_day,
        0 <= elapsed,
        trust_reading >= setting(secs_of_day, restored),
    ensures
        time_of_day_from(trust_reading, setting(secs_of_day, restored) + elapsed) == Some(
            ((secs_of_day % (SECS_PER_DAY as int) + elapsed) % (SECS_PER_DAY as int)) as u32,
        ),
        time_of_day_from(trust_reading, setting(secs_of_day, restored)) == Some(
            (secs_of_day % (SECS_PER_DAY as int)) as u32,
        ),
{
    let d = SECS_PER_DAY as int;
    let base = if restored {
        BASE_RESTORED as int
    } else {
        BASE_SET as int
    };
    let s = secs_of_day % d;
    vstd::arithmetic::div_mod::lemma_mod_bound(secs_of_day, d);
    assert(base == (base / d) * d);
    vstd::arithmetic::div_mod::lemma_mod_multiples_vanish(base / d, s + elapsed, d);
    vstd::arithmetic::div_mod::lemma_mod_multiples_vanish(base / d, s, d);
    vstd::arithmetic::div_mod::lemma_small_mod(s as nat, d as nat);
}

} // verus!
