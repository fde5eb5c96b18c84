//! Countdown state machine. Pure logic, no hardware: the main loop feeds
//! it button presses and the clock, and drives the relay from
//! `is_running()`.
//!
//! Idle holds the seconds that START would run for (also where STOP parks
//! the remaining time, so STOP/START is pause/resume). Running holds the
//! wall-clock deadline so the countdown does not drift with loop timing.

use vstd::prelude::*;

verus! {

/// Largest settable countdown: 9:59:59 fits the display's H:MM:SS.
pub const MAX_SECS: u64 = 9 * 3600 + 59 * 60 + 59;

pub const NANOS_PER_SEC: u64 = 1_000_000_000;

/// A point on a monotonic clock, in nanoseconds from an arbitrary origin.
#[derive(Debug, Clone, Copy, PartialEq, Eq, Structural)]
pub struct Instant {
    nanos: u64,
}

impl Instant {
    pub closed spec fn spec_nanos(self) -> int {
        self.nanos as int
    }

    pub fn from_nanos(nanos: u64) -> (r: Self)
        ensures
            r.spec_nanos() == nanos,
    {
        Instant { nanos }
    }

    pub fn as_nanos(&self) -> (r: u64)
        ensures
            r == self.spec_nanos(),
    {
        self.nanos
    }
}

/// Whole seconds in `nanos`, rounded up.
pub open spec fn ceil_secs(nanos: int) -> int {
    (nanos + NANOS_PER_SEC - 1) / (NANOS_PER_SEC as int)
}

#[derive(Debug, Clone, Copy, PartialEq, Eq, Structural)]
pub enum Phase {
    /// Lamp off, time can be edited. `secs` is what START will run.
    Idle,
    /// Lamp on, counting down.
    Running,
    /// Lamp off, countdown reached zero. Any button returns to Idle.
    Done,
}

/// What the countdown holds.
pub ghost struct TimerView {
    pub phase: Phase,
    /// Idle/Done: seconds to run. Running: unused.
    pub secs: int,
    /// Running: when the lamp switches off, in nanoseconds.
    pub ends_at: int,
    /// Last value STARTed, restored after Done.
    pub last_started: int,
}

impl TimerView {
    /// A finished countdown holds the last time started, so one START runs
    /// it again.
    pub open spec fn done_holds_last(self) -> bool {
        self.phase == Phase::Done ==> self.secs == self.last_started
    }

    /// Seconds left at `now`: the set time while idle, nothing once done,
    /// and while running the time to the deadline rounded up to a second.
    pub open spec fn remaining(self, now: int) -> int {
        match self.phase {
            Phase::Idle => self.secs,
            Phase::Done => 0,
            Phase::Running => if self.ends_at > now {
                ceil_secs(self.ends_at - now)
            } else {
                0
            },
        }
    }

    /// Whether a tick at `now` expires the countdown.
    pub open spec fn expires(self, now: int) -> bool {
        self.phase == Phase::Running && now >= self.ends_at
    }

    pub open spec fn ticked(self, now: int) -> TimerView {
        if self.expires(now) {
            TimerView { phase: Phase::Done, secs: self.last_started, ..self }
        } else {
            self
        }
    }

    pub open spec fn added(self, secs: int, now: int) -> TimerView {
        match self.phase {
            Phase::Running => {
                let total = min(self.remaining(now) + secs, MAX_SECS as int);
                TimerView { ends_at: now + total * NANOS_PER_SEC, ..self }
            },
            _ => TimerView {
                phase: Phase::Idle,
                secs: min(self.secs + secs, MAX_SECS as int),
                ..self
            },
        }
    }

    pub open spec fn cleared(self) -> TimerView {
        TimerView { phase: Phase::Idle, secs: 0, ..self }
    }

    pub open spec fn toggled(self, now: int) -> TimerView {
        match self.phase {
            Phase::Running => TimerView { phase: Phase::Idle, secs: self.remaining(now), ..self },
            _ => if self.secs > 0 {
                TimerView {
                    phase: Phase::Running,
                    last_started: self.secs,
                    ends_at: now + self.secs * NANOS_PER_SEC,
                    ..self
                }
            } else {
                self
            },
        }
    }

    /// Whether adding `secs` at `now` stays within the machine's integers.
    pub open spec fn can_add(self, secs: int, now: int) -> bool {
        match self.phase {
            Phase::Running => {
                &&& self.remaining(now) + secs <= u64::MAX
                &&& now + min(self.remaining(now) + secs, MAX_SECS as int) * NANOS_PER_SEC
                    <= u64::MAX
            },
            _ => self.secs + secs <= u64::MAX,
        }
    }

    /// Whether a START at `now` has a deadline the clock can hold.
    pub open spec fn can_toggle(self, now: int) -> bool {
        self.phase != Phase::Running && self.secs > 0 ==> now + self.secs * NANOS_PER_SEC
            <= u64::MAX
    }
}

pub open spec fn min(a: int, b: int) -> int {
    if a <= b {
        a
    } else {
        b
    }
}

#[derive(Debug)]
pub struct Timer {
    phase: Phase,
    /// Idle/Done: seconds to run. Running: unused.
    secs: u64,
    /// Running: when the lamp switches off.
    ends_at: Instant,
    /// Last value STARTed, restored after Done so re-running is one tap.
    last_started: u64,
}

impl View for Timer {
    type V = TimerView;

    closed spec fn view(&self) -> TimerView {
        TimerView {
            phase: self.phase,
            secs: self.secs as int,
            ends_at: self.ends_at.spec_nanos(),
            last_started: self.last_started as int,
        }
    }
}

impl Timer {
    #[verifier::type_invariant]
    spec fn finished_holds_last(self) -> bool {
        self.phase == Phase::Done ==> self.secs == self.last_started
    }

    /// An idle countdown of `initial_secs`, capped at `MAX_SECS`. The
    /// deadline is only read while running, so it starts at the origin.
    pub fn new(initial_secs: u64) -> (r: Self)
        ensures
            r@.phase == Phase::Idle,
            r@.secs == min(initial_secs as int, MAX_SECS as int),
            r@.last_started == min(initial_secs as int, MAX_SECS as int),
            r@.done_holds_last(),
    {
        let secs = if initial_secs < MAX_SECS {
            initial_secs
        } else {
            MAX_SECS
        };
        Self { phase: Phase::Idle, secs, ends_at: Instant { nanos: 0 }, last_started: secs }
    }

    pub fn phase(&self) -> (r: Phase)
        ensures
            r == self@.phase,
    {
        self.phase
    }

    pub fn is_running(&self) -> (r: bool)
        ensures
            r == (self@.phase == Phase::Running),
    {
        self.phase == Phase::Running
    }

    /// Seconds left (rounded up while running, so the display never shows
    /// 0:00 with the lamp still on).
    pub fn remaining(&self, now: Instant) -> (r: u64)
        ensures
            r == self@.remaining(now.spec_nanos()),
            self@.done_holds_last(),
    {
        proof {
            use_type_invariant(self);
        }
        match self.phase {
            Phase::Idle => self.secs,
            Phase::Done => 0,
            Phase::Running => {
                let left: u64 = if self.ends_at.nanos > now.nanos {
                    self.ends_at.nanos - now.nanos
                } else {
                    0
                };
                let whole: u64 = left / NANOS_PER_SEC;
                let part: u64 = left % NANOS_PER_SEC;
                let r: u64 = whole + if part > 0 {
                    1u64
                } else {
                    0u64
                };
                proof {
                    lemma_ceil_secs(left as int);
                }
                r
            },
        }
    }

    /// Advance the clock. Returns true on the tick that expires the
    /// countdown — the caller must switch the relay off.
    pub fn tick(&mut self, now: Instant) -> (r: bool)
        ensures
            r == old(self)@.expires(now.spec_nanos()),
            final(self)@ == old(self)@.ticked(now.spec_nanos()),
            final(self)@.done_holds_last(),
    {
        proof {
            use_type_invariant(&*self);
        }
        if self.phase == Phase::Running && now.nanos >= self.ends_at.nanos {
            self.secs = self.last_started;
            self.phase = Phase::Done;
            return true;
        }
        false
    }

    /// Add time. While running this extends the deadline in place.
    pub fn add(&mut self, secs: u64, now: Instant)
        requires
            old(self)@.can_add(secs as int, now.spec_nanos()),
        ensures
            final(self)@ == old(self)@.added(secs as int, now.spec_nanos()),
            final(self)@.done_holds_last(),
    {
        proof {
            use_type_invariant(&*self);
        }
        match self.phase {
            Phase::Running => {
                let left = self.remaining(now);
                let sum = left + secs;
                let total = if sum < MAX_SECS {
                    sum
                } else {
                    MAX_SECS
                };
                self.ends_at = Instant { nanos: now.nanos + total * NANOS_PER_SEC };
            },
            Phase::Idle | Phase::Done => {
                self.phase = Phase::Idle;
                let sum = self.secs + secs;
                self.secs = if sum < MAX_SECS {
                    sum
                } else {
                    MAX_SECS
                };
            },
        }
    }

    /// Zero the countdown. Stops the lamp if it was running.
    pub fn clear(&mut self)
        ensures
            final(self)@ == old(self)@.cleared(),
            final(self)@.done_holds_last(),
    {
        proof {
            use_type_invariant(&*self);
        }
        self.phase = Phase::Idle;
        self.secs = 0;
    }

    /// START when idle/done (no-op with nothing set), STOP (pause) when
    /// running. The caller drives the relay from `is_running()`.
    pub fn toggle(&mut self, now: Instant)
        requires
            old(self)@.can_toggle(now.spec_nanos()),
        ensures
            final(self)@ == old(self)@.toggled(now.spec_nanos()),
            final(self)@.done_holds_last(),
    {
        proof {
            use_type_invariant(&*self);
        }
        match self.phase {
            Phase::Running => {
                self.secs = self.remaining(now);
                self.phase = Phase::Idle;
            },
            Phase::Idle | Phase::Done => {
                if self.secs > 0 {
                    self.last_started = self.secs;
                    self.ends_at = Instant { nanos: now.nanos + self.secs * NANOS_PER_SEC };
                    self.phase = Phase::Running;
                }
            },
        }
    }
}

/// Rounding up to whole seconds: the quotient plus one if a partial second
/// is left, and never more than the nanoseconds allow.
proof fn lemma_ceil_secs(nanos: int)
    requires
        0 <= nanos,
    ensures
        ceil_secs(nanos) == nanos / (NANOS_PER_SEC as int) + if nanos % (NANOS_PER_SEC as int) > 0 {
            1int
        } else {
            0int
        },
        nanos <= ceil_secs(nanos) * NANOS_PER_SEC < nanos + NANOS_PER_SEC,
{
    let n = NANOS_PER_SEC as int;
    vstd::arithmetic::div_mod::lemma_fundamental_div_mod(nanos, n);
    vstd::arithmetic::div_mod::lemma_fundamental_div_mod(nanos + n - 1, n);
    vstd::arithmetic::div_mod::lemma_mod_bound(nanos, n);
    vstd::arithmetic::div_mod::lemma_mod_bound(nanos + n - 1, n);
    let q = nanos / n;
    let r = nanos % n;
    if r > 0 {
        assert((q + 1) * n == q * n + n) by (nonlinear_arith);
        vstd::arithmetic::div_mod::lemma_fundamental_div_mod_converse(nanos + n - 1, n, q + 1, r - 1);
    } else {
        vstd::arithmetic::div_mod::lemma_fundamental_div_mod_converse(nanos + n - 1, n, q, n - 1);
    }
}

/// While the countdown runs and has not expired, at least one second is
/// shown: the display never reads 0:00 with the lamp still on.
pub proof fn lemma_running_shows_time(t: TimerView, now: int)
    requires
        t.phase == Phase::Running,
        now < t.ends_at,
    ensures
        t.remaining(now) >= 1,
{
    lemma_ceil_secs(t.ends_at - now);
}

/// STOP then START at the same moment is a pause and resume: the time
/// left is what it was.
pub proof fn lemma_pause_resume(t: TimerView, now: int)
    requires
        t.phase == Phase::Running,
    ensures
        t.toggled(now).toggled(now).remaining(now) == t.remaining(now),
{
    if t.ends_at > now {
        lemma_ceil_secs(t.ends_at - now);
        let r = t.remaining(now);
        let n = NANOS_PER_SEC as int;
        assert(r * n > 0) by (nonlinear_arith)
            requires
                r >= 1,
                n > 0,
        ;
        lemma_exact_secs(r);
    }
}

/// A whole number of seconds rounds up to itself.
proof fn lemma_exact_secs(s: int)
    requires
        s >= 0,
    ensures
        ceil_secs(s * NANOS_PER_SEC) == s,
{
    let n = NANOS_PER_SEC as int;
    vstd::arithmetic::div_mod::lemma_fundamental_div_mod_converse(s * n + n - 1, n, s, n - 1);
}

/// A countdown that ran out holds the last started time again, so one
/// START runs it once more in full.
pub proof fn lemma_rerun_after_done(t: TimerView, s: int, start: int, end: int, again: int)
    requires
        t.phase != Phase::Running,
        t.secs == s,
        s > 0,
        end >= start + s * NANOS_PER_SEC,
    ensures
        t.toggled(start).ticked(end).phase == Phase::Done,
        t.toggled(start).ticked(end).toggled(again).phase == Phase::Running,
        t.toggled(start).ticked(end).toggled(again).remaining(again) == s,
{
    let n = NANOS_PER_SEC as int;
    assert(s * n > 0) by (nonlinear_arith)
        requires
            s >= 1,
            n > 0,
    ;
    lemma_exact_secs(s);
}

/// Adding time never sets more than `MAX_SECS`, whatever the phase.
pub proof fn lemma_add_capped(t: TimerView, secs: int, now: int)
    requires
        0 <= t.secs,
        0 <= secs,
    ensures
        t.added(secs, now).remaining(now) <= MAX_SECS,
{
    if t.phase == Phase::Running {
        if t.ends_at > now {
            lemma_ceil_secs(t.ends_at - now);
        }
        let total = min(t.remaining(now) + secs, MAX_SECS as int);
        if total > 0 {
            let n = NANOS_PER_SEC as int;
            assert(total * n > 0) by (nonlinear_arith)
                requires
                    total >= 1,
                    n > 0,
            ;
            lemma_exact_secs(total);
        }
    }
}

/// CLEAR stops the lamp and leaves nothing to run.
pub proof fn lemma_clear_stops(t: TimerView, now: int)
    ensures
        t.cleared().phase == Phase::Idle,
        t.cleared().remaining(now) == 0,
{
}

/// Adding time to a finished countdown starts from the last time run: it
/// returns to idle holding that time plus what was added, capped.
pub proof fn lemma_add_after_done(t: TimerView, secs: int, now: int)
    requires
        t.phase == Phase::Done,
        t.done_holds_last(),
    ensures
        t.added(secs, now).phase == Phase::Idle,
        t.added(secs, now).remaining(now) == min(t.last_started + secs, MAX_SECS as int),
{
}

/// A deadline is never set more than `MAX_SECS` ahead of the moment it is
/// set: neither by START from a time within the cap, nor by adding time
/// while running.
pub proof fn lemma_deadline_within_cap(t: TimerView, secs: int, now: int)
    requires
        0 <= secs,
    ensures
        t.phase == Phase::Running ==> t.added(secs, now).ends_at <= now + MAX_SECS * NANOS_PER_SEC,
        t.phase != Phase::Running && 0 < t.secs <= MAX_SECS ==> t.toggled(now).ends_at <= now
            + MAX_SECS * NANOS_PER_SEC,
{
    let n = NANOS_PER_SEC as int;
    if t.phase == Phase::Running {
        let total = min(t.remaining(now) + secs, MAX_SECS as int);
        assert(total * n <= MAX_SECS * n) by (nonlinear_arith)
            requires
                total <= MAX_SECS,
                n > 0,
        ;
    } else if 0 < t.secs <= MAX_SECS {
        assert(t.secs * n <= MAX_SECS * n) by (nonlinear_arith)
            requires
                t.secs <= MAX_SECS,
                n > 0,
        ;
    }
}

/// STOP parks at most `MAX_SECS` whenever the deadline is within the cap of
/// the moment of the STOP, which holds on a clock that never runs backwards
/// (the deadline was set within the cap of an earlier moment).
pub proof fn lemma_stop_within_cap(t: TimerView, now: int)
    requires
        t.phase == Phase::Running,
        t.ends_at <= now + MAX_SECS * NANOS_PER_SEC,
    ensures
        t.toggled(now).secs <= MAX_SECS,
{
    if t.ends_at > now {
        let left = t.ends_at - now;
        let n = NANOS_PER_SEC as int;
        vstd::arithmetic::div_mod::lemma_div_is_ordered(left + n - 1, MAX_SECS * n + n - 1, n);
        vstd::arithmetic::div_mod::lemma_fundamental_div_mod_converse(
            MAX_SECS * n + n - 1,
            n,
            MAX_SECS as int,
            n - 1,
        );
    }
}

} // verus!
