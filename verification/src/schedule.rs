//! Daily on/off window plus the manual override. Pure logic, no hardware:
//! the main loop feeds it the time of day and drives the relay from
//! `update()`.
//!
//! The override is a smart-plug style "until the next switch": toggling
//! the lamp by hand forces the opposite of what the schedule wants, and
//! is dropped as soon as the schedule agrees with it again.

use vstd::prelude::*;

verus! {

/// Minutes since midnight, `0..MINUTES_PER_DAY`.
pub type Minutes = u16;

pub const MINUTES_PER_DAY: Minutes = 24 * 60;

/// The time of day `delta` minutes after `time`, wrapped into one day.
pub open spec fn wrapped(time: int, delta: int) -> int {
    (time + delta) % (MINUTES_PER_DAY as int)
}

/// Move a time of day by `delta` minutes, wrapping around midnight.
pub fn wrapping_add(time: Minutes, delta: i32) -> (r: Minutes)
    requires
        i32::MIN <= time + delta <= i32::MAX,
    ensures
        r == wrapped(time as int, delta as int),
        r < MINUTES_PER_DAY,
{
    let sum: i32 = time as i32 + delta;
    let day: i32 = MINUTES_PER_DAY as i32;
    let r: i32 = sum.checked_rem_euclid(day).unwrap();
    r as Minutes
}

/// Moving a time of day forward and then back by the same amount gives
/// back the time of day.
pub proof fn lemma_wrapping_add_undo(time: int, delta: int)
    requires
        0 <= time < MINUTES_PER_DAY,
    ensures
        wrapped(wrapped(time, delta), -delta) == time,
{
    let m = MINUTES_PER_DAY as int;
    vstd::arithmetic::div_mod::lemma_add_mod_noop_right(-delta, time + delta, m);
    vstd::arithmetic::div_mod::lemma_small_mod(time as nat, m as nat);
}

#[derive(Debug, Clone, Copy, PartialEq, Eq, Structural)]
pub struct Schedule {
    /// Lamp switches on at this time...
    pub on: Minutes,
    /// ...and off at this one. 00:00 doubles as "midnight / 24:00".
    pub off: Minutes,
}

impl Schedule {
    /// Whether the daily window covers the time of day `now`.
    pub open spec fn covers(self, now: int) -> bool {
        if self.on <= self.off {
            self.on <= now < self.off
        } else {
            now >= self.on || now < self.off
        }
    }

    /// Whether the window covers `now`. `on > off` spans midnight
    /// (17:00–00:00, 22:00–06:00); `on == off` is an empty window.
    pub fn is_on(&self, now: Minutes) -> (r: bool)
        ensures
            r == self.covers(now as int),
            self.on <= self.off ==> (r <==> (self.on <= now && now < self.off)),
            self.on > self.off ==> (r <==> (now >= self.on || now < self.off)),
    {
        if self.on <= self.off {
            self.on <= now && now < self.off
        } else {
            now >= self.on || now < self.off
        }
    }
}

/// A window within one day (`on <= off`) covers a time exactly when it is
/// at or after the on time and before the off time, minute for minute: the
/// lamp comes on at `on` and goes off at `off`, not a minute either way.
pub proof fn lemma_same_day_window(s: Schedule, now: int)
    requires
        s.on <= s.off,
    ensures
        s.covers(now) <==> (s.on <= now && now < s.off),
        s.on < s.off ==> s.covers(s.on as int) && !s.covers(s.on - 1),
        s.on < s.off ==> s.covers(s.off - 1) && !s.covers(s.off as int),
{
}

/// Moving a time of day lands within the day, on the time `delta` minutes
/// away: the result differs from `time + delta` by whole days.
pub proof fn lemma_wrapped_is_the_moved_time(time: int, delta: int)
    ensures
        0 <= wrapped(time, delta) < MINUTES_PER_DAY,
        (time + delta - wrapped(time, delta)) % (MINUTES_PER_DAY as int) == 0,
        0 <= time + delta < MINUTES_PER_DAY ==> wrapped(time, delta) == time + delta,
{
    let m = MINUTES_PER_DAY as int;
    vstd::arithmetic::div_mod::lemma_fundamental_div_mod(time + delta, m);
    vstd::arithmetic::div_mod::lemma_mod_bound(time + delta, m);
    vstd::arithmetic::div_mod::lemma_mod_multiples_basic((time + delta) / m, m);
    assert(time + delta - wrapped(time, delta) == m * ((time + delta) / m));
    vstd::arithmetic::mul::lemma_mul_is_commutative(m, (time + delta) / m);
    if 0 <= time + delta < m {
        vstd::arithmetic::div_mod::lemma_small_mod((time + delta) as nat, m as nat);
    }
}

/// An empty window (`on == off`) never covers any time of day.
pub proof fn lemma_empty_window(s: Schedule, now: int)
    requires
        s.on == s.off,
    ensures
        !s.covers(now),
{
}

/// A window whose on time is after its off time runs through midnight:
/// it covers every time from `on` to the end of the day and every time
/// from the start of the day up to `off`.
pub proof fn lemma_window_spans_midnight(s: Schedule, now: int)
    requires
        s.on > s.off,
        0 <= now < MINUTES_PER_DAY,
    ensures
        s.covers(now) <==> (s.on <= now || now < s.off),
{
}

/// What the lamp logic holds: the daily window and the manual override.
pub ghost struct LampView {
    pub schedule: Schedule,
    /// The forced lamp state, if any.
    pub manual: Option<bool>,
}

impl LampView {
    /// With no clock there is no schedule to follow.
    pub open spec fn scheduled(self, now: Option<Minutes>) -> bool {
        match now {
            Some(t) => self.schedule.covers(t as int),
            None => false,
        }
    }

    /// Whether the lamp is on: the override if there is one, else the
    /// schedule.
    pub open spec fn lamp_on(self, now: Option<Minutes>) -> bool {
        match self.manual {
            Some(m) => m,
            None => self.scheduled(now),
        }
    }

    /// The state after an update: the override is dropped once the schedule
    /// agrees with it.
    pub open spec fn updated(self, now: Option<Minutes>) -> LampView {
        if self.manual == Some(self.scheduled(now)) {
            LampView { manual: None, ..self }
        } else {
            self
        }
    }

    /// The state after the lamp is flipped by hand: the override holds the
    /// opposite of what the lamp was doing, unless that is what the
    /// schedule wants anyway.
    pub open spec fn toggled(self, now: Option<Minutes>) -> LampView {
        let target = !self.lamp_on(now);
        LampView {
            manual: if target != self.scheduled(now) {
                Some(target)
            } else {
                None
            },
            ..self.updated(now)
        }
    }

    /// An override, when there is one, is the opposite of the schedule.
    pub open spec fn settled(self, now: Option<Minutes>) -> bool {
        self.manual matches Some(m) ==> m != self.scheduled(now)
    }
}

#[derive(Debug)]
pub struct Lamp {
    schedule: Schedule,
    /// Forced lamp state, always the opposite of the schedule's.
    manual: Option<bool>,
}

impl View for Lamp {
    type V = LampView;

    closed spec fn view(&self) -> LampView {
        LampView { schedule: self.schedule, manual: self.manual }
    }
}

impl Lamp {
    pub fn new(schedule: Schedule) -> (r: Self)
        ensures
            r@ == (LampView { schedule, manual: None }),
    {
        Self { schedule, manual: None }
    }

    pub fn schedule(&self) -> (r: Schedule)
        ensures
            r == self@.schedule,
    {
        self.schedule
    }

    /// A new schedule also ends any override.
    pub fn set_schedule(&mut self, schedule: Schedule)
        ensures
            final(self)@ == (LampView { schedule, manual: None }),
    {
        self.schedule = schedule;
        self.manual = None;
    }

    pub fn is_manual(&self) -> (r: bool)
        ensures
            r == self@.manual is Some,
    {
        self.manual.is_some()
    }

    /// With no clock there is no schedule to follow: the lamp stays off
    /// unless switched on by hand.
    fn scheduled(&self, now: Option<Minutes>) -> (r: bool)
        ensures
            r == self@.scheduled(now),
    {
        match now {
            Some(t) => self.schedule.is_on(t),
            None => false,
        }
    }

    /// Whether the lamp should be on right now. Drops the override once
    /// the schedule has caught up with it.
    pub fn update(&mut self, now: Option<Minutes>) -> (r: bool)
        ensures
            r == old(self)@.lamp_on(now),
            final(self)@ == old(self)@.updated(now),
    {
        let scheduled = self.scheduled(now);
        if let Some(m) = self.manual {
            if m == scheduled {
                self.manual = None;
            }
        }
        match self.manual {
            Some(m) => m,
            None => scheduled,
        }
    }

    /// Flip the lamp by hand. Flipping back to what the schedule wants
    /// simply ends the override.
    pub fn toggle(&mut self, now: Option<Minutes>)
        ensures
            final(self)@ == old(self)@.toggled(now),
    {
        let target = !self.update(now);
        let scheduled = self.scheduled(now);
        self.manual = if target != scheduled {
            Some(target)
        } else {
            None
        };
    }
}

/// Toggling flips the lamp: right after a toggle the lamp is in the
/// opposite state from the one it was in.
pub proof fn lemma_toggle_flips(v: LampView, now: Option<Minutes>)
    ensures
        v.toggled(now).lamp_on(now) == !v.lamp_on(now),
{
}

/// An update never changes what the lamp does at that moment, and a second
/// update at the same time changes nothing.
pub proof fn lemma_update_keeps_lamp(v: LampView, now: Option<Minutes>)
    ensures
        v.updated(now).lamp_on(now) == v.lamp_on(now),
        v.updated(now).updated(now) == v.updated(now),
        v.updated(now).schedule == v.schedule,
{
}

/// After an update or a toggle, an override is always the opposite of
/// what the schedule wants.
pub proof fn lemma_override_opposes_schedule(v: LampView, now: Option<Minutes>)
    ensures
        v.updated(now).settled(now),
        v.toggled(now).settled(now),
{
}

/// Toggling twice at the same moment puts the lamp back where it was, with
/// no override unless one was already holding against the schedule.
pub proof fn lemma_toggle_twice(v: LampView, now: Option<Minutes>)
    ensures
        v.toggled(now).toggled(now) == v.updated(now),
        v.toggled(now).toggled(now).lamp_on(now) == v.lamp_on(now),
{
}

/// The override is dropped as soon as the schedule catches up with it.
pub proof fn lemma_schedule_catches_up(v: LampView, now: Option<Minutes>)
    requires
        v.manual == Some(v.scheduled(now)),
    ensures
        v.updated(now).manual is None,
        v.updated(now).lamp_on(now) == v.scheduled(now),
{
}

/// Until the schedule agrees with it, the override holds: the lamp keeps
/// the forced state, like a smart plug's "until the next switch".
pub proof fn lemma_override_holds(v: LampView, now: Option<Minutes>, m: bool)
    requires
        v.manual == Some(m),
        m != v.scheduled(now),
    ensures
        v.updated(now) == v,
        v.lamp_on(now) == m,
{
}

/// With no clock the lamp stays off unless switched on by hand.
pub proof fn lemma_no_clock_stays_off(v: LampView)
    requires
        v.manual != Some(true),
    ensures
        !v.lamp_on(None),
{
}

/// Without an override the lamp follows the schedule.
pub proof fn lemma_follows_schedule(v: LampView, now: Option<Minutes>)
    requires
        v.manual is None,
    ensures
        v.lamp_on(now) == v.scheduled(now),
{
}

} // verus!
