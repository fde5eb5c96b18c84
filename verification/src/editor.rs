//! Time-entry flow behind the SET CLOCK and SCHEDULE buttons. Pure logic:
//! the main loop feeds it button presses and acts on the result of CONFIRM.
//!
//! The schedule is entered as two steps on the same screen:
//! LampOn --NEXT--> LampOff --SAVE--> done.

use vstd::prelude::*;

use crate::schedule::{wrapped, wrapping_add, Minutes, MINUTES_PER_DAY};

verus! {

#[derive(Debug, Clone, Copy, PartialEq, Eq, Structural)]
pub enum Editor {
    Clock(Minutes),
    LampOn(Minutes),
    LampOff { on: Minutes, off: Minutes },
}

impl Editor {
    /// The time being edited.
    pub open spec fn edited(self) -> Minutes {
        match self {
            Editor::Clock(t) => t,
            Editor::LampOn(t) => t,
            Editor::LampOff { off, .. } => off,
        }
    }

    /// The same step with the edited time replaced by `t`.
    pub open spec fn with_edited(self, t: Minutes) -> Editor {
        match self {
            Editor::Clock(_) => Editor::Clock(t),
            Editor::LampOn(_) => Editor::LampOn(t),
            Editor::LampOff { on, .. } => Editor::LampOff { on, off: t },
        }
    }

    /// How far one MIN press moves the time: the clock moves a minute at a
    /// time, schedule times move in 5s.
    pub open spec fn minute_step(self) -> int {
        match self {
            Editor::Clock(_) => 1,
            _ => 5,
        }
    }

    /// The time being edited.
    pub fn value(&self) -> (r: Minutes)
        ensures
            r == self.edited(),
    {
        match *self {
            Editor::Clock(t) | Editor::LampOn(t) | Editor::LampOff { off: t, .. } => t,
        }
    }

    fn value_mut(&mut self) -> (r: &mut Minutes)
        ensures
            *r == old(self).edited(),
            *final(self) == old(self).with_edited(*final(r)),
    {
        match self {
            Editor::Clock(t) => t,
            Editor::LampOn(t) => t,
            Editor::LampOff { off: t, .. } => t,
        }
    }

    /// Move the edited time by whole hours, wrapping around midnight.
    pub fn adjust_hours(&mut self, hours: i32)
        requires
            i32::MIN <= hours * 60 <= i32::MAX,
            i32::MIN <= old(self).edited() + hours * 60 <= i32::MAX,
        ensures
            *final(self) == old(self).with_edited(
                wrapped(old(self).edited() as int, hours * 60) as Minutes,
            ),
    {
        let t = self.value_mut();
        *t = wrapping_add(*t, hours * 60);
    }

    /// The clock moves a minute at a time; schedule times move in 5s,
    /// which is plenty for a lamp and far fewer taps.
    pub fn adjust_minutes(&mut self, direction: i32)
        requires
            i32::MIN <= direction * old(self).minute_step() <= i32::MAX,
            i32::MIN <= old(self).edited() + direction * old(self).minute_step() <= i32::MAX,
        ensures
            *final(self) == old(self).with_edited(
                wrapped(
                    old(self).edited() as int,
                    direction * old(self).minute_step(),
                ) as Minutes,
            ),
    {
        let step: i32 = match self {
            Editor::Clock(_) => 1,
            Editor::LampOn(_) | Editor::LampOff { .. } => 5,
        };
        let t = self.value_mut();
        *t = wrapping_add(*t, direction * step);
    }
}

/// An adjustment always leaves a valid time of day and keeps the step.
pub proof fn lemma_adjust_stays_in_day(e: Editor, delta: int)
    ensures
        0 <= wrapped(e.edited() as int, delta) < MINUTES_PER_DAY,
        e.with_edited(wrapped(e.edited() as int, delta) as Minutes).minute_step()
            == e.minute_step(),
{
}

/// HOUR + followed by HOUR - (or MIN + followed by MIN -) gives back the
/// time that was being edited, when it was a valid time of day.
pub proof fn lemma_adjust_undo(e: Editor, delta: int)
    requires
        e.edited() < MINUTES_PER_DAY,
    ensures
        ({
            let moved = e.with_edited(wrapped(e.edited() as int, delta) as Minutes);
            moved.with_edited(wrapped(moved.edited() as int, -delta) as Minutes) == e
        }),
{
    crate::schedule::lemma_wrapping_add_undo(e.edited() as int, delta);
}

} // verus!
