//! The decisions of the main loop, apart from the hardware it drives: what
//! a button press does to the editor and the lamp, how touch samples turn
//! into presses (one tap fires once, held +/- buttons repeat), and when the
//! clock is checkpointed.

use vstd::prelude::*;

use crate::clock::{secs_of_day, setting, time_of_day, trust_of, Trust};
use crate::display::MainView;
use crate::editor::Editor;
use crate::relay::{drive, Relay};
use crate::schedule::{wrapped, Lamp, LampView, Minutes, Schedule};
use crate::timer::Instant;

verus! {

/// SET CLOCK opens here when there is no time to start from.
pub const DEFAULT_CLOCK: Minutes = 12 * 60;

/// Holding an editor +/- button repeats it after this long (nanoseconds)...
pub const REPEAT_DELAY_NANOS: u64 = 500_000_000;

/// ...at this pace (each repeat also pays for a redraw).
pub const REPEAT_INTERVAL_NANOS: u64 = 100_000_000;

/// Consecutive empty polls that end a press, so one noisy sample in the
/// middle of a touch does not register as a second tap.
pub const RELEASE_POLLS: u8 = 2;

/// The buttons of the lamp screens: the main screen's SET CLOCK, SCHEDULE
/// and TURN LAMP ON/OFF, and the editor's HOUR -/+, MIN -/+, CANCEL and
/// SAVE/NEXT.
#[derive(Debug, Clone, Copy, PartialEq, Eq, Structural)]
pub enum Control {
    SetClock,
    SetSchedule,
    LampToggle,
    HourDown,
    HourUp,
    MinuteDown,
    MinuteUp,
    Cancel,
    Confirm,
}

impl Control {
    /// The editor's +/- buttons repeat while held.
    pub open spec fn spec_repeats(self) -> bool {
        match self {
            Control::HourDown | Control::HourUp | Control::MinuteDown | Control::MinuteUp => true,
            _ => false,
        }
    }

    pub fn repeats(self) -> (r: bool)
        ensures
            r == self.spec_repeats(),
            r <==> (self == Control::HourDown || self == Control::HourUp || self
                == Control::MinuteDown || self == Control::MinuteUp),
    {
        match self {
            Control::HourDown | Control::HourUp | Control::MinuteDown | Control::MinuteUp => true,
            _ => false,
        }
    }
}

/// What the main loop must do outside the lamp logic after a press.
#[derive(Debug, Clone, Copy, PartialEq, Eq, Structural)]
pub enum Effect {
    Nothing,
    /// Set the clock to this many seconds since midnight, as entered by the
    /// user.
    SetClock(u32),
    /// Save this schedule to flash.
    SaveSchedule(Schedule),
}

/// The editor step after an adjustment by `delta` minutes.
pub open spec fn adjusted(e: Editor, delta: int) -> Editor {
    e.with_edited(wrapped(e.edited() as int, delta) as Minutes)
}

/// What a press of `button` leads to: the next editor (None for the main
/// screen), the effect to carry out, and the lamp logic afterwards.
pub open spec fn pressed(
    editor: Option<Editor>,
    button: Control,
    lamp: LampView,
    now: Option<Minutes>,
) -> (Option<Editor>, Effect, LampView) {
    match editor {
        None => match button {
            Control::SetClock => (
                Some(
                    Editor::Clock(
                        match now {
                            Some(t) => t,
                            None => DEFAULT_CLOCK,
                        },
                    ),
                ),
                Effect::Nothing,
                lamp,
            ),
            Control::SetSchedule => (Some(Editor::LampOn(lamp.schedule.on)), Effect::Nothing, lamp),
            Control::LampToggle => (None, Effect::Nothing, lamp.toggled(now)),
            _ => (None, Effect::Nothing, lamp),
        },
        Some(e) => match button {
            Control::HourDown => (Some(adjusted(e, -60)), Effect::Nothing, lamp),
            Control::HourUp => (Some(adjusted(e, 60)), Effect::Nothing, lamp),
            Control::MinuteDown => (Some(adjusted(e, -e.minute_step())), Effect::Nothing, lamp),
            Control::MinuteUp => (Some(adjusted(e, e.minute_step())), Effect::Nothing, lamp),
            Control::Cancel => (None, Effect::Nothing, lamp),
            Control::Confirm => match e {
                Editor::Clock(t) => (None, Effect::SetClock((t * 60) as u32), lamp),
                Editor::LampOn(on) => (
                    Some(Editor::LampOff { on, off: lamp.schedule.off }),
                    Effect::Nothing,
                    lamp,
                ),
                Editor::LampOff { on, off } => (
                    None,
                    Effect::SaveSchedule(Schedule { on, off }),
                    LampView { schedule: Schedule { on, off }, manual: None },
                ),
            },
            _ => (Some(e), Effect::Nothing, lamp),
        },
    }
}

/// Handle a button press. `now` is the time of day, if the clock is set.
pub fn press(editor: Option<Editor>, button: Control, lamp: &mut Lamp, now: Option<Minutes>) -> (r:
    (Option<Editor>, Effect))
    ensures
        (r.0, r.1, final(lamp)@) == pressed(editor, button, old(lamp)@, now),
        editor is None && button == Control::LampToggle ==> final(lamp)@.lamp_on(now)
            == !old(lamp)@.lamp_on(now),
{
    match editor {
        None => match button {
            Control::SetClock => {
                let t = match now {
                    Some(t) => t,
                    None => DEFAULT_CLOCK,
                };
                (Some(Editor::Clock(t)), Effect::Nothing)
            },
            Control::SetSchedule => (Some(Editor::LampOn(lamp.schedule().on)), Effect::Nothing),
            Control::LampToggle => {
                lamp.toggle(now);
                (None, Effect::Nothing)
            },
            _ => (None, Effect::Nothing),
        },
        Some(e) => {
            let mut e = e;
            match button {
                Control::HourDown => {
                    e.adjust_hours(-1);
                    (Some(e), Effect::Nothing)
                },
                Control::HourUp => {
                    e.adjust_hours(1);
                    (Some(e), Effect::Nothing)
                },
                Control::MinuteDown => {
                    e.adjust_minutes(-1);
                    (Some(e), Effect::Nothing)
                },
                Control::MinuteUp => {
                    e.adjust_minutes(1);
                    (Some(e), Effect::Nothing)
                },
                Control::Cancel => (None, Effect::Nothing),
                Control::Confirm => match e {
                    Editor::Clock(time) => (None, Effect::SetClock(time as u32 * 60)),
                    Editor::LampOn(on) => (
                        Some(Editor::LampOff { on, off: lamp.schedule().off }),
                        Effect::Nothing,
                    ),
                    Editor::LampOff { on, off } => {
                        let schedule = Schedule { on, off };
                        lamp.set_schedule(schedule);
                        (None, Effect::SaveSchedule(schedule))
                    },
                },
                _ => (Some(e), Effect::Nothing),
            }
        },
    }
}

/// The time of day in whole minutes, from seconds since midnight.
pub fn minutes_of(secs: Option<u32>) -> (r: Option<Minutes>)
    ensures
        r == (match secs {
            Some(s) => Some((s / 60) as Minutes),
            None => None,
        }),
{
    match secs {
        Some(s) => Some((s / 60) as Minutes),
        None => None,
    }
}

/// Whether the clock is due for a checkpoint: it is set and the minute has
/// changed since the last one. Returns the seconds to save.
pub fn checkpoint_due(secs: Option<u32>, minutes: Option<Minutes>, checkpointed: Option<Minutes>) -> (r:
    Option<u32>)
    ensures
        r == (if minutes != checkpointed {
            secs
        } else {
            None
        }),
{
    match secs {
        Some(s) => {
            let changed = match (minutes, checkpointed) {
                (Some(a), Some(b)) => a != b,
                (None, None) => false,
                _ => true,
            };
            if changed {
                Some(s)
            } else {
                None
            }
        },
        None => None,
    }
}

/// What a touch in progress holds.
pub ghost struct PressView {
    /// What the touch landed on, if anything.
    pub button: Option<Control>,
    /// When a held repeating button fires next, in nanoseconds.
    pub repeat_at: int,
    /// Empty polls in a row since the panel was last touched.
    pub misses: int,
}

/// Whether a held press fires again at `now`.
pub open spec fn repeats_now(held: PressView, now: int) -> bool {
    held.button matches Some(b) && b.spec_repeats() && now >= held.repeat_at
}

/// One touch poll: the press in progress afterwards and the button that
/// fires, if any. A new touch fires its button at once; a held repeating
/// button fires again once its repeat time has come, then every interval;
/// the press ends after `RELEASE_POLLS` empty polls in a row.
pub open spec fn polled(press: Option<PressView>, touch: Option<Option<Control>>, now: int) -> (
    Option<PressView>,
    Option<Control>,
) {
    match touch {
        Some(under) => match press {
            None => (
                Some(PressView { button: under, repeat_at: now + REPEAT_DELAY_NANOS, misses: 0 }),
                under,
            ),
            Some(held) => if repeats_now(held, now) {
                (
                    Some(
                        PressView {
                            button: held.button,
                            repeat_at: now + REPEAT_INTERVAL_NANOS,
                            misses: 0,
                        },
                    ),
                    held.button,
                )
            } else {
                (Some(PressView { misses: 0, ..held }), None)
            },
        },
        None => match press {
            None => (None, None),
            Some(held) => if held.misses + 1 >= RELEASE_POLLS {
                (None, None)
            } else {
                (Some(PressView { misses: held.misses + 1, ..held }), None)
            },
        },
    }
}

/// A touch in progress. `button` is what it landed on, if anything.
#[derive(Debug, Clone, Copy)]
pub struct Press {
    button: Option<Control>,
    repeat_at: Instant,
    misses: u8,
}

impl View for Press {
    type V = PressView;

    closed spec fn view(&self) -> PressView {
        PressView {
            button: self.button,
            repeat_at: self.repeat_at.spec_nanos(),
            misses: self.misses as int,
        }
    }
}

pub open spec fn press_view(p: Option<Press>) -> Option<PressView> {
    match p {
        Some(p) => Some(p@),
        None => None,
    }
}

impl Press {
    #[verifier::type_invariant]
    spec fn few_misses(self) -> bool {
        self.misses < RELEASE_POLLS
    }

    /// What the press landed on.
    pub fn button(&self) -> (r: Option<Control>)
        ensures
            r == self@.button,
    {
        self.button
    }
}

/// One touch poll. `touch` is None when the panel is not touched, else the
/// button (if any) under the touch point; `now` is the poll's moment.
/// Returns the press still in progress and the button that fires, if any.
pub fn poll_press(press: Option<Press>, touch: Option<Option<Control>>, now: Instant) -> (r: (
    Option<Press>,
    Option<Control>,
))
    requires
        now.spec_nanos() + REPEAT_DELAY_NANOS <= u64::MAX,
    ensures
        (press_view(r.0), r.1) == polled(press_view(press), touch, now.spec_nanos()),
{
    match touch {
        Some(under) => match press {
            Some(held) => {
                proof {
                    use_type_invariant(&held);
                }
                let fires = match held.button {
                    Some(b) => b.repeats() && now.as_nanos() >= held.repeat_at.as_nanos(),
                    None => false,
                };
                if fires {
                    let next = Press {
                        button: held.button,
                        repeat_at: Instant::from_nanos(now.as_nanos() + REPEAT_INTERVAL_NANOS),
                        misses: 0,
                    };
                    (Some(next), held.button)
                } else {
                    let next = Press { button: held.button, repeat_at: held.repeat_at, misses: 0 };
                    (Some(next), None)
                }
            },
            None => {
                let next = Press {
                    button: under,
                    repeat_at: Instant::from_nanos(now.as_nanos() + REPEAT_DELAY_NANOS),
                    misses: 0,
                };
                (Some(next), under)
            },
        },
        None => match press {
            Some(held) => {
                proof {
                    use_type_invariant(&held);
                }
                let misses = held.misses + 1;
                if misses >= RELEASE_POLLS {
                    (None, None)
                } else {
                    (Some(Press { button: held.button, repeat_at: held.repeat_at, misses }), None)
                }
            },
            None => (None, None),
        },
    }
}

/// A tap fires once: while the finger stays down on a button that does not
/// repeat, a poll fires nothing and keeps the press.
pub proof fn lemma_tap_fires_once(held: PressView, under: Option<Control>, now: int)
    requires
        !(held.button matches Some(b) && b.spec_repeats()),
    ensures
        polled(Some(held), Some(under), now).1 is None,
        polled(Some(held), Some(under), now).0 == Some(PressView { misses: 0, ..held }),
{
}

/// One noisy empty sample in the middle of a touch does not end it, so the
/// touch coming back is not a second tap; two empty polls in a row end any
/// press.
pub proof fn lemma_release_needs_two_empty_polls(held: PressView, under: Option<Control>, now: int)
    requires
        held.misses == 0,
        !(held.button matches Some(b) && b.spec_repeats()),
    ensures
        polled(polled(Some(held), None, now).0, Some(under), now).1 is None,
        polled(polled(Some(held), None, now).0, None, now).0 is None,
{
}

/// Holding a repeating button fires it again at its repeat time, and the
/// next repeat comes one interval later.
pub proof fn lemma_held_button_repeats(held: PressView, under: Option<Control>, now: int)
    requires
        held.button matches Some(b) && b.spec_repeats(),
        now >= held.repeat_at,
    ensures
        polled(Some(held), Some(under), now).1 == held.button,
        polled(Some(held), Some(under), now).0 == Some(
            PressView { button: held.button, repeat_at: now + REPEAT_INTERVAL_NANOS, misses: 0 },
        ),
{
}

/// Confirming the second schedule step saves exactly the times entered and
/// makes the lamp follow them with no override.
pub proof fn lemma_confirm_schedule(on: Minutes, off: Minutes, lamp: LampView, now: Option<Minutes>)
    ensures
        pressed(Some(Editor::LampOff { on, off }), Control::Confirm, lamp, now) == (
            None::<Editor>,
            Effect::SaveSchedule(Schedule { on, off }),
            LampView { schedule: Schedule { on, off }, manual: None },
        ),
{
}

/// CANCEL leaves the editor and changes nothing else.
pub proof fn lemma_cancel_changes_nothing(e: Editor, lamp: LampView, now: Option<Minutes>)
    ensures
        pressed(Some(e), Control::Cancel, lamp, now) == (None::<Editor>, Effect::Nothing, lamp),
{
}

/// Only the main screen's TURN LAMP button touches the lamp, and only an
/// editor's CONFIRM sets the clock or saves a schedule.
pub proof fn lemma_editor_leaves_lamp(e: Editor, button: Control, lamp: LampView, now: Option<Minutes>)
    requires
        button != Control::Confirm,
    ensures
        pressed(Some(e), button, lamp, now).2 == lamp,
        pressed(Some(e), button, lamp, now).1 == Effect::Nothing,
{
}

/// The time of day in whole minutes, or None while the clock is unset. It
/// rests on a reading of the system clock (see `clock::secs_of_day`), so
/// only that a time is within one day is stated; `minutes_of` states the
/// result for given seconds.
pub fn minutes_now() -> (r: Option<Minutes>)
    ensures
        r matches Some(m) ==> m < 24 * 60,
{
    let secs = secs_of_day();
    proof {
        if let Some(s) = secs {
            assert(s / 60 < 24 * 60);
        }
    }
    minutes_of(secs)
}

/// What one pass of the main loop decides after handling the buttons.
#[derive(Debug, Clone, Copy, PartialEq, Eq, Structural)]
pub struct Settled {
    /// Whether the lamp should be on.
    pub lamp_on: bool,
    /// The level to drive the relay's trigger pin to, or None when it
    /// already matches the lamp.
    pub drive: Option<bool>,
    /// The seconds since midnight to checkpoint to flash, if due.
    pub checkpoint: Option<u32>,
}

/// The relay state once a pass's drive level (if any) has been written.
pub open spec fn relay_after(state: bool, level: Option<bool>) -> bool {
    match level {
        Some(l) => l,
        None => state,
    }
}

/// One pass of the main loop after the buttons: update the lamp logic at
/// the time of day `minutes`, make the relay follow the lamp, and decide
/// whether the clock reading `secs` is due for a checkpoint.
pub fn settle(
    lamp: &mut Lamp,
    relay: &Relay,
    minutes: Option<Minutes>,
    secs: Option<u32>,
    checkpointed: Option<Minutes>,
) -> (r: Settled)
    ensures
        r.lamp_on == old(lamp)@.lamp_on(minutes),
        final(lamp)@ == old(lamp)@.updated(minutes),
        r.drive == drive(relay@, r.lamp_on),
        r.checkpoint == (if minutes != checkpointed {
            secs
        } else {
            None
        }),
{
    let lamp_on = lamp.update(minutes);
    let level = relay.drive_for(lamp_on);
    let checkpoint = checkpoint_due(secs, minutes, checkpointed);
    Settled { lamp_on, drive: level, checkpoint }
}

/// The relay follows the lamp on every pass: once the pass's drive level is
/// written, the relay is in the state the lamp logic wants, whatever state
/// it was in before.
pub proof fn lemma_relay_follows_lamp(state: bool, lamp_on: bool)
    ensures
        relay_after(state, drive(state, lamp_on)) == lamp_on,
{
}

/// What the screen shows: the main screen or an editor.
#[derive(Debug, Clone, Copy, PartialEq, Eq, Structural)]
pub enum Screen {
    Main(MainView),
    Editor(Editor),
}

/// The screen for the current state: the editor while one is open, else
/// the main screen with the clock, its trust, and the lamp.
pub fn screen_for(
    editor: Option<Editor>,
    time: Option<Minutes>,
    trust: Trust,
    lamp_on: bool,
    lamp: &Lamp,
) -> (r: Screen)
    ensures
        r == (match editor {
            Some(e) => Screen::Editor(e),
            None => Screen::Main(
                MainView {
                    time,
                    restored: trust == Trust::Restored,
                    lamp_on,
                    manual: lamp@.manual is Some,
                    schedule: lamp@.schedule,
                },
            ),
        }),
{
    match editor {
        Some(e) => Screen::Editor(e),
        None => Screen::Main(
            MainView {
                time,
                restored: trust == Trust::Restored,
                lamp_on,
                manual: lamp.is_manual(),
                schedule: lamp.schedule(),
            },
        ),
    }
}

/// Whether the screen must be redrawn: only when what it shows changed.
pub fn needs_redraw(shown: &Option<Screen>, screen: &Screen) -> (r: bool)
    ensures
        r == (*shown != Some(*screen)),
{
    match shown {
        Some(s) => *s != *screen,
        None => true,
    }
}

/// Opening SCHEDULE and pressing NEXT and SAVE without adjusting anything
/// saves the schedule in force, and ends any override.
pub proof fn lemma_schedule_flow(lamp: LampView, now: Option<Minutes>)
    ensures
        ({
            let (e1, f1, l1) = pressed(None, Control::SetSchedule, lamp, now);
            let (e2, f2, l2) = pressed(e1, Control::Confirm, l1, now);
            let (e3, f3, l3) = pressed(e2, Control::Confirm, l2, now);
            &&& e1 == Some(Editor::LampOn(lamp.schedule.on))
            &&& e2 == Some(Editor::LampOff { on: lamp.schedule.on, off: lamp.schedule.off })
            &&& e3 is None
            &&& f1 == Effect::Nothing && f2 == Effect::Nothing
            &&& f3 == Effect::SaveSchedule(lamp.schedule)
            &&& l3 == (LampView { schedule: lamp.schedule, manual: None })
        }),
{
}

/// SET CLOCK followed by SAVE sets the clock to the time the editor showed:
/// read back, the clock is trusted as set by the user and its minute is
/// that time.
pub proof fn lemma_clock_flow(lamp: LampView, now: Option<Minutes>)
    requires
        now matches Some(t) ==> t < 24 * 60,
    ensures
        ({
            let (e1, f1, l1) = pressed(None, Control::SetClock, lamp, now);
            let (e2, f2, l2) = pressed(e1, Control::Confirm, l1, now);
            let t: int = match now {
                Some(t) => t as int,
                None => DEFAULT_CLOCK as int,
            };
            &&& e1 == Some(Editor::Clock(t as Minutes))
            &&& e2 is None
            &&& l2 == lamp
            &&& f2 == Effect::SetClock((t * 60) as u32)
            &&& trust_of(setting(t * 60, false)) == Trust::UserSet
            &&& time_of_day(setting(t * 60, false)) == Some((t * 60) as u32)
            &&& (t * 60) / 60 == t
        }),
{
    let t: int = match now {
        Some(t) => t as int,
        None => DEFAULT_CLOCK as int,
    };
    crate::clock::lemma_set_then_read(t * 60, false);
    assert((t * 60) % 86400 == t * 60);
}

/// TURN LAMP ON/OFF on the main screen flips the lamp from whatever it is
/// doing, override or not, stays on the main screen, and is the lamp's own
/// toggle.
pub proof fn lemma_lamp_toggle_press_flips(lamp: LampView, now: Option<Minutes>)
    ensures
        pressed(None, Control::LampToggle, lamp, now).2.lamp_on(now) == !lamp.lamp_on(now),
        pressed(None, Control::LampToggle, lamp, now).2 == lamp.toggled(now),
        pressed(None, Control::LampToggle, lamp, now).0 is None,
        pressed(None, Control::LampToggle, lamp, now).1 == Effect::Nothing,
        pressed(None, Control::LampToggle, lamp, now).2.schedule == lamp.schedule,
{
}

/// Pressing TURN LAMP twice at the same moment puts the lamp back where it
/// was.
pub proof fn lemma_lamp_toggle_twice(lamp: LampView, now: Option<Minutes>)
    ensures
        ({
            let once = pressed(None, Control::LampToggle, lamp, now).2;
            pressed(None, Control::LampToggle, once, now).2.lamp_on(now) == lamp.lamp_on(now)
        }),
{
}

/// The repeating controls are exactly the ones that move the time being
/// edited: each of HOUR -, HOUR +, MIN - and MIN + changes the edited time,
/// and every other control, pressed in the editor, leaves it where it was
/// or closes the editor.
pub proof fn lemma_repeaters_move_the_time(c: Control, lamp: LampView, now: Option<Minutes>)
    ensures
        c.spec_repeats() <==> (c == Control::HourDown || c == Control::HourUp || c
            == Control::MinuteDown || c == Control::MinuteUp),
        c.spec_repeats() <==> (pressed(Some(Editor::Clock(0)), c, lamp, now).0 matches Some(
            Editor::Clock(t),
        ) && t != 0),
{
    assert(wrapped(0, -60) == 1380);
    assert(wrapped(0, 60) == 60);
    assert(wrapped(0, -1) == 1439);
    assert(wrapped(0, 1) == 1);
}

/// On the clock, HOUR moves by 60 minutes and MIN by one; on a schedule
/// step MIN moves by five; an adjustment followed by the opposite one gives
/// back the editor.
pub proof fn lemma_steppers(e: Editor, lamp: LampView, now: Option<Minutes>)
    requires
        e.edited() + 60 < 24 * 60,
    ensures
        pressed(Some(e), Control::HourUp, lamp, now).0 == Some(e.with_edited((e.edited() + 60) as Minutes)),
        pressed(Some(e), Control::MinuteUp, lamp, now).0 == Some(
            e.with_edited(
                (e.edited() + (if e is Clock {
                    1int
                } else {
                    5int
                })) as Minutes,
            ),
        ),
        ({
            let up = pressed(Some(e), Control::HourUp, lamp, now).0;
            pressed(up, Control::HourDown, lamp, now).0 == Some(e)
        }),
        ({
            let up = pressed(Some(e), Control::MinuteUp, lamp, now).0;
            pressed(up, Control::MinuteDown, lamp, now).0 == Some(e)
        }),
{
    let t = e.edited() as int;
    crate::schedule::lemma_wrapped_is_the_moved_time(t, 60);
    crate::schedule::lemma_wrapped_is_the_moved_time(t, e.minute_step());
    crate::schedule::lemma_wrapped_is_the_moved_time(t + 60, -60);
    crate::schedule::lemma_wrapped_is_the_moved_time(t + e.minute_step(), -e.minute_step());
}

} // verus!
