use lamp_timer::clock::Trust;
use lamp_timer::control::{
    checkpoint_due, minutes_of, needs_redraw, poll_press, press, screen_for, settle, Control,
    Effect, Screen, Settled, DEFAULT_CLOCK,
};
use lamp_timer::display::MainView;
use lamp_timer::editor::Editor;
use lamp_timer::relay::Relay;
use lamp_timer::schedule::{Lamp, Schedule};
use lamp_timer::timer::Instant;

const EVENING: Schedule = Schedule { on: 17 * 60, off: 0 };

fn ms(v: u64) -> Instant {
    Instant::from_nanos(v * 1_000_000)
}

#[test]
fn set_clock_opens_at_now_or_noon() {
    let mut lamp = Lamp::new(EVENING);
    assert_eq!(press(None, Control::SetClock, &mut lamp, Some(75)), (Some(Editor::Clock(75)), Effect::Nothing));
    assert_eq!(press(None, Control::SetClock, &mut lamp, None), (Some(Editor::Clock(DEFAULT_CLOCK)), Effect::Nothing));
    assert_eq!(DEFAULT_CLOCK, 720);
}

#[test]
fn clock_confirm_sets_the_clock() {
    let mut lamp = Lamp::new(EVENING);
    let (e, _) = press(None, Control::SetClock, &mut lamp, None);
    let (e, _) = press(e, Control::HourUp, &mut lamp, None);
    let (e, _) = press(e, Control::MinuteDown, &mut lamp, None);
    assert_eq!(e, Some(Editor::Clock(12 * 60 + 59)));
    let (e, effect) = press(e, Control::Confirm, &mut lamp, None);
    assert_eq!(e, None);
    assert_eq!(effect, Effect::SetClock((12 * 60 + 59) * 60));
}

#[test]
fn schedule_is_entered_in_two_steps() {
    let mut lamp = Lamp::new(EVENING);
    lamp.toggle(Some(12 * 60));
    assert!(lamp.is_manual());
    let (e, _) = press(None, Control::SetSchedule, &mut lamp, Some(12 * 60));
    assert_eq!(e, Some(Editor::LampOn(17 * 60)));
    let (e, _) = press(e, Control::MinuteUp, &mut lamp, Some(12 * 60));
    let (e, f) = press(e, Control::Confirm, &mut lamp, Some(12 * 60));
    assert_eq!(e, Some(Editor::LampOff { on: 17 * 60 + 5, off: 0 }));
    assert_eq!(f, Effect::Nothing);
    let (e, _) = press(e, Control::HourDown, &mut lamp, Some(12 * 60));
    let (e, f) = press(e, Control::Confirm, &mut lamp, Some(12 * 60));
    assert_eq!(e, None);
    let saved = Schedule { on: 17 * 60 + 5, off: 23 * 60 };
    assert_eq!(f, Effect::SaveSchedule(saved));
    assert_eq!(lamp.schedule(), saved);
    assert!(!lamp.is_manual());
}

#[test]
fn cancel_and_stray_buttons() {
    let mut lamp = Lamp::new(EVENING);
    assert_eq!(press(Some(Editor::LampOn(3)), Control::Cancel, &mut lamp, None), (None, Effect::Nothing));
    assert_eq!(press(Some(Editor::Clock(3)), Control::SetClock, &mut lamp, None), (Some(Editor::Clock(3)), Effect::Nothing));
    assert_eq!(press(None, Control::HourUp, &mut lamp, None), (None, Effect::Nothing));
    assert_eq!(lamp.schedule(), EVENING);
}

#[test]
fn lamp_toggle_from_main_screen() {
    let mut lamp = Lamp::new(EVENING);
    assert_eq!(press(None, Control::LampToggle, &mut lamp, Some(18 * 60)), (None, Effect::Nothing));
    assert!(!lamp.update(Some(18 * 60)));
    assert!(lamp.is_manual());
}

#[test]
fn only_editor_steppers_repeat() {
    assert!(Control::HourDown.repeats());
    assert!(Control::MinuteUp.repeats());
    assert!(!Control::Confirm.repeats());
    assert!(!Control::LampToggle.repeats());
}

#[test]
fn a_tap_fires_once() {
    let (p, fired) = poll_press(None, Some(Some(Control::LampToggle)), ms(0));
    assert_eq!(fired, Some(Control::LampToggle));
    let (p, fired) = poll_press(p, Some(Some(Control::LampToggle)), ms(30));
    assert_eq!(fired, None);
    let (p, fired) = poll_press(p, Some(Some(Control::LampToggle)), ms(2000));
    assert_eq!(fired, None);
    // One noisy empty sample does not end the press.
    let (p, fired) = poll_press(p, None, ms(2030));
    assert!(p.is_some());
    assert_eq!(fired, None);
    let (p, fired) = poll_press(p, Some(Some(Control::LampToggle)), ms(2060));
    assert_eq!(fired, None);
    // Two in a row do.
    let (p, _) = poll_press(p, None, ms(2090));
    let (p, _) = poll_press(p, None, ms(2120));
    assert!(p.is_none());
    let (_, fired) = poll_press(p, Some(Some(Control::LampToggle)), ms(2150));
    assert_eq!(fired, Some(Control::LampToggle));
}

#[test]
fn held_stepper_repeats() {
    let (p, fired) = poll_press(None, Some(Some(Control::HourUp)), ms(0));
    assert_eq!(fired, Some(Control::HourUp));
    let (p, fired) = poll_press(p, Some(Some(Control::HourUp)), ms(499));
    assert_eq!(fired, None);
    let (p, fired) = poll_press(p, Some(Some(Control::HourUp)), ms(500));
    assert_eq!(fired, Some(Control::HourUp));
    let (p, fired) = poll_press(p, Some(Some(Control::HourUp)), ms(599));
    assert_eq!(fired, None);
    let (p, fired) = poll_press(p, Some(None), ms(600));
    assert_eq!(fired, Some(Control::HourUp));
    assert_eq!(p.unwrap().button(), Some(Control::HourUp));
}

#[test]
fn touch_off_any_button_fires_nothing() {
    let (p, fired) = poll_press(None, Some(None), ms(0));
    assert_eq!(fired, None);
    assert_eq!(p.unwrap().button(), None);
}

#[test]
fn checkpoint_once_a_minute() {
    assert_eq!(checkpoint_due(Some(61), Some(1), None), Some(61));
    assert_eq!(checkpoint_due(Some(65), Some(1), Some(1)), None);
    assert_eq!(checkpoint_due(Some(120), Some(2), Some(1)), Some(120));
    assert_eq!(checkpoint_due(None, None, Some(1)), None);
    assert_eq!(checkpoint_due(None, None, None), None);
}

#[test]
fn minutes_from_seconds() {
    assert_eq!(minutes_of(Some(0)), Some(0));
    assert_eq!(minutes_of(Some(119)), Some(1));
    assert_eq!(minutes_of(Some(86_399)), Some(1439));
    assert_eq!(minutes_of(None), None);
}

#[test]
fn redraw_only_on_change() {
    let lamp = Lamp::new(EVENING);
    let a = screen_for(None, Some(60), Trust::UserSet, false, &lamp);
    assert_eq!(
        a,
        Screen::Main(MainView { time: Some(60), restored: false, lamp_on: false, manual: false, schedule: EVENING })
    );
    let b = screen_for(None, Some(60), Trust::Restored, false, &lamp);
    assert!(needs_redraw(&None, &a));
    assert!(!needs_redraw(&Some(a), &a));
    assert!(needs_redraw(&Some(a), &b));
    let c = screen_for(Some(Editor::Clock(3)), Some(60), Trust::UserSet, false, &lamp);
    assert_eq!(c, Screen::Editor(Editor::Clock(3)));
    assert!(needs_redraw(&Some(a), &c));
}

#[test]
fn each_pass_makes_the_relay_follow_the_lamp() {
    let mut lamp = Lamp::new(EVENING);
    let mut relay = Relay::new();
    let s = settle(&mut lamp, &relay, Some(18 * 60), Some(18 * 3600), None);
    assert_eq!(s, Settled { lamp_on: true, drive: Some(true), checkpoint: Some(18 * 3600) });
    relay.driven(true);
    let s = settle(&mut lamp, &relay, Some(18 * 60), Some(18 * 3600 + 5), Some(18 * 60));
    assert_eq!(s, Settled { lamp_on: true, drive: None, checkpoint: None });
    lamp.toggle(Some(18 * 60));
    let s = settle(&mut lamp, &relay, Some(18 * 60 + 1), Some(18 * 3600 + 60), Some(18 * 60));
    assert_eq!(s, Settled { lamp_on: false, drive: Some(false), checkpoint: Some(18 * 3600 + 60) });
    // No clock: the lamp is off and nothing is checkpointed.
    let mut lamp = Lamp::new(EVENING);
    let s = settle(&mut lamp, &Relay::new(), None, None, None);
    assert_eq!(s, Settled { lamp_on: false, drive: None, checkpoint: None });
}
