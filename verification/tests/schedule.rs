use lamp_timer::schedule::{wrapping_add, Lamp, Schedule, MINUTES_PER_DAY};

const EVENING: Schedule = Schedule { on: 17 * 60, off: 0 };

#[test]
fn wrapping_add_wraps_around_midnight() {
    assert_eq!(wrapping_add(23 * 60 + 30, 60), 30);
    assert_eq!(wrapping_add(0, -1), MINUTES_PER_DAY - 1);
    assert_eq!(wrapping_add(10, -60 * 24 * 3), 10);
    assert_eq!(wrapping_add(100, 0), 100);
}

#[test]
fn wrapping_add_forward_then_back_restores() {
    for t in [0u16, 1, 59, 720, 1439] {
        for d in [-1500i32, -61, -1, 1, 5, 60, 2000] {
            assert_eq!(wrapping_add(wrapping_add(t, d), -d), t);
        }
    }
}

#[test]
fn window_spanning_midnight() {
    let s = Schedule { on: 22 * 60, off: 6 * 60 };
    assert!(s.is_on(22 * 60));
    assert!(s.is_on(23 * 60 + 59));
    assert!(s.is_on(0));
    assert!(s.is_on(5 * 60 + 59));
    assert!(!s.is_on(6 * 60));
    assert!(!s.is_on(12 * 60));
}

#[test]
fn window_ending_at_midnight() {
    assert!(EVENING.is_on(17 * 60));
    assert!(EVENING.is_on(23 * 60 + 59));
    assert!(!EVENING.is_on(0));
    assert!(!EVENING.is_on(16 * 60 + 59));
}

#[test]
fn window_within_one_day() {
    let s = Schedule { on: 8 * 60, off: 9 * 60 };
    assert!(!s.is_on(8 * 60 - 1));
    assert!(s.is_on(8 * 60));
    assert!(s.is_on(9 * 60 - 1));
    assert!(!s.is_on(9 * 60));
}

#[test]
fn empty_window_is_never_on() {
    let s = Schedule { on: 600, off: 600 };
    for t in [0u16, 599, 600, 601, 1439] {
        assert!(!s.is_on(t));
    }
}

#[test]
fn lamp_follows_schedule_without_override() {
    let mut lamp = Lamp::new(EVENING);
    assert!(!lamp.update(Some(12 * 60)));
    assert!(lamp.update(Some(18 * 60)));
    assert!(!lamp.is_manual());
    assert_eq!(lamp.schedule(), EVENING);
}

#[test]
fn no_clock_keeps_lamp_off_unless_switched_on() {
    let mut lamp = Lamp::new(EVENING);
    assert!(!lamp.update(None));
    lamp.toggle(None);
    assert!(lamp.update(None));
    assert!(lamp.is_manual());
    lamp.toggle(None);
    assert!(!lamp.update(None));
    assert!(!lamp.is_manual());
}

#[test]
fn override_lasts_until_next_scheduled_switch() {
    // Turn the lamp off at 20:00: it stays off past midnight, then comes
    // on at 17:00 as usual.
    let mut lamp = Lamp::new(EVENING);
    assert!(lamp.update(Some(20 * 60)));
    lamp.toggle(Some(20 * 60));
    assert!(!lamp.update(Some(20 * 60)));
    assert!(lamp.is_manual());
    assert!(!lamp.update(Some(23 * 60 + 59)));
    assert!(lamp.is_manual());
    // Midnight: the schedule switches off too and catches up.
    assert!(!lamp.update(Some(0)));
    assert!(!lamp.is_manual());
    assert!(!lamp.update(Some(12 * 60)));
    assert!(lamp.update(Some(17 * 60)));
}

#[test]
fn toggle_flips_and_toggling_back_ends_override() {
    let mut lamp = Lamp::new(EVENING);
    assert!(!lamp.update(Some(10 * 60)));
    lamp.toggle(Some(10 * 60));
    assert!(lamp.update(Some(10 * 60)));
    assert!(lamp.is_manual());
    lamp.toggle(Some(10 * 60));
    assert!(!lamp.update(Some(10 * 60)));
    assert!(!lamp.is_manual());
}

#[test]
fn new_schedule_clears_override() {
    let mut lamp = Lamp::new(EVENING);
    lamp.toggle(Some(10 * 60));
    assert!(lamp.is_manual());
    let morning = Schedule { on: 6 * 60, off: 8 * 60 };
    lamp.set_schedule(morning);
    assert!(!lamp.is_manual());
    assert_eq!(lamp.schedule(), morning);
    assert!(!lamp.update(Some(10 * 60)));
}
