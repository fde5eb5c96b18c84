use lamp_timer::timer::{Instant, Phase, Timer, MAX_SECS};

fn at_secs(s: u64) -> Instant {
    Instant::from_nanos(s * 1_000_000_000)
}

fn at_millis(ms: u64) -> Instant {
    Instant::from_nanos(ms * 1_000_000)
}

#[test]
fn new_timer_is_idle_and_capped() {
    let t = Timer::new(90);
    assert_eq!(t.phase(), Phase::Idle);
    assert!(!t.is_running());
    assert_eq!(t.remaining(at_secs(5)), 90);
    let big = Timer::new(100_000);
    assert_eq!(big.remaining(at_secs(0)), MAX_SECS);
    assert_eq!(MAX_SECS, 35_999);
}

#[test]
fn running_countdown_rounds_up() {
    let mut t = Timer::new(90);
    t.toggle(at_secs(100));
    assert!(t.is_running());
    assert_eq!(t.remaining(at_secs(100)), 90);
    assert_eq!(t.remaining(at_millis(100_500)), 90);
    assert_eq!(t.remaining(at_millis(101_000)), 89);
    assert_eq!(t.remaining(at_millis(189_999)), 1);
    assert_eq!(t.remaining(at_secs(190)), 0);
    assert_eq!(t.remaining(at_secs(500)), 0);
}

#[test]
fn tick_expires_once_and_restores_last_started() {
    let mut t = Timer::new(30);
    t.toggle(at_secs(0));
    assert!(!t.tick(at_secs(29)));
    assert!(t.is_running());
    assert!(t.tick(at_secs(30)));
    assert_eq!(t.phase(), Phase::Done);
    assert_eq!(t.remaining(at_secs(31)), 0);
    assert!(!t.tick(at_secs(40)));
    // One tap runs the same countdown again.
    t.toggle(at_secs(50));
    assert!(t.is_running());
    assert_eq!(t.remaining(at_secs(50)), 30);
}

#[test]
fn stop_then_start_is_pause_and_resume() {
    let mut t = Timer::new(60);
    t.toggle(at_secs(0));
    t.toggle(at_millis(20_300));
    assert_eq!(t.phase(), Phase::Idle);
    assert_eq!(t.remaining(at_secs(1000)), 40);
    t.toggle(at_secs(1000));
    assert!(t.is_running());
    assert_eq!(t.remaining(at_secs(1000)), 40);
    assert!(t.tick(at_secs(1040)));
}

#[test]
fn start_with_nothing_set_does_nothing() {
    let mut t = Timer::new(0);
    t.toggle(at_secs(5));
    assert_eq!(t.phase(), Phase::Idle);
    assert_eq!(t.remaining(at_secs(5)), 0);
}

#[test]
fn add_while_idle_and_running() {
    let mut t = Timer::new(0);
    t.add(60, at_secs(0));
    t.add(300, at_secs(0));
    assert_eq!(t.remaining(at_secs(0)), 360);
    t.add(1_000_000, at_secs(0));
    assert_eq!(t.remaining(at_secs(0)), MAX_SECS);
    t.clear();
    t.add(60, at_secs(0));
    t.toggle(at_secs(10));
    t.add(60, at_secs(40));
    assert_eq!(t.remaining(at_secs(40)), 90);
    t.add(100_000, at_secs(40));
    assert_eq!(t.remaining(at_secs(40)), MAX_SECS);
}

#[test]
fn add_after_done_returns_to_idle() {
    let mut t = Timer::new(10);
    t.toggle(at_secs(0));
    assert!(t.tick(at_secs(10)));
    t.add(5, at_secs(11));
    assert_eq!(t.phase(), Phase::Idle);
    assert_eq!(t.remaining(at_secs(11)), 15);
}

#[test]
fn clear_stops_the_lamp() {
    let mut t = Timer::new(100);
    t.toggle(at_secs(0));
    t.clear();
    assert_eq!(t.phase(), Phase::Idle);
    assert!(!t.is_running());
    assert_eq!(t.remaining(at_secs(1)), 0);
}

#[test]
fn instant_keeps_its_nanoseconds() {
    assert_eq!(Instant::from_nanos(1234).as_nanos(), 1234);
}
