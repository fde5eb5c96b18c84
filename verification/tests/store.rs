use lamp_timer::schedule::Schedule;
use lamp_timer::store::{clock_from, minutes_from, schedule_from};

#[test]
fn minutes_out_of_range_are_ignored() {
    assert_eq!(minutes_from(Some(0)), Some(0));
    assert_eq!(minutes_from(Some(1439)), Some(1439));
    assert_eq!(minutes_from(Some(1440)), None);
    assert_eq!(minutes_from(None), None);
}

#[test]
fn schedule_needs_both_entries() {
    assert_eq!(schedule_from(Some(1020), Some(0)), Some(Schedule { on: 1020, off: 0 }));
    assert_eq!(schedule_from(None, Some(0)), None);
    assert_eq!(schedule_from(Some(1020), None), None);
    assert_eq!(schedule_from(Some(1020), Some(5000)), None);
}

#[test]
fn saved_schedule_reads_back() {
    let s = Schedule { on: 22 * 60, off: 6 * 60 };
    assert_eq!(schedule_from(Some(s.on), Some(s.off)), Some(s));
}

#[test]
fn clock_checkpoint_within_a_day() {
    assert_eq!(clock_from(Some(0)), Some(0));
    assert_eq!(clock_from(Some(86_399)), Some(86_399));
    assert_eq!(clock_from(Some(86_400)), None);
    assert_eq!(clock_from(None), None);
}
