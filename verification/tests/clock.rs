use lamp_timer::clock::{
    clock_setting, restore_point, secs_of_day_from, secs_of_day, secs_of_day_at, trust, trust_at, Trust, BASE_RESTORED, BASE_SET,
    SECS_PER_DAY,
};

#[test]
fn trust_follows_the_fictitious_date() {
    assert_eq!(trust_at(0), Trust::Unset);
    assert_eq!(trust_at(BASE_RESTORED - 1), Trust::Unset);
    assert_eq!(trust_at(BASE_RESTORED), Trust::Restored);
    assert_eq!(trust_at(BASE_SET - 1), Trust::Restored);
    assert_eq!(trust_at(BASE_SET), Trust::UserSet);
    assert_eq!(trust_at(BASE_SET + 10 * SECS_PER_DAY), Trust::UserSet);
}

#[test]
fn time_of_day_only_once_set() {
    assert_eq!(secs_of_day_at(3600), None);
    assert_eq!(secs_of_day_at(BASE_SET + 3600), Some(3600));
    assert_eq!(secs_of_day_at(BASE_RESTORED + 86_399), Some(86_399));
    assert_eq!(secs_of_day_at(BASE_SET + 2 * SECS_PER_DAY + 5), Some(5));
}

#[test]
fn setting_the_clock_reads_back() {
    for secs in [0u32, 1, 3600, 61_200, 86_399] {
        let user = clock_setting(secs, false);
        assert_eq!(trust_at(user), Trust::UserSet);
        assert_eq!(secs_of_day_at(user), Some(secs));
        let restored = clock_setting(secs, true);
        assert_eq!(trust_at(restored), Trust::Restored);
        assert_eq!(secs_of_day_at(restored), Some(secs));
    }
    assert_eq!(clock_setting(86_400 + 7, false), BASE_SET + 7);
    assert_eq!(clock_setting(3600, true), BASE_RESTORED + 3600);
}

#[test]
fn system_clock_reading_is_a_time_of_day() {
    let _ = trust();
    if let Some(s) = secs_of_day() {
        assert!(u64::from(s) < SECS_PER_DAY);
    }
}

#[test]
fn two_readings_decide_set_and_time() {
    assert_eq!(secs_of_day_from(5, BASE_SET + 70), None);
    assert_eq!(secs_of_day_from(BASE_RESTORED, BASE_RESTORED + 70), Some(70));
    assert_eq!(secs_of_day_from(BASE_SET, BASE_SET + SECS_PER_DAY + 3), Some(3));
    // Read right after being set, the clock gives back the time set, and
    // later the time set plus what elapsed.
    let set = clock_setting(86_000, false);
    assert_eq!(secs_of_day_from(set, set), Some(86_000));
    assert_eq!(secs_of_day_from(set, set + 500), Some(100));
}

#[test]
fn restore_only_an_unset_clock() {
    assert_eq!(restore_point(Trust::Unset, Some(3600)), Some(3600));
    assert_eq!(restore_point(Trust::Unset, None), None);
    assert_eq!(restore_point(Trust::Restored, Some(3600)), None);
    assert_eq!(restore_point(Trust::UserSet, Some(3600)), None);
}
