use lamp_timer::relay::Relay;

#[test]
fn relay_only_writes_on_change() {
    let mut r = Relay::new();
    assert!(!r.is_on());
    assert_eq!(r.drive_for(false), None);
    assert_eq!(r.drive_for(true), Some(true));
    r.driven(true);
    assert!(r.is_on());
    assert_eq!(r.drive_for(true), None);
    assert_eq!(r.drive_for(false), Some(false));
    r.driven(false);
    assert!(!r.is_on());
}
