use lamp_timer::touch::{is_touched, map_point, median3, poll_result, pressure};
use lamp_timer::ui::Point;

#[test]
fn median_of_three() {
    assert_eq!(median3(3, 1, 2), 2);
    assert_eq!(median3(1, 2, 3), 2);
    assert_eq!(median3(3, 2, 1), 2);
    assert_eq!(median3(5, 5, 1), 5);
    assert_eq!(median3(-4, 100, 7), 7);
}

#[test]
fn pressure_and_threshold() {
    assert_eq!(pressure(100, 4000), 195);
    assert_eq!(pressure(2000, 2100), 3995);
    assert!(is_touched(100));
    assert!(!is_touched(99));
}

#[test]
fn raw_readings_map_onto_the_screen() {
    // Axes are swapped: the Y plate reading gives the screen's x.
    assert_eq!(map_point(300, 300), Point { x: 0, y: 0 });
    assert_eq!(map_point(3800, 3800), Point { x: 479, y: 319 });
    assert_eq!(map_point(300, 2050), Point { x: 240, y: 0 });
    assert_eq!(map_point(2050, 300), Point { x: 0, y: 160 });
    assert_eq!(map_point(0, 4095), Point { x: 479, y: 0 });
    assert_eq!(map_point(4095, 0), Point { x: 0, y: 319 });
}

#[test]
fn poll_needs_both_pressure_readings() {
    assert_eq!(poll_result(50, 300, 300, 4000), None);
    assert_eq!(poll_result(4000, 300, 300, 50), None);
    assert_eq!(poll_result(100, 300, 300, 100), Some(Point { x: 0, y: 0 }));
    assert_eq!(poll_result(3000, 3800, 2050, 3000), Some(Point { x: 240, y: 319 }));
}
