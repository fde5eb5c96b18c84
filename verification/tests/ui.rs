use lamp_timer::ui::{Button, Point, Rect};

const W: i32 = 480;

#[test]
fn top_row_has_four_equal_columns() {
    assert_eq!(Button::Add1.rect(W), Rect { x: 16, y: 165, width: 103, height: 60 });
    assert_eq!(Button::Add5.rect(W), Rect { x: 131, y: 165, width: 103, height: 60 });
    assert_eq!(Button::Add15.rect(W), Rect { x: 246, y: 165, width: 103, height: 60 });
    assert_eq!(Button::Clear.rect(W), Rect { x: 361, y: 165, width: 103, height: 60 });
}

#[test]
fn start_stop_spans_the_width() {
    assert_eq!(Button::StartStop.rect(W), Rect { x: 16, y: 240, width: 448, height: 64 });
}

#[test]
fn labels() {
    assert_eq!(Button::Add1.label(false), "+1 MIN");
    assert_eq!(Button::Add5.label(true), "+5 MIN");
    assert_eq!(Button::Add15.label(false), "+15 MIN");
    assert_eq!(Button::Clear.label(true), "CLEAR");
    assert_eq!(Button::StartStop.label(true), "STOP");
    assert_eq!(Button::StartStop.label(false), "START");
}

#[test]
fn touch_points_find_buttons() {
    assert_eq!(Button::at(Point { x: 16, y: 165 }, W), Some(Button::Add1));
    assert_eq!(Button::at(Point { x: 118, y: 224 }, W), Some(Button::Add1));
    assert_eq!(Button::at(Point { x: 119, y: 200 }, W), None);
    assert_eq!(Button::at(Point { x: 131, y: 200 }, W), Some(Button::Add5));
    assert_eq!(Button::at(Point { x: 300, y: 200 }, W), Some(Button::Add15));
    assert_eq!(Button::at(Point { x: 463, y: 200 }, W), Some(Button::Clear));
    assert_eq!(Button::at(Point { x: 240, y: 303 }, W), Some(Button::StartStop));
    assert_eq!(Button::at(Point { x: 240, y: 304 }, W), None);
    assert_eq!(Button::at(Point { x: 240, y: 230 }, W), None);
    assert_eq!(Button::at(Point { x: 5, y: 5 }, W), None);
}

#[test]
fn every_button_is_found_at_its_own_rectangle() {
    for b in Button::ALL {
        let r = b.rect(W);
        let p = Point { x: r.x + r.width as i32 / 2, y: r.y + r.height as i32 / 2 };
        assert_eq!(Button::at(p, W), Some(b));
        assert!(r.contains(p));
    }
}

#[test]
fn empty_rectangle_contains_nothing() {
    let r = Rect { x: 0, y: 0, width: 0, height: 10 };
    assert!(!r.contains(Point { x: 0, y: 0 }));
    let r = Rect { x: 2, y: 4, width: 3, height: 5 };
    assert!(r.contains(Point { x: 4, y: 8 }));
    assert!(!r.contains(Point { x: 5, y: 8 }));
    assert!(!r.contains(Point { x: 4, y: 9 }));
    assert!(!r.contains(Point { x: 1, y: 4 }));
}
