use lamp_timer::control::Control;
use lamp_timer::layout::{rect, Layout};
use lamp_timer::ui::{Point, Rect};

const W: i32 = 480;

#[test]
fn main_screen_buttons() {
    assert_eq!(Layout::Main.buttons(), vec![Control::SetClock, Control::SetSchedule, Control::LampToggle]);
    assert_eq!(rect(Control::SetClock, W), Rect { x: 16, y: 188, width: 218, height: 52 });
    assert_eq!(rect(Control::SetSchedule, W), Rect { x: 246, y: 188, width: 218, height: 52 });
    assert_eq!(rect(Control::LampToggle, W), Rect { x: 16, y: 252, width: 448, height: 52 });
}

#[test]
fn editor_buttons_layout() {
    assert_eq!(Layout::Editor.buttons().len(), 6);
    assert_eq!(rect(Control::HourDown, W), Rect { x: 16, y: 188, width: 103, height: 52 });
    assert_eq!(rect(Control::MinuteUp, W), Rect { x: 361, y: 188, width: 103, height: 52 });
    assert_eq!(rect(Control::Cancel, W), Rect { x: 16, y: 252, width: 218, height: 52 });
    assert_eq!(rect(Control::Confirm, W), Rect { x: 246, y: 252, width: 218, height: 52 });
}

#[test]
fn lamp_screen_hit_tests() {
    assert_eq!(Layout::Main.button_at(Point { x: 20, y: 200 }, W), Some(Control::SetClock));
    assert_eq!(Layout::Main.button_at(Point { x: 240, y: 200 }, W), None);
    assert_eq!(Layout::Main.button_at(Point { x: 300, y: 200 }, W), Some(Control::SetSchedule));
    assert_eq!(Layout::Main.button_at(Point { x: 300, y: 260 }, W), Some(Control::LampToggle));
    assert_eq!(Layout::Editor.button_at(Point { x: 140, y: 200 }, W), Some(Control::HourUp));
    assert_eq!(Layout::Editor.button_at(Point { x: 300, y: 260 }, W), Some(Control::Confirm));
    assert_eq!(Layout::Editor.button_at(Point { x: 20, y: 260 }, W), Some(Control::Cancel));
    assert_eq!(Layout::Editor.button_at(Point { x: 240, y: 100 }, W), None);
    // Between the rows, and on the detail line.
    assert_eq!(Layout::Main.button_at(Point { x: 100, y: 245 }, W), None);
    assert_eq!(Layout::Main.button_at(Point { x: 100, y: 175 }, W), None);
    for layout in [Layout::Main, Layout::Editor] {
        for c in layout.buttons() {
            let r = rect(c, W);
            let p = Point { x: r.x + r.width as i32 / 2, y: r.y + r.height as i32 / 2 };
            assert_eq!(layout.button_at(p, W), Some(c));
        }
    }
}
