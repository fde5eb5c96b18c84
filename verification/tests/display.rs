use lamp_timer::control::Control;
use lamp_timer::display::{
    address_window, editor_button, editor_screen, hhmm, main_button, main_screen, time_rects,
    Color, Framebuffer, MainView, PIXELS, WIDTH,
};
use lamp_timer::editor::Editor;
use lamp_timer::schedule::Schedule;
use lamp_timer::ui::Rect;

fn view(time: Option<u16>, restored: bool, lamp_on: bool, manual: bool) -> MainView {
    MainView { time, restored, lamp_on, manual, schedule: Schedule { on: 17 * 60, off: 0 } }
}

#[test]
fn hhmm_pads_to_two_digits() {
    assert_eq!(hhmm(0), "00:00");
    assert_eq!(hhmm(17 * 60), "17:00");
    assert_eq!(hhmm(10 * 60 + 5), "10:05");
    assert_eq!(hhmm(1439), "23:59");
    assert_eq!(hhmm(100 * 60 + 7), "100:07");
}

#[test]
fn main_screen_lamp_on_with_schedule() {
    let s = main_screen(&view(Some(18 * 60), false, true, false));
    assert_eq!(s.digits, Color::Green);
    assert_eq!(s.status, "LAMP ON");
    assert_eq!(s.status_color, Color::Green);
    assert_eq!(s.detail, "ON 17:00 - OFF 00:00 DAILY");
    assert_eq!(s.detail_color, Color::Gray);
}

#[test]
fn main_screen_manual_and_off() {
    let s = main_screen(&view(Some(9 * 60), false, false, true));
    assert_eq!(s.digits, Color::White);
    assert_eq!(s.status, "LAMP OFF - MANUAL");
    assert_eq!(s.status_color, Color::Gray);
    let s = main_screen(&view(Some(9 * 60), false, true, true));
    assert_eq!(s.status, "LAMP ON - MANUAL");
    let s = main_screen(&view(Some(9 * 60), false, false, false));
    assert_eq!(s.status, "LAMP OFF");
}

#[test]
fn main_screen_clock_warnings() {
    let s = main_screen(&view(None, false, false, false));
    assert_eq!(s.digits, Color::DimGray);
    assert_eq!(s.detail, "CLOCK NOT SET - TAP SET CLOCK");
    assert_eq!(s.detail_color, Color::Orange);
    let s = main_screen(&view(Some(60), true, true, false));
    assert_eq!(s.digits, Color::Orange);
    assert_eq!(s.detail, "POWER WAS LOST - CHECK THE CLOCK");
    assert_eq!(s.detail_color, Color::Orange);
}

#[test]
fn main_buttons() {
    let on = view(Some(60), false, true, false);
    let off = view(Some(60), false, false, false);
    assert_eq!(main_button(&on, Control::LampToggle), ("TURN LAMP OFF", Color::ButtonStop));
    assert_eq!(main_button(&off, Control::LampToggle), ("TURN LAMP ON", Color::ButtonGo));
    assert_eq!(main_button(&off, Control::SetClock), ("SET CLOCK", Color::ButtonNeutral));
    assert_eq!(main_button(&off, Control::SetSchedule), ("SCHEDULE", Color::ButtonNeutral));
}

#[test]
fn editor_screens() {
    let s = editor_screen(&Editor::Clock(5));
    assert_eq!((s.title, s.detail.as_str(), s.confirm), ("SET CLOCK", "HOLD A BUTTON TO REPEAT", "SAVE"));
    let s = editor_screen(&Editor::LampOn(5));
    assert_eq!((s.title, s.detail.as_str(), s.confirm), ("LAMP TURNS ON AT", "HOLD A BUTTON TO REPEAT", "NEXT"));
    let s = editor_screen(&Editor::LampOff { on: 22 * 60 + 30, off: 0 });
    assert_eq!((s.title, s.detail.as_str(), s.confirm), ("LAMP TURNS OFF AT", "TURNS ON AT 22:30", "SAVE"));
}

#[test]
fn editor_buttons() {
    assert_eq!(editor_button(Control::HourDown, "SAVE"), ("HOUR -", Color::ButtonNeutral));
    assert_eq!(editor_button(Control::HourUp, "SAVE"), ("HOUR +", Color::ButtonNeutral));
    assert_eq!(editor_button(Control::MinuteDown, "SAVE"), ("MIN -", Color::ButtonNeutral));
    assert_eq!(editor_button(Control::MinuteUp, "SAVE"), ("MIN +", Color::ButtonNeutral));
    assert_eq!(editor_button(Control::Cancel, "SAVE"), ("CANCEL", Color::ButtonStop));
    assert_eq!(editor_button(Control::Confirm, "NEXT"), ("NEXT", Color::ButtonGo));
}

#[test]
fn unset_clock_shows_four_dashes_and_a_colon() {
    let r = time_rects(None);
    assert_eq!(r.len(), 6);
    // The middle segment of a dash, first glyph at x = 76.
    assert_eq!(r[0], Rect { x: 88, y: 65, width: 40, height: 12 });
    assert_eq!(r[1], Rect { x: 164, y: 65, width: 40, height: 12 });
    // The colon's dots.
    assert_eq!(r[2], Rect { x: 234, y: 37, width: 12, height: 12 });
    assert_eq!(r[3], Rect { x: 234, y: 92, width: 12, height: 12 });
    assert_eq!(r[5], Rect { x: 352, y: 65, width: 40, height: 12 });
}

#[test]
fn clock_digits_light_their_segments() {
    // 17:00 -> "1" (b, c), "7" (a, b, c), colon, "0" (a-f), "0" (a-f).
    let r = time_rects(Some(17 * 60));
    assert_eq!(r.len(), 2 + 3 + 2 + 6 + 6);
    assert_eq!(r[0], Rect { x: 76 + 52, y: 28, width: 12, height: 37 });
    assert_eq!(r[1], Rect { x: 76 + 52, y: 77, width: 12, height: 37 });
    assert_eq!(r[2], Rect { x: 152 + 12, y: 16, width: 40, height: 12 });
    let r = time_rects(Some(8 * 60 + 8));
    // 08:08 -> "0" (six segments), "8" (seven), colon, "0", "8".
    assert_eq!(r.len(), 6 + 7 + 2 + 6 + 7);
}

#[test]
fn framebuffer_pixels_are_big_endian() {
    let mut fb = Framebuffer::new();
    assert_eq!(fb.as_bytes().len(), 2 * PIXELS);
    assert!(fb.as_bytes().iter().all(|&b| b == 0));
    fb.put(1, 0, 0xF800);
    assert_eq!(&fb.as_bytes()[0..4], &[0, 0, 0xF8, 0x00]);
    fb.put(3, 2, 0x1234);
    let i = (2 * WIDTH + 3) * 2;
    assert_eq!(&fb.as_bytes()[i..i + 2], &[0x12, 0x34]);
    fb.put(-1, 0, 0xFFFF);
    fb.put(480, 0, 0xFFFF);
    fb.put(0, 320, 0xFFFF);
    assert_eq!(fb.as_bytes().iter().filter(|&&b| b != 0).count(), 3);
    fb.clear(0xABCD);
    assert!(fb.as_bytes().chunks(2).all(|p| p == [0xAB, 0xCD]));
}

#[test]
fn address_window_spans_the_screen() {
    assert_eq!(address_window(480), [0, 0, 0x01, 0xDF]);
    assert_eq!(address_window(320), [0, 0, 0x01, 0x3F]);
    assert_eq!(address_window(1), [0, 0, 0, 0]);
}

#[test]
fn clock_stays_on_screen() {
    for time in [None, Some(0u16), Some(8 * 60 + 8), Some(23 * 60 + 59), Some(u16::MAX)] {
        for r in time_rects(time) {
            assert!(r.x >= 0 && r.y >= 0);
            assert!(r.x as u32 + r.width <= 480 && r.y as u32 + r.height <= 320);
        }
    }
}
