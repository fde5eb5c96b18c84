//! Where the lamp screens' text lines and buttons live. Under the
//! seven-segment clock of the `ui` grid come the status line (at the `ui`
//! grid's status baseline), a detail line, and two button rows: on the main
//! screen SET CLOCK and SCHEDULE side by side with TURN LAMP ON/OFF full
//! width below; on the editor HOUR -, HOUR +, MIN -, MIN + in the `ui`
//! grid's four columns with CANCEL and SAVE/NEXT below.
//!
//! Text is set in a 10x20 font whose baseline is 15 pixels below the top of
//! a glyph, so a line drawn at baseline `b` covers rows `b - 15 .. b + 5`.
//! The rows below keep a clear gap between every line and row.

use vstd::prelude::*;

use crate::control::Control;
use crate::display::HEIGHT;
use crate::ui::{
    button_rect, div_toward_zero, Button, Point, Rect, DIGITS_HEIGHT, DIGITS_TOP, GAP, MARGIN,
    STATUS_BASELINE,
};

verus! {

/// Rows a line of text covers above its baseline.
pub const TEXT_ASCENT: i32 = 15;

/// Rows a line of text covers below its baseline.
pub const TEXT_DESCENT: i32 = 5;

/// Baseline of the detail line under the status line.
pub const DETAIL_BASELINE: i32 = 175;

/// The lamp screens' top button row.
pub const LAMP_ROW1_TOP: i32 = 188;

pub const LAMP_ROW1_HEIGHT: u32 = 52;

/// The lamp screens' bottom button row.
pub const LAMP_ROW2_TOP: i32 = 252;

pub const LAMP_ROW2_HEIGHT: u32 = 52;

#[derive(Debug, Clone, Copy, PartialEq, Eq, Structural)]
pub enum Layout {
    Main,
    Editor,
}

/// The buttons of each screen, in the order they are drawn and searched.
pub open spec fn layout_buttons(layout: Layout) -> Seq<Control> {
    match layout {
        Layout::Main => seq![Control::SetClock, Control::SetSchedule, Control::LampToggle],
        Layout::Editor => seq![
            Control::HourDown,
            Control::HourUp,
            Control::MinuteDown,
            Control::MinuteUp,
            Control::Cancel,
            Control::Confirm,
        ],
    }
}

/// Width of a half-row button.
pub open spec fn half_width(screen_width: int) -> int {
    div_toward_zero(screen_width - 2 * MARGIN - GAP, 2)
}

/// The left or right half of a row.
pub open spec fn half_rect(screen_width: int, right: bool, top: i32, height: u32) -> Rect {
    let w = half_width(screen_width);
    Rect {
        x: (if right {
            MARGIN + w + GAP
        } else {
            MARGIN as int
        }) as i32,
        y: top,
        width: w as u32,
        height,
    }
}

/// Each lamp-screen button's rectangle: the editor's steppers take the top
/// row's four columns, the main screen's toggle the full bottom row, and
/// the others half a row each.
pub open spec fn control_rect(control: Control, screen_width: int) -> Rect {
    match control {
        Control::HourDown => column_rect(Button::Add1, screen_width),
        Control::HourUp => column_rect(Button::Add5, screen_width),
        Control::MinuteDown => column_rect(Button::Add15, screen_width),
        Control::MinuteUp => column_rect(Button::Clear, screen_width),
        Control::SetClock => half_rect(screen_width, false, LAMP_ROW1_TOP, LAMP_ROW1_HEIGHT),
        Control::SetSchedule => half_rect(screen_width, true, LAMP_ROW1_TOP, LAMP_ROW1_HEIGHT),
        Control::LampToggle => Rect {
            x: MARGIN,
            y: LAMP_ROW2_TOP,
            width: (screen_width - 2 * MARGIN) as u32,
            height: LAMP_ROW2_HEIGHT,
        },
        Control::Cancel => half_rect(screen_width, false, LAMP_ROW2_TOP, LAMP_ROW2_HEIGHT),
        Control::Confirm => half_rect(screen_width, true, LAMP_ROW2_TOP, LAMP_ROW2_HEIGHT),
    }
}

/// One of the `ui` grid's four top-row columns, in the lamp screens' top
/// row.
pub open spec fn column_rect(b: Button, screen_width: int) -> Rect {
    let r = button_rect(b, screen_width);
    Rect { x: r.x, y: LAMP_ROW1_TOP, width: r.width, height: LAMP_ROW1_HEIGHT }
}

/// The first of `buttons`, from the `i`th on, whose rectangle contains `p`.
pub open spec fn hit_from(buttons: Seq<Control>, p: Point, screen_width: int, i: int) -> Option<
    Control,
>
    decreases buttons.len() - i,
{
    if i < 0 || i >= buttons.len() {
        None
    } else if control_rect(buttons[i], screen_width).spec_contains(p) {
        Some(buttons[i])
    } else {
        hit_from(buttons, p, screen_width, i + 1)
    }
}

/// Whether that search, from the `i`th button on, only tests rectangles
/// whose corners fit in `i32`.
pub open spec fn hit_fits(buttons: Seq<Control>, p: Point, screen_width: int, i: int) -> bool
    decreases buttons.len() - i,
{
    if i < 0 || i >= buttons.len() {
        true
    } else {
        let r = control_rect(buttons[i], screen_width);
        r.can_test(p) && (r.spec_contains(p) || hit_fits(buttons, p, screen_width, i + 1))
    }
}

fn half(screen_width: i32, right: bool, top: i32, height: u32) -> (r: Rect)
    requires
        screen_width - 2 * MARGIN - 3 * GAP >= i32::MIN,
    ensures
        r == half_rect(screen_width as int, right, top, height),
{
    let span: i32 = screen_width - 2 * MARGIN - GAP;
    let w: i32 = if span >= 0 {
        span / 2
    } else {
        let neg: i64 = -(span as i64);
        -((neg / 2) as i32)
    };
    let x = if right {
        MARGIN + w + GAP
    } else {
        MARGIN
    };
    Rect { x, y: top, width: w as u32, height }
}

fn column(b: Button, screen_width: i32) -> (r: Rect)
    requires
        screen_width - 2 * MARGIN - 3 * GAP >= i32::MIN,
    ensures
        r == column_rect(b, screen_width as int),
{
    let r = b.rect(screen_width);
    Rect { x: r.x, y: LAMP_ROW1_TOP, width: r.width, height: LAMP_ROW1_HEIGHT }
}

/// A lamp-screen button's rectangle on a screen `screen_width` wide.
pub fn rect(control: Control, screen_width: i32) -> (r: Rect)
    requires
        screen_width - 2 * MARGIN - 3 * GAP >= i32::MIN,
    ensures
        r == control_rect(control, screen_width as int),
{
    match control {
        Control::HourDown => column(Button::Add1, screen_width),
        Control::HourUp => column(Button::Add5, screen_width),
        Control::MinuteDown => column(Button::Add15, screen_width),
        Control::MinuteUp => column(Button::Clear, screen_width),
        Control::SetClock => half(screen_width, false, LAMP_ROW1_TOP, LAMP_ROW1_HEIGHT),
        Control::SetSchedule => half(screen_width, true, LAMP_ROW1_TOP, LAMP_ROW1_HEIGHT),
        Control::LampToggle => Rect {
            x: MARGIN,
            y: LAMP_ROW2_TOP,
            width: (screen_width - 2 * MARGIN) as u32,
            height: LAMP_ROW2_HEIGHT,
        },
        Control::Cancel => half(screen_width, false, LAMP_ROW2_TOP, LAMP_ROW2_HEIGHT),
        Control::Confirm => half(screen_width, true, LAMP_ROW2_TOP, LAMP_ROW2_HEIGHT),
    }
}

impl Layout {
    /// The buttons of this screen, in drawing order.
    pub fn buttons(self) -> (r: Vec<Control>)
        ensures
            r@ == layout_buttons(self),
    {
        match self {
            Layout::Main => vec![Control::SetClock, Control::SetSchedule, Control::LampToggle],
            Layout::Editor => vec![
                Control::HourDown,
                Control::HourUp,
                Control::MinuteDown,
                Control::MinuteUp,
                Control::Cancel,
                Control::Confirm,
            ],
        }
    }

    /// Which button of this screen, if any, contains a touch point.
    pub fn button_at(self, point: Point, screen_width: i32) -> (r: Option<Control>)
        requires
            screen_width - 2 * MARGIN - 3 * GAP >= i32::MIN,
            hit_fits(layout_buttons(self), point, screen_width as int, 0),
        ensures
            r == hit_from(layout_buttons(self), point, screen_width as int, 0),
    {
        let buttons = self.buttons();
        let ghost all = layout_buttons(self);
        let mut i: usize = 0;
        while i < buttons.len()
            invariant
                i <= buttons@.len(),
                buttons@ == all,
                all == layout_buttons(self),
                screen_width - 2 * MARGIN - 3 * GAP >= i32::MIN,
                hit_fits(all, point, screen_width as int, i as int),
                hit_from(all, point, screen_width as int, 0) == hit_from(
                    all,
                    point,
                    screen_width as int,
                    i as int,
                ),
            decreases buttons@.len() - i,
        {
            let c = buttons[i];
            let r = rect(c, screen_width);
            if r.contains(point) {
                assert(hit_from(all, point, screen_width as int, i as int) == Some(c));
                return Some(c);
            }
            i += 1;
        }
        None
    }
}

/// On a screen at least as wide as the margins and gaps, every lamp-screen
/// rectangle can be tested against any point.
pub proof fn lemma_hit_fits(layout: Layout, p: Point, screen_width: int, i: int)
    requires
        2 * MARGIN + 3 * GAP <= screen_width <= i32::MAX,
        0 <= i <= layout_buttons(layout).len(),
    ensures
        hit_fits(layout_buttons(layout), p, screen_width, i),
    decreases layout_buttons(layout).len() - i,
{
    if i < layout_buttons(layout).len() {
        lemma_hit_fits(layout, p, screen_width, i + 1);
    }
}

/// On a screen at least as wide as the margins and gaps, a screen's buttons
/// do not overlap: a point is reported as a button exactly when it lies in
/// that button's rectangle.
pub proof fn lemma_layout_does_not_overlap(layout: Layout, p: Point, screen_width: int, c: Control)
    requires
        2 * MARGIN + 3 * GAP <= screen_width <= i32::MAX,
        layout_buttons(layout).contains(c),
    ensures
        hit_from(layout_buttons(layout), p, screen_width, 0) == Some(c) <==> control_rect(
            c,
            screen_width,
        ).spec_contains(p),
{
    let b = layout_buttons(layout);
    reveal_with_fuel(hit_from, 7);
    assert(b.contains(c) ==> exists|i: int| 0 <= i < b.len() && b[i] == c);
}

/// The lamp screens' lines and rows are stacked without overlap: the
/// clock digits, the status line, the detail line, the top button row and
/// the bottom button row each end before the next begins, the last one on
/// the screen, and every button lies within its row.
pub proof fn lemma_lines_and_rows_apart(c: Control, screen_width: int)
    requires
        2 * MARGIN + 3 * GAP <= screen_width <= i32::MAX,
    ensures
        DIGITS_TOP + DIGITS_HEIGHT < STATUS_BASELINE - TEXT_ASCENT,
        STATUS_BASELINE + TEXT_DESCENT < DETAIL_BASELINE - TEXT_ASCENT,
        DETAIL_BASELINE + TEXT_DESCENT < LAMP_ROW1_TOP,
        LAMP_ROW1_TOP + LAMP_ROW1_HEIGHT < LAMP_ROW2_TOP,
        LAMP_ROW2_TOP + LAMP_ROW2_HEIGHT <= HEIGHT,
        control_rect(c, screen_width).y == LAMP_ROW1_TOP ==> control_rect(c, screen_width).height
            == LAMP_ROW1_HEIGHT,
        control_rect(c, screen_width).y == LAMP_ROW1_TOP || control_rect(c, screen_width).y
            == LAMP_ROW2_TOP,
        control_rect(c, screen_width).y == LAMP_ROW2_TOP ==> control_rect(c, screen_width).height
            == LAMP_ROW2_HEIGHT,
{
}

/// The lamp screens' buttons sit in order: HOUR -, HOUR +, MIN -, MIN + from
/// left to right in the top row; SET CLOCK left of SCHEDULE in the top row;
/// CANCEL left of SAVE/NEXT in the bottom row, each half a row wide; TURN
/// LAMP spanning the bottom row from margin to margin.
pub proof fn lemma_lamp_grid(screen_width: int)
    requires
        2 * MARGIN + 3 * GAP <= screen_width <= i32::MAX,
    ensures
        ({
            let r = |c: Control| control_rect(c, screen_width);
            &&& r(Control::HourDown).x == MARGIN
            &&& r(Control::HourDown).x < r(Control::HourUp).x
            &&& r(Control::HourUp).x < r(Control::MinuteDown).x
            &&& r(Control::MinuteDown).x < r(Control::MinuteUp).x
            &&& r(Control::SetClock).x == MARGIN
            &&& r(Control::SetClock).x + r(Control::SetClock).width + GAP == r(Control::SetSchedule).x
            &&& r(Control::SetSchedule).width == r(Control::SetClock).width
            &&& r(Control::SetSchedule).x + r(Control::SetSchedule).width <= screen_width - MARGIN
            &&& r(Control::Cancel).x == MARGIN
            &&& r(Control::Cancel).x + r(Control::Cancel).width + GAP == r(Control::Confirm).x
            &&& r(Control::Confirm).width == r(Control::Cancel).width
            &&& r(Control::LampToggle).x == MARGIN
            &&& r(Control::LampToggle).x + r(Control::LampToggle).width == screen_width - MARGIN
            &&& r(Control::HourDown).y == LAMP_ROW1_TOP && r(Control::MinuteUp).y == LAMP_ROW1_TOP
            &&& r(Control::SetClock).y == LAMP_ROW1_TOP && r(Control::SetSchedule).y == LAMP_ROW1_TOP
            &&& r(Control::Cancel).y == LAMP_ROW2_TOP && r(Control::Confirm).y == LAMP_ROW2_TOP
            &&& r(Control::LampToggle).y == LAMP_ROW2_TOP
        }),
{
}

} // verus!
