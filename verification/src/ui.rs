//! Screen layout shared by the renderer and the touch mapper: one source
//! of truth for where each button lives.
//!
//! 480x320 landscape:
//!   y  16..126  countdown digits (seven-segment)
//!   y     150   status line ("LAMP ON" / "LAMP OFF" / "DONE")
//!   y 165..225  +1 / +5 / +15 / CLEAR
//!   y 240..304  START / STOP

use vstd::prelude::*;

verus! {

/// A point on the screen, in pixels from the top-left corner.
#[derive(Debug, Clone, Copy, PartialEq, Eq, Structural)]
pub struct Point {
    pub x: i32,
    pub y: i32,
}

/// An axis-aligned rectangle: its top-left corner and its size.
#[derive(Debug, Clone, Copy, PartialEq, Eq, Structural)]
pub struct Rect {
    pub x: i32,
    pub y: i32,
    pub width: u32,
    pub height: u32,
}

impl Rect {
    /// Whether `p` lies inside: an empty rectangle contains nothing.
    pub open spec fn spec_contains(self, p: Point) -> bool {
        &&& self.width > 0
        &&& self.height > 0
        &&& self.x <= p.x <= self.x + self.width - 1
        &&& self.y <= p.y <= self.y + self.height - 1
    }

    /// Whether testing `p` against this rectangle stays within `i32`: the
    /// bottom-right corner is only computed when `p` is right of and below
    /// the top-left corner and the rectangle is not empty.
    pub open spec fn can_test(self, p: Point) -> bool {
        (p.x >= self.x && p.y >= self.y && self.width > 0 && self.height > 0) ==> {
            &&& self.width <= i32::MAX
            &&& self.height <= i32::MAX
            &&& self.x + self.width <= i32::MAX
            &&& self.y + self.height <= i32::MAX
        }
    }

    /// Whether `p` lies inside this rectangle.
    pub fn contains(&self, p: Point) -> (r: bool)
        requires
            self.can_test(p),
        ensures
            r == self.spec_contains(p),
    {
        rectangle_contains(*self, p)
    }
}

/// Trusted: `embedded_graphics::primitives::Rectangle::contains` on the
/// same corner and size. Its source tests the top-left corner, then,
/// unless the width or height is zero, the bottom-right corner
/// `top_left + size - (1, 1)`; that addition overflows (a panic in debug
/// builds) only where `can_test` fails.
#[verifier::external_body]
fn rectangle_contains(rect: Rect, p: Point) -> (r: bool)
    requires
        rect.can_test(p),
    ensures
        r == rect.spec_contains(p),
{
    embedded_graphics::primitives::Rectangle::new(
        embedded_graphics::prelude::Point::new(rect.x, rect.y),
        embedded_graphics::prelude::Size::new(rect.width, rect.height),
    ).contains(embedded_graphics::prelude::Point::new(p.x, p.y))
}

#[derive(Debug, Clone, Copy, PartialEq, Eq, Structural)]
pub enum Button {
    Add1,
    Add5,
    Add15,
    Clear,
    StartStop,
}

pub const DIGITS_TOP: i32 = 16;

pub const DIGITS_HEIGHT: u32 = 110;

pub const STATUS_BASELINE: i32 = 150;

pub const MARGIN: i32 = 16;

pub const GAP: i32 = 12;

pub const ROW1_TOP: i32 = 165;

pub const ROW1_HEIGHT: u32 = 60;

pub const ROW2_TOP: i32 = 240;

pub const ROW2_HEIGHT: u32 = 64;

/// Integer division rounding toward zero, as Rust's `/` does.
pub open spec fn div_toward_zero(a: int, b: int) -> int {
    if a >= 0 {
        a / b
    } else {
        -((-a) / b)
    }
}

/// Width of each of the four buttons in the top row.
pub open spec fn row1_width(screen_width: int) -> int {
    div_toward_zero(screen_width - 2 * MARGIN - 3 * GAP, 4)
}

/// The buttons' rectangles on a screen `screen_width` pixels wide: four
/// equal columns in the top row, one full-width button below.
pub open spec fn button_rect(b: Button, screen_width: int) -> Rect {
    let w = row1_width(screen_width);
    let col = match b {
        Button::Add1 => 0int,
        Button::Add5 => 1,
        Button::Add15 => 2,
        Button::Clear => 3,
        Button::StartStop => 0,
    };
    match b {
        Button::StartStop => Rect {
            x: MARGIN,
            y: ROW2_TOP,
            width: (screen_width - 2 * MARGIN) as u32,
            height: ROW2_HEIGHT,
        },
        _ => Rect {
            x: (MARGIN + col * (w + GAP)) as i32,
            y: ROW1_TOP,
            width: w as u32,
            height: ROW1_HEIGHT,
        },
    }
}

/// The button under `p`, trying them in `Button::ALL` order.
pub open spec fn button_at(p: Point, screen_width: int) -> Option<Button> {
    if button_rect(Button::Add1, screen_width).spec_contains(p) {
        Some(Button::Add1)
    } else if button_rect(Button::Add5, screen_width).spec_contains(p) {
        Some(Button::Add5)
    } else if button_rect(Button::Add15, screen_width).spec_contains(p) {
        Some(Button::Add15)
    } else if button_rect(Button::Clear, screen_width).spec_contains(p) {
        Some(Button::Clear)
    } else if button_rect(Button::StartStop, screen_width).spec_contains(p) {
        Some(Button::StartStop)
    } else {
        None
    }
}

/// The buttons in `Button::ALL` order.
pub open spec fn nth_button(i: int) -> Button {
    if i == 0 {
        Button::Add1
    } else if i == 1 {
        Button::Add5
    } else if i == 2 {
        Button::Add15
    } else if i == 3 {
        Button::Clear
    } else {
        Button::StartStop
    }
}

/// Whether searching for the button under `p`, from the `i`th button on,
/// only tests rectangles whose corners fit in `i32`; the search stops at
/// the first button that contains `p`.
pub open spec fn search_fits(p: Point, screen_width: int, i: int) -> bool
    decreases 5 - i,
{
    if i >= 5 || i < 0 {
        true
    } else {
        let r = button_rect(nth_button(i), screen_width);
        r.can_test(p) && (r.spec_contains(p) || search_fits(p, screen_width, i + 1))
    }
}

impl Button {
    pub const ALL: [Button; 5] = [
        Button::Add1,
        Button::Add5,
        Button::Add15,
        Button::Clear,
        Button::StartStop,
    ];

    pub fn rect(self, screen_width: i32) -> (r: Rect)
        requires
            screen_width - 2 * MARGIN - 3 * GAP >= i32::MIN,
        ensures
            r == button_rect(self, screen_width as int),
    {
        let span: i32 = screen_width - 2 * MARGIN - 3 * GAP;
        let row1_w: i32 = if span >= 0 {
            span / 4
        } else {
            let neg: i64 = -(span as i64);
            -((neg / 4) as i32)
        };
        proof {
            assert(row1_w == row1_width(screen_width as int));
        }
        match self {
            Button::Add1 => Rect { x: MARGIN, y: ROW1_TOP, width: row1_w as u32, height: ROW1_HEIGHT },
            Button::Add5 => Rect {
                x: MARGIN + (row1_w + GAP),
                y: ROW1_TOP,
                width: row1_w as u32,
                height: ROW1_HEIGHT,
            },
            Button::Add15 => Rect {
                x: MARGIN + 2 * (row1_w + GAP),
                y: ROW1_TOP,
                width: row1_w as u32,
                height: ROW1_HEIGHT,
            },
            Button::Clear => Rect {
                x: MARGIN + 3 * (row1_w + GAP),
                y: ROW1_TOP,
                width: row1_w as u32,
                height: ROW1_HEIGHT,
            },
            Button::StartStop => Rect {
                x: MARGIN,
                y: ROW2_TOP,
                width: (screen_width - 2 * MARGIN) as u32,
                height: ROW2_HEIGHT,
            },
        }
    }

    pub fn label(self, running: bool) -> (r: &'static str)
        ensures
            r@ == (match self {
                Button::Add1 => "+1 MIN"@,
                Button::Add5 => "+5 MIN"@,
                Button::Add15 => "+15 MIN"@,
                Button::Clear => "CLEAR"@,
                Button::StartStop => if running {
                    "STOP"@
                } else {
                    "START"@
                },
            }),
    {
        match self {
            Button::Add1 => "+1 MIN",
            Button::Add5 => "+5 MIN",
            Button::Add15 => "+15 MIN",
            Button::Clear => "CLEAR",
            Button::StartStop => if running {
                "STOP"
            } else {
                "START"
            },
        }
    }

    /// Which button, if any, contains a touch point.
    pub fn at(point: Point, screen_width: i32) -> (r: Option<Button>)
        requires
            screen_width - 2 * MARGIN - 3 * GAP >= i32::MIN,
            search_fits(point, screen_width as int, 0),
        ensures
            r == button_at(point, screen_width as int),
    {
        let all = [Button::Add1, Button::Add5, Button::Add15, Button::Clear, Button::StartStop];
        let mut i: usize = 0;
        while i < 5
            invariant
                i <= 5,
                all@ == seq![Button::Add1, Button::Add5, Button::Add15, Button::Clear, Button::StartStop],
                screen_width - 2 * MARGIN - 3 * GAP >= i32::MIN,
                search_fits(point, screen_width as int, i as int),
                forall|j: int| 0 <= j < 5 ==> all@[j] == nth_button(j),
                forall|j: int| 0 <= j < i ==> !button_rect(#[trigger] all@[j], screen_width as int).spec_contains(point),
            decreases 5 - i,
        {
            let b = all[i];
            let rect = b.rect(screen_width);
            if rect.contains(point) {
                return Some(b);
            }
            i += 1;
        }
        None
    }
}

/// On a screen at least as wide as the margins and gaps, every button's
/// rectangle can be tested against any point.
pub proof fn lemma_search_fits(p: Point, screen_width: int, i: int)
    requires
        2 * MARGIN + 3 * GAP <= screen_width <= i32::MAX,
        0 <= i <= 5,
    ensures
        search_fits(p, screen_width, i),
    decreases 5 - i,
{
    if i < 5 {
        lemma_search_fits(p, screen_width, i + 1);
    }
}

/// On a screen at least as wide as the margins and gaps, the buttons do
/// not overlap: a point is reported as a button exactly when it lies in
/// that button's rectangle.
pub proof fn lemma_buttons_do_not_overlap(p: Point, screen_width: int, b: Button)
    requires
        2 * MARGIN + 3 * GAP <= screen_width <= i32::MAX,
    ensures
        button_at(p, screen_width) == Some(b) <==> button_rect(b, screen_width).spec_contains(p),
{
}

/// The countdown grid: the four top-row buttons are equally wide, in the
/// order +1, +5, +15, CLEAR from left to right, a gap apart, starting at
/// the margin and ending within it; START/STOP spans the row below from
/// margin to margin.
pub proof fn lemma_button_grid(screen_width: int)
    requires
        2 * MARGIN + 3 * GAP <= screen_width <= i32::MAX,
    ensures
        ({
            let a = button_rect(Button::Add1, screen_width);
            let b = button_rect(Button::Add5, screen_width);
            let c = button_rect(Button::Add15, screen_width);
            let d = button_rect(Button::Clear, screen_width);
            let s = button_rect(Button::StartStop, screen_width);
            &&& a.width == b.width && b.width == c.width && c.width == d.width
            &&& a.x == MARGIN
            &&& b.x == a.x + a.width + GAP
            &&& c.x == b.x + b.width + GAP
            &&& d.x == c.x + c.width + GAP
            &&& d.x + d.width <= screen_width - MARGIN < d.x + d.width + 4
            &&& a.y == ROW1_TOP && b.y == ROW1_TOP && c.y == ROW1_TOP && d.y == ROW1_TOP
            &&& s.x == MARGIN && s.x + s.width == screen_width - MARGIN && s.y == ROW2_TOP
            &&& ROW1_TOP + ROW1_HEIGHT < ROW2_TOP
        }),
{
}

} // verus!
