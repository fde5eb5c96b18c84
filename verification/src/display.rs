//! What the HX8357D panel (480x320, landscape) shows: the screens' content
//! decisions, the seven-segment clock geometry, and the RGB565 framebuffer
//! that the SPI driver in the application streams to the panel in one
//! burst. Pixels are stored big-endian (RGB565 high byte first), the order
//! the panel expects on the wire.

use vstd::prelude::*;
use vstd::string::StringExecFns;

use crate::control::Control;
use crate::editor::Editor;
use crate::schedule::{Minutes, Schedule};
use crate::ui::{Rect, DIGITS_HEIGHT, DIGITS_TOP};

verus! {

pub const WIDTH: usize = 480;

pub const HEIGHT: usize = 320;

/// Seven-segment glyph index for "-", shown while the clock is unset.
pub const DASH: u8 = 10;

/// Width of one seven-segment digit.
pub const DIGIT_W: i32 = 64;

/// Width of the colon between hours and minutes.
pub const COLON_W: i32 = 24;

/// Space between two glyphs.
pub const GLYPH_GAP: i32 = 12;

/// Thickness of a segment.
pub const THICK: i32 = 12;

/// The colours the screens use; the application maps them to RGB565.
#[derive(Debug, Clone, Copy, PartialEq, Eq, Structural)]
pub enum Color {
    Black,
    White,
    Green,
    Gray,
    DimGray,
    Orange,
    ButtonNeutral,
    ButtonGo,
    ButtonStop,
}

// ---------------------------------------------------------------------
// Text
// ---------------------------------------------------------------------

/// The decimal digit `d` as a character.
pub open spec fn digit_char(d: int) -> char {
    (48 + d) as char
}

/// `n` in decimal, without leading zeros.
pub open spec fn decimal(n: nat) -> Seq<char>
    decreases n,
{
    if n < 10 {
        seq![digit_char(n as int)]
    } else {
        decimal(n / 10).push(digit_char((n % 10) as int))
    }
}

/// `n` in decimal, zero-padded to at least two digits (`{:02}`).
pub open spec fn two_digits(n: nat) -> Seq<char> {
    if n < 10 {
        seq!['0', digit_char(n as int)]
    } else {
        decimal(n)
    }
}

/// A time of day as `HH:MM`.
pub open spec fn clock_text(t: Minutes) -> Seq<char> {
    two_digits((t / 60) as nat) + seq![':'] + two_digits((t % 60) as nat)
}

/// Appends `c`.
///
/// Trusted: calls `String::push`, which appends one character.
#[verifier::external_body]
fn push_char(s: &mut String, c: char)
    ensures
        final(s)@ == old(s)@.push(c),
{
    s.push(c);
}

fn digit(d: u16) -> (c: char)
    requires
        d < 10,
    ensures
        c == digit_char(d as int),
{
    let b: u8 = 48 + d as u8;
    b as char
}

fn push_decimal(s: &mut String, n: u16)
    ensures
        final(s)@ == old(s)@ + decimal(n as nat),
    decreases n,
{
    if n >= 10 {
        push_decimal(s, n / 10);
    }
    push_char(s, digit(n % 10));
    proof {
        if n < 10 {
            assert(n % 10 == n);
        }
    }
}

fn push_two_digits(s: &mut String, n: u16)
    ensures
        final(s)@ == old(s)@ + two_digits(n as nat),
{
    if n < 10 {
        push_char(s, '0');
    }
    push_decimal(s, n);
    proof {
        if n < 10 {
            assert(old(s)@.push('0') + decimal(n as nat) =~= old(s)@ + two_digits(n as nat));
        }
    }
}

/// A time of day as `HH:MM`.
pub fn hhmm(t: Minutes) -> (r: String)
    ensures
        r@ == clock_text(t),
{
    let mut s = String::new();
    push_two_digits(&mut s, t / 60);
    push_char(&mut s, ':');
    push_two_digits(&mut s, t % 60);
    proof {
        assert(s@ =~= clock_text(t));
    }
    s
}

// ---------------------------------------------------------------------
// Screen content
// ---------------------------------------------------------------------

/// Everything the main screen shows; the main loop redraws when it changes.
#[derive(Debug, Clone, Copy, PartialEq, Eq, Structural)]
pub struct MainView {
    /// None while the clock is unset.
    pub time: Option<Minutes>,
    /// Time came from the flash checkpoint and has not been confirmed.
    pub restored: bool,
    pub lamp_on: bool,
    pub manual: bool,
    pub schedule: Schedule,
}

/// The main screen's text lines and colours.
pub struct MainScreen {
    pub digits: Color,
    pub status: &'static str,
    pub status_color: Color,
    pub detail: String,
    pub detail_color: Color,
}

/// The schedule line, `ON 17:00 - OFF 00:00 DAILY`.
pub open spec fn schedule_text(s: Schedule) -> Seq<char> {
    "ON "@ + clock_text(s.on) + " - OFF "@ + clock_text(s.off) + " DAILY"@
}

/// Clock digits: grey dashes while the clock is unset, orange when the
/// time was restored after a power cut, green while the lamp is on, white
/// when off.
pub open spec fn digit_color(view: MainView) -> Color {
    match view.time {
        None => Color::DimGray,
        Some(_) => if view.restored {
            Color::Orange
        } else if view.lamp_on {
            Color::Green
        } else {
            Color::White
        },
    }
}

/// The status line: `LAMP ON` / `LAMP OFF`, with ` - MANUAL` during an
/// override.
pub open spec fn status_text(view: MainView) -> Seq<char> {
    if view.lamp_on {
        if view.manual {
            "LAMP ON - MANUAL"@
        } else {
            "LAMP ON"@
        }
    } else {
        if view.manual {
            "LAMP OFF - MANUAL"@
        } else {
            "LAMP OFF"@
        }
    }
}

/// The detail line: the schedule, or a clock warning.
pub open spec fn detail_text(view: MainView) -> Seq<char> {
    match view.time {
        None => "CLOCK NOT SET - TAP SET CLOCK"@,
        Some(_) => if view.restored {
            "POWER WAS LOST - CHECK THE CLOCK"@
        } else {
            schedule_text(view.schedule)
        },
    }
}

pub open spec fn detail_color(view: MainView) -> Color {
    match view.time {
        None => Color::Orange,
        Some(_) => if view.restored {
            Color::Orange
        } else {
            Color::Gray
        },
    }
}

/// Main screen: clock colour, lamp state, schedule or clock warning.
pub fn main_screen(view: &MainView) -> (r: MainScreen)
    ensures
        r.digits == digit_color(*view),
        view.time is Some && view.restored ==> r.digits == Color::Orange,
        view.time is None ==> r.digits == Color::DimGray,
        r.status@ == status_text(*view),
        r.status_color == (if view.lamp_on {
            Color::Green
        } else {
            Color::Gray
        }),
        r.detail@ == detail_text(*view),
        r.detail_color == detail_color(*view),
{
    let digits = match view.time {
        None => Color::DimGray,
        Some(_) => if view.restored {
            Color::Orange
        } else if view.lamp_on {
            Color::Green
        } else {
            Color::White
        },
    };
    let (status, status_color) = match (view.lamp_on, view.manual) {
        (true, false) => ("LAMP ON", Color::Green),
        (true, true) => ("LAMP ON - MANUAL", Color::Green),
        (false, false) => ("LAMP OFF", Color::Gray),
        (false, true) => ("LAMP OFF - MANUAL", Color::Gray),
    };
    let (detail, detail_color) = match view.time {
        None => (String::from_str("CLOCK NOT SET - TAP SET CLOCK"), Color::Orange),
        Some(_) => if view.restored {
            (String::from_str("POWER WAS LOST - CHECK THE CLOCK"), Color::Orange)
        } else {
            let line = String::from_str("ON ").concat(hhmm(view.schedule.on).as_str()).concat(
                " - OFF ",
            ).concat(hhmm(view.schedule.off).as_str()).concat(" DAILY");
            (line, Color::Gray)
        },
    };
    MainScreen { digits, status, status_color, detail, detail_color }
}

/// A main-screen button's label and fill.
pub fn main_button(view: &MainView, button: Control) -> (r: (&'static str, Color))
    ensures
        r.0@ == (match button {
            Control::LampToggle => if view.lamp_on {
                "TURN LAMP OFF"@
            } else {
                "TURN LAMP ON"@
            },
            Control::SetClock => "SET CLOCK"@,
            _ => "SCHEDULE"@,
        }),
        r.1 == (match button {
            Control::LampToggle => if view.lamp_on {
                Color::ButtonStop
            } else {
                Color::ButtonGo
            },
            _ => Color::ButtonNeutral,
        }),
{
    match button {
        Control::LampToggle => if view.lamp_on {
            ("TURN LAMP OFF", Color::ButtonStop)
        } else {
            ("TURN LAMP ON", Color::ButtonGo)
        },
        Control::SetClock => ("SET CLOCK", Color::ButtonNeutral),
        _ => ("SCHEDULE", Color::ButtonNeutral),
    }
}

/// The editor screen's text: the title, the detail line, and the label of
/// the confirm button.
pub struct EditorScreen {
    pub title: &'static str,
    pub detail: String,
    pub confirm: &'static str,
}

pub open spec fn editor_title(e: Editor) -> Seq<char> {
    match e {
        Editor::Clock(_) => "SET CLOCK"@,
        Editor::LampOn(_) => "LAMP TURNS ON AT"@,
        Editor::LampOff { .. } => "LAMP TURNS OFF AT"@,
    }
}

pub open spec fn editor_detail(e: Editor) -> Seq<char> {
    match e {
        Editor::LampOff { on, .. } => "TURNS ON AT "@ + clock_text(on),
        _ => "HOLD A BUTTON TO REPEAT"@,
    }
}

/// SAVE, except NEXT on the first schedule step.
pub open spec fn confirm_label(e: Editor) -> Seq<char> {
    match e {
        Editor::LampOn(_) => "NEXT"@,
        _ => "SAVE"@,
    }
}

/// Time-entry screen for the clock and both schedule steps.
pub fn editor_screen(editor: &Editor) -> (r: EditorScreen)
    ensures
        r.title@ == editor_title(*editor),
        r.detail@ == editor_detail(*editor),
        r.confirm@ == confirm_label(*editor),
{
    match editor {
        Editor::Clock(_) => EditorScreen {
            title: "SET CLOCK",
            detail: String::from_str("HOLD A BUTTON TO REPEAT"),
            confirm: "SAVE",
        },
        Editor::LampOn(_) => EditorScreen {
            title: "LAMP TURNS ON AT",
            detail: String::from_str("HOLD A BUTTON TO REPEAT"),
            confirm: "NEXT",
        },
        Editor::LampOff { on, .. } => EditorScreen {
            title: "LAMP TURNS OFF AT",
            detail: String::from_str("TURNS ON AT ").concat(hhmm(*on).as_str()),
            confirm: "SAVE",
        },
    }
}

/// An editor button's label and fill; `confirm` labels the confirm button.
pub fn editor_button(button: Control, confirm: &'static str) -> (r: (&'static str, Color))
    ensures
        r.0@ == (match button {
            Control::HourDown => "HOUR -"@,
            Control::HourUp => "HOUR +"@,
            Control::MinuteDown => "MIN -"@,
            Control::MinuteUp => "MIN +"@,
            Control::Cancel => "CANCEL"@,
            _ => confirm@,
        }),
        r.1 == (match button {
            Control::Cancel => Color::ButtonStop,
            Control::HourDown | Control::HourUp | Control::MinuteDown | Control::MinuteUp =>
                Color::ButtonNeutral,
            _ => Color::ButtonGo,
        }),
{
    match button {
        Control::HourDown => ("HOUR -", Color::ButtonNeutral),
        Control::HourUp => ("HOUR +", Color::ButtonNeutral),
        Control::MinuteDown => ("MIN -", Color::ButtonNeutral),
        Control::MinuteUp => ("MIN +", Color::ButtonNeutral),
        Control::Cancel => ("CANCEL", Color::ButtonStop),
        _ => (confirm, Color::ButtonGo),
    }
}

// ---------------------------------------------------------------------
// Seven-segment clock
// ---------------------------------------------------------------------

/// The lit segments of each glyph, digits 0-9 then `DASH`. Bits: a=top,
/// b=top-right, c=bottom-right, d=bottom, e=bottom-left, f=top-left,
/// g=middle.
pub open spec fn segment_mask(glyph: int) -> u8 {
    if glyph == 0 {
        0b0111111
    } else if glyph == 1 {
        0b0000110
    } else if glyph == 2 {
        0b1011011
    } else if glyph == 3 {
        0b1001111
    } else if glyph == 4 {
        0b1100110
    } else if glyph == 5 {
        0b1101101
    } else if glyph == 6 {
        0b1111101
    } else if glyph == 7 {
        0b0000111
    } else if glyph == 8 {
        0b1111111
    } else if glyph == 9 {
        0b1101111
    } else {
        0b1000000
    }
}

fn segments_of(glyph: u8) -> (r: u8)
    ensures
        r == segment_mask((glyph % 11) as int),
{
    match glyph % 11 {
        0 => 0b0111111,
        1 => 0b0000110,
        2 => 0b1011011,
        3 => 0b1001111,
        4 => 0b1100110,
        5 => 0b1101101,
        6 => 0b1111101,
        7 => 0b0000111,
        8 => 0b1111111,
        9 => 0b1101111,
        _ => 0b1000000,
    }
}

/// Every glyph lights its own pattern of segments, so no two digits (or a
/// digit and the dash) look alike.
pub proof fn lemma_glyphs_distinct(a: int, b: int)
    requires
        0 <= a < 11,
        0 <= b < 11,
        a != b,
    ensures
        segment_mask(a) != segment_mask(b),
{
}

/// Whether segment `i` of `glyph` is lit (glyphs past `DASH` wrap round).
pub open spec fn lit(glyph: u8, i: int) -> bool {
    segment_mask((glyph % 11) as int) & (1u8 << (i as u8)) != 0
}

/// A filled rectangle as the renderer draws it from signed coordinates.
pub open spec fn fill(x: int, y: int, w: int, h: int) -> Rect {
    Rect { x: x as i32, y: y as i32, width: w as u32, height: h as u32 }
}

/// Segment `i` (a..g) of a glyph whose box is `x, y, w, h`, with segments
/// `t` thick.
pub open spec fn segment_rect(x: int, y: int, w: int, h: int, t: int, i: int) -> Rect {
    let mid = y + h / 2;
    let upper_y = y + t;
    let upper_h = mid - t / 2 - (y + t);
    let lower_y = mid + t / 2;
    let lower_h = (y + h - t) - (mid + t / 2);
    if i == 0 {
        fill(x + t, y, w - 2 * t, t)
    } else if i == 1 {
        fill(x + w - t, upper_y, t, upper_h)
    } else if i == 2 {
        fill(x + w - t, lower_y, t, lower_h)
    } else if i == 3 {
        fill(x + t, y + h - t, w - 2 * t, t)
    } else if i == 4 {
        fill(x, lower_y, t, lower_h)
    } else if i == 5 {
        fill(x, upper_y, t, upper_h)
    } else {
        fill(x + t, mid - t / 2, w - 2 * t, t)
    }
}

/// The lit segments among the first `n` of a glyph, in segment order.
pub open spec fn lit_segments(x: int, y: int, w: int, h: int, t: int, glyph: u8, n: int) -> Seq<
    Rect,
>
    decreases n,
{
    if n <= 0 {
        Seq::empty()
    } else {
        let before = lit_segments(x, y, w, h, t, glyph, n - 1);
        if lit(glyph, n - 1) {
            before.push(segment_rect(x, y, w, h, t, n - 1))
        } else {
            before
        }
    }
}

/// Small enough that the segment arithmetic stays within `i32`.
pub open spec fn small(v: int) -> bool {
    -1_000_000 <= v <= 1_000_000
}

/// One digit (or `DASH`) as lit segments.
fn seven_seg(out: &mut Vec<Rect>, x: i32, y: i32, w: i32, h: i32, t: i32, glyph: u8)
    requires
        small(x as int),
        small(y as int),
        0 <= w <= 1_000_000,
        0 <= h <= 1_000_000,
        0 <= t <= 1_000_000,
    ensures
        final(out)@ == old(out)@ + lit_segments(
            x as int,
            y as int,
            w as int,
            h as int,
            t as int,
            glyph,
            7,
        ),
{
    let mask = segments_of(glyph);
    let mid = y + h / 2;
    let upper_y = y + t;
    let upper_h = mid - t / 2 - (y + t);
    let lower_y = mid + t / 2;
    let lower_h = (y + h - t) - (mid + t / 2);
    let ghost start = out@;
    let mut i: u8 = 0;
    while i < 7
        invariant
            i <= 7,
            small(x as int),
            small(y as int),
            0 <= w <= 1_000_000,
            0 <= h <= 1_000_000,
            0 <= t <= 1_000_000,
            mask == segment_mask((glyph % 11) as int),
            mid == y + h / 2,
            upper_y == y + t,
            upper_h == mid - t / 2 - (y + t),
            lower_y == mid + t / 2,
            lower_h == (y + h - t) - (mid + t / 2),
            out@ == start + lit_segments(
                x as int,
                y as int,
                w as int,
                h as int,
                t as int,
                glyph,
                i as int,
            ),
        decreases 7 - i,
    {
        if mask & (1u8 << i) != 0 {
            let (sx, sy, sw, sh) = if i == 0 {
                (x + t, y, w - 2 * t, t)
            } else if i == 1 {
                (x + w - t, upper_y, t, upper_h)
            } else if i == 2 {
                (x + w - t, lower_y, t, lower_h)
            } else if i == 3 {
                (x + t, y + h - t, w - 2 * t, t)
            } else if i == 4 {
                (x, lower_y, t, lower_h)
            } else if i == 5 {
                (x, upper_y, t, upper_h)
            } else {
                (x + t, mid - t / 2, w - 2 * t, t)
            };
            out.push(Rect { x: sx, y: sy, width: sw as u32, height: sh as u32 });
        }
        i += 1;
    }
}

/// The glyphs of `HH:MM` (None is the colon); dashes while the clock is
/// unset.
pub open spec fn glyph(time: Option<Minutes>, k: int) -> Option<u8> {
    let t: int = match time {
        Some(t) => t as int,
        None => 0,
    };
    let d: int = if k == 0 {
        t / 60 / 10
    } else if k == 1 {
        t / 60 % 10
    } else if k == 3 {
        t % 60 / 10
    } else {
        t % 60 % 10
    };
    if k == 2 {
        None
    } else {
        Some(
            if time is Some {
                d as u8
            } else {
                DASH
            },
        )
    }
}

pub open spec fn glyph_width(g: Option<u8>) -> int {
    if g is Some {
        DIGIT_W as int
    } else {
        COLON_W as int
    }
}

/// Width of the first `k` glyphs.
pub open spec fn widths_before(time: Option<Minutes>, k: int) -> int
    decreases k,
{
    if k <= 0 {
        0
    } else {
        widths_before(time, k - 1) + glyph_width(glyph(time, k - 1))
    }
}

/// Left edge of the first glyph: the five glyphs and their gaps centred.
pub open spec fn time_left(time: Option<Minutes>) -> int {
    (WIDTH as int - (widths_before(time, 5) + GLYPH_GAP * 4)) / 2
}

/// Left edge of glyph `k`.
pub open spec fn glyph_left(time: Option<Minutes>, k: int) -> int
    decreases k,
{
    if k <= 0 {
        time_left(time)
    } else {
        glyph_left(time, k - 1) + glyph_width(glyph(time, k - 1)) + GLYPH_GAP
    }
}

/// The two square dots of the colon whose box starts at `x`.
pub open spec fn colon_dots(x: int) -> Seq<Rect> {
    let y = DIGITS_TOP as int;
    let h = DIGITS_HEIGHT as int;
    let cx = x + (COLON_W - THICK) / 2;
    seq![
        fill(cx, y + h / 4 - THICK / 2, THICK as int, THICK as int),
        fill(cx, y + 3 * h / 4 - THICK / 2, THICK as int, THICK as int),
    ]
}

/// The rectangles of glyph `k`.
pub open spec fn glyph_rects(time: Option<Minutes>, k: int) -> Seq<Rect> {
    match glyph(time, k) {
        Some(d) => lit_segments(
            glyph_left(time, k),
            DIGITS_TOP as int,
            DIGIT_W as int,
            DIGITS_HEIGHT as int,
            THICK as int,
            d,
            7,
        ),
        None => colon_dots(glyph_left(time, k)),
    }
}

/// The rectangles of the first `k` glyphs, in drawing order.
pub open spec fn rects_before(time: Option<Minutes>, k: int) -> Seq<Rect>
    decreases k,
{
    if k <= 0 {
        Seq::empty()
    } else {
        rects_before(time, k - 1) + glyph_rects(time, k - 1)
    }
}

/// Seven-segment HH:MM, centred across the top of the screen; dashes while
/// the clock is unset. Returns the rectangles to fill, in drawing order.
pub fn time_rects(time: Option<Minutes>) -> (r: Vec<Rect>)
    ensures
        r@ == rects_before(time, 5),
{
    let set = time.is_some();
    let t: u16 = match time {
        Some(t) => t,
        None => 0,
    };
    let glyphs: [Option<u8>; 5] = [
        Some(if set { (t / 60 / 10) as u8 } else { DASH }),
        Some(if set { (t / 60 % 10) as u8 } else { DASH }),
        None,
        Some(if set { (t % 60 / 10) as u8 } else { DASH }),
        Some(if set { (t % 60 % 10) as u8 } else { DASH }),
    ];
    proof {
        assert(forall|k: int| 0 <= k < 5 ==> glyphs@[k] == glyph(time, k));
    }
    let height = DIGITS_HEIGHT as i32;
    let mut total: i32 = 0;
    let mut k: usize = 0;
    while k < 5
        invariant
            k <= 5,
            forall|j: int| 0 <= j < 5 ==> glyphs@[j] == glyph(time, j),
            total == widths_before(time, k as int),
            0 <= total <= 64 * k,
        decreases 5 - k,
    {
        total = total + if glyphs[k].is_some() {
            DIGIT_W
        } else {
            COLON_W
        };
        k += 1;
    }
    total = total + GLYPH_GAP * 4;
    let mut x: i32 = (WIDTH as i32 - total) / 2;
    let y = DIGITS_TOP;
    let mut out: Vec<Rect> = Vec::new();
    let mut k: usize = 0;
    while k < 5
        invariant
            k <= 5,
            forall|j: int| 0 <= j < 5 ==> glyphs@[j] == glyph(time, j),
            height == DIGITS_HEIGHT,
            y == DIGITS_TOP,
            x == glyph_left(time, k as int),
            time_left(time) <= x <= time_left(time) + 76 * k,
            0 <= time_left(time) <= 240,
            out@ == rects_before(time, k as int),
        decreases 5 - k,
    {
        match glyphs[k] {
            Some(d) => {
                seven_seg(&mut out, x, y, DIGIT_W, height, THICK, d);
                x = x + DIGIT_W + GLYPH_GAP;
            },
            None => {
                let cx = x + (COLON_W - THICK) / 2;
                out.push(Rect { x: cx, y: y + height / 4 - THICK / 2, width: THICK as u32, height: THICK as u32 });
                out.push(Rect { x: cx, y: y + 3 * height / 4 - THICK / 2, width: THICK as u32, height: THICK as u32 });
                proof {
                    assert(out@ =~= rects_before(time, k as int) + colon_dots(x as int));
                }
                x = x + COLON_W + GLYPH_GAP;
            },
        }
        k += 1;
    }
    out
}

/// The clock is centred: its five glyphs and four gaps span 328 pixels
/// starting at x = 76, and an unset clock shows dashes in every digit.
pub proof fn lemma_time_layout(time: Option<Minutes>)
    ensures
        widths_before(time, 5) + GLYPH_GAP * 4 == 328,
        time_left(time) == 76,
        glyph_left(time, 4) == 340,
        time is None ==> forall|k: int| 0 <= k < 5 && k != 2 ==> glyph(time, k) == Some(DASH),
{
    reveal_with_fuel(widths_before, 6);
    reveal_with_fuel(glyph_left, 5);
}

/// Whether a rectangle lies wholly on the screen.
pub open spec fn on_screen(r: Rect) -> bool {
    &&& 0 <= r.x
    &&& 0 <= r.y
    &&& r.x + r.width <= WIDTH
    &&& r.y + r.height <= HEIGHT
}

/// Every lit segment is one of the glyph's seven segments.
proof fn lemma_lit_segments_are_segments(
    x: int,
    y: int,
    w: int,
    h: int,
    t: int,
    glyph: u8,
    n: int,
    j: int,
)
    requires
        0 <= j < lit_segments(x, y, w, h, t, glyph, n).len(),
    ensures
        exists|i: int|
            0 <= i < n && lit_segments(x, y, w, h, t, glyph, n)[j] == #[trigger] segment_rect(
                x,
                y,
                w,
                h,
                t,
                i,
            ),
    decreases n,
{
    if n > 0 {
        let before = lit_segments(x, y, w, h, t, glyph, n - 1);
        if j < before.len() {
            lemma_lit_segments_are_segments(x, y, w, h, t, glyph, n - 1, j);
            let i = choose|i: int|
                0 <= i < n - 1 && before[j] == #[trigger] segment_rect(x, y, w, h, t, i);
            assert(lit_segments(x, y, w, h, t, glyph, n)[j] == segment_rect(x, y, w, h, t, i));
        } else {
            assert(lit_segments(x, y, w, h, t, glyph, n)[j] == segment_rect(
                x,
                y,
                w,
                h,
                t,
                n - 1,
            ));
        }
    }
}

/// The glyphs' left edges: 76, 152, 228 (the colon), 264 and 340.
proof fn lemma_glyph_lefts(time: Option<Minutes>)
    ensures
        glyph_left(time, 0) == 76,
        glyph_left(time, 1) == 152,
        glyph_left(time, 2) == 228,
        glyph_left(time, 3) == 264,
        glyph_left(time, 4) == 340,
{
    reveal_with_fuel(widths_before, 6);
    reveal_with_fuel(glyph_left, 5);
}

/// The seven-segment clock stays on the screen: every rectangle it fills
/// lies wholly inside the 480x320 panel.
pub proof fn lemma_clock_on_screen(time: Option<Minutes>, j: int)
    requires
        0 <= j < rects_before(time, 5).len(),
    ensures
        on_screen(rects_before(time, 5)[j]),
{
    lemma_glyph_lefts(time);
    lemma_rects_on_screen(time, 5, j);
}

proof fn lemma_rects_on_screen(time: Option<Minutes>, k: int, j: int)
    requires
        0 <= k <= 5,
        0 <= j < rects_before(time, k).len(),
        glyph_left(time, 0) == 76,
        glyph_left(time, 1) == 152,
        glyph_left(time, 2) == 228,
        glyph_left(time, 3) == 264,
        glyph_left(time, 4) == 340,
    ensures
        on_screen(rects_before(time, k)[j]),
    decreases k,
{
    let before = rects_before(time, k - 1);
    if j < before.len() {
        lemma_rects_on_screen(time, k - 1, j);
    } else {
        let g = k - 1;
        let x = glyph_left(time, g);
        let jj = j - before.len();
        assert(rects_before(time, k)[j] == glyph_rects(time, g)[jj]);
        match glyph(time, g) {
            Some(d) => {
                lemma_lit_segments_are_segments(
                    x,
                    DIGITS_TOP as int,
                    DIGIT_W as int,
                    DIGITS_HEIGHT as int,
                    THICK as int,
                    d,
                    7,
                    jj,
                );
            },
            None => {},
        }
    }
}

/// The clock digits' colour follows the clock's state first: grey while
/// unset, orange whenever the time was restored after a power cut (whatever
/// the lamp does), and only for a confirmed time green or white for the
/// lamp on or off.
pub proof fn lemma_digit_colors(view: MainView)
    ensures
        view.time is None <==> digit_color(view) == Color::DimGray,
        (view.time is Some && view.restored) <==> digit_color(view) == Color::Orange,
        (view.time is Some && !view.restored && view.lamp_on) <==> digit_color(view)
            == Color::Green,
        (view.time is Some && !view.restored && !view.lamp_on) <==> digit_color(view)
            == Color::White,
{
}

/// The numeric value of a decimal digit character.
pub open spec fn digit_value(c: char) -> int {
    c as int - 48
}

/// `HH:MM` spells the time: for any time under a hundred hours it is five
/// characters, a colon in the middle, decimal digits around it, and the
/// hours and minutes it shows make up the time again.
pub proof fn lemma_clock_text_spells_time(t: Minutes)
    requires
        t < 6000,
    ensures
        clock_text(t).len() == 5,
        clock_text(t)[2] == ':',
        forall|k: int|
            0 <= k < 5 && k != 2 ==> 0 <= #[trigger] digit_value(clock_text(t)[k]) <= 9,
        (digit_value(clock_text(t)[0]) * 10 + digit_value(clock_text(t)[1])) * 60 + digit_value(
            clock_text(t)[3],
        ) * 10 + digit_value(clock_text(t)[4]) == t,
{
    reveal_with_fuel(decimal, 3);
    let h = (t / 60) as nat;
    let m = (t % 60) as nat;
    assert(two_digits(h) =~= seq![digit_char((h / 10) as int), digit_char((h % 10) as int)]);
    assert(two_digits(m) =~= seq![digit_char((m / 10) as int), digit_char((m % 10) as int)]);
}

/// The clock's glyphs spell the time shown: hour tens and units, the colon,
/// minute tens and units, each a decimal digit, in that order; each digit
/// glyph is the digit of `HH:MM` at the same place.
pub proof fn lemma_glyphs_spell_time(t: Minutes)
    requires
        t < 6000,
    ensures
        glyph(Some(t), 2) is None,
        forall|k: int|
            0 <= k < 5 && k != 2 ==> ((#[trigger] glyph(Some(t), k)) matches Some(d) && d < 10
                && digit_char(d as int) == clock_text(t)[k]),
        ({
            let g = |k: int| glyph(Some(t), k)->0 as int;
            &&& g(0) * 10 + g(1) == t / 60
            &&& g(3) * 10 + g(4) == t % 60
        }),
{
    reveal_with_fuel(decimal, 3);
    let h = (t / 60) as nat;
    let m = (t % 60) as nat;
    assert(two_digits(h) =~= seq![digit_char((h / 10) as int), digit_char((h % 10) as int)]);
    assert(two_digits(m) =~= seq![digit_char((m / 10) as int), digit_char((m % 10) as int)]);
}

/// The status line says the lamp's state, and ends in ` - MANUAL` exactly
/// while an override holds.
pub proof fn lemma_status_line(view: MainView)
    ensures
        status_text(view) == (if view.lamp_on {
            "LAMP ON"@
        } else {
            "LAMP OFF"@
        }) + (if view.manual {
            " - MANUAL"@
        } else {
            Seq::<char>::empty()
        }),
{
    reveal_strlit("LAMP ON");
    reveal_strlit("LAMP OFF");
    reveal_strlit(" - MANUAL");
    reveal_strlit("LAMP ON - MANUAL");
    reveal_strlit("LAMP OFF - MANUAL");
    assert("LAMP ON"@ + " - MANUAL"@ =~= "LAMP ON - MANUAL"@);
    assert("LAMP OFF"@ + " - MANUAL"@ =~= "LAMP OFF - MANUAL"@);
    assert("LAMP ON"@ + Seq::<char>::empty() =~= "LAMP ON"@);
    assert("LAMP OFF"@ + Seq::<char>::empty() =~= "LAMP OFF"@);
}

/// The confirm button reads NEXT exactly on the step after which the
/// editor stays open (the schedule's on time), and SAVE where confirming
/// closes it.
pub proof fn lemma_confirm_label(e: Editor, lamp: crate::schedule::LampView, now: Option<Minutes>)
    ensures
        confirm_label(e) == "NEXT"@ <==> crate::control::pressed(
            Some(e),
            Control::Confirm,
            lamp,
            now,
        ).0 is Some,
        confirm_label(e) == "SAVE"@ <==> crate::control::pressed(
            Some(e),
            Control::Confirm,
            lamp,
            now,
        ).0 is None,
{
    reveal_strlit("NEXT");
    reveal_strlit("SAVE");
    assert("NEXT"@[0] != "SAVE"@[0]);
}

// ---------------------------------------------------------------------
// Framebuffer
// ---------------------------------------------------------------------

/// Number of pixels on the panel.
pub const PIXELS: usize = 153_600;

/// The RGB565 value stored big-endian at byte offset `2 * i`.
pub open spec fn pixel_at(bytes: Seq<u8>, i: int) -> u16 {
    (bytes[2 * i] as int * 256 + bytes[2 * i + 1] as int) as u16
}

/// A full-screen RGB565 framebuffer, two bytes per pixel, high byte first,
/// rows top to bottom.
pub struct Framebuffer {
    bytes: Vec<u8>,
}

impl Framebuffer {
    #[verifier::type_invariant]
    spec fn full_screen(self) -> bool {
        self.bytes@.len() == 2 * PIXELS
    }

    /// The pixels, row by row.
    pub closed spec fn pixels(self) -> Seq<u16> {
        Seq::new(PIXELS as nat, |i: int| pixel_at(self.bytes@, i))
    }

    /// Every framebuffer holds one value for each pixel of the screen.
    pub proof fn lemma_pixels_len(&self)
        ensures
            self.pixels().len() == PIXELS,
    {
    }

    /// A black screen.
    pub fn new() -> (r: Self)
        ensures
            r.pixels().len() == PIXELS,
            forall|i: int| 0 <= i < PIXELS ==> #[trigger] r.pixels()[i] == 0,
    {
        let bytes: Vec<u8> = vec![0u8; 2 * PIXELS];
        let r = Framebuffer { bytes };
        proof {
            assert forall|i: int| 0 <= i < PIXELS implies #[trigger] r.pixels()[i] == 0 by {
                assert(r.bytes@[2 * i] == 0u8);
                assert(r.bytes@[2 * i + 1] == 0u8);
            }
        }
        r
    }

    /// Fill the whole screen with `color`.
    pub fn clear(&mut self, color: u16)
        ensures
            final(self).pixels().len() == PIXELS,
            final(self).pixels() =~= Seq::new(PIXELS as nat, |i: int| color),
    {
        proof {
            use_type_invariant(&*self);
        }
        let hi: u8 = (color >> 8) as u8;
        let lo: u8 = (color & 0xff) as u8;
        proof {
            assert((hi as int) * 256 + (lo as int) == color as int) by (bit_vector)
                requires
                    hi == (color >> 8) as u8,
                    lo == (color & 0xff) as u8,
            ;
        }
        let mut i: usize = 0;
        while i < PIXELS
            invariant
                i <= PIXELS,
                self.bytes@.len() == 2 * PIXELS,
                (hi as int) * 256 + (lo as int) == color as int,
                forall|j: int| 0 <= j < i ==> #[trigger] pixel_at(self.bytes@, j) == color,
            decreases PIXELS - i,
        {
            let ghost before = self.bytes@;
            self.bytes[2 * i] = hi;
            self.bytes[2 * i + 1] = lo;
            proof {
                assert forall|j: int| 0 <= j < i + 1 implies #[trigger] pixel_at(self.bytes@, j)
                    == color by {
                    if j < i {
                        assert(pixel_at(before, j) == color);
                        assert(self.bytes@[2 * j] == before[2 * j]);
                        assert(self.bytes@[2 * j + 1] == before[2 * j + 1]);
                    }
                }
            }
            i += 1;
        }
    }

    /// Draw one pixel; points off the screen are ignored.
    pub fn put(&mut self, x: i32, y: i32, color: u16)
        ensures
            old(self).pixels().len() == PIXELS,
            final(self).pixels().len() == PIXELS,
            final(self).pixels() == (if 0 <= x < WIDTH && 0 <= y < HEIGHT {
                old(self).pixels().update(y * WIDTH + x, color)
            } else {
                old(self).pixels()
            }),
    {
        proof {
            use_type_invariant(&*self);
        }
        if 0 <= x && x < WIDTH as i32 && 0 <= y && y < HEIGHT as i32 {
            let p: usize = y as usize * WIDTH + x as usize;
            let idx: usize = p * 2;
            let hi: u8 = (color >> 8) as u8;
            let lo: u8 = (color & 0xff) as u8;
            proof {
                assert((hi as int) * 256 + (lo as int) == color as int) by (bit_vector)
                    requires
                        hi == (color >> 8) as u8,
                        lo == (color & 0xff) as u8,
                ;
            }
            let ghost before = self.bytes@;
            self.bytes[idx] = hi;
            self.bytes[idx + 1] = lo;
            proof {
                assert(self.pixels() =~= old(self).pixels().update(p as int, color)) by {
                    assert forall|i: int| 0 <= i < PIXELS implies #[trigger] self.pixels()[i] == (
                    if i == p {
                        color
                    } else {
                        old(self).pixels()[i]
                    }) by {
                        if i != p {
                            assert(self.bytes@[2 * i] == before[2 * i]);
                            assert(self.bytes@[2 * i + 1] == before[2 * i + 1]);
                        }
                    }
                }
            }
        }
    }

    /// The bytes to stream to the panel, in wire order: each pixel in
    /// turn, high byte first.
    pub fn as_bytes(&self) -> (r: &[u8])
        ensures
            self.pixels().len() == PIXELS,
            r@.len() == 2 * PIXELS,
            forall|i: int| 0 <= i < PIXELS ==> #[trigger] pixel_at(r@, i) == self.pixels()[i],
            forall|i: int|
                0 <= i < PIXELS ==> r@[2 * i] as int == #[trigger] self.pixels()[i] / 256 && r@[2 * i
                    + 1] as int == self.pixels()[i] % 256,
    {
        proof {
            use_type_invariant(self);
            assert forall|i: int| 0 <= i < PIXELS implies self.bytes@[2 * i] as int
                == #[trigger] self.pixels()[i] / 256 && self.bytes@[2 * i + 1] as int
                == self.pixels()[i] % 256 by {
                let hi = self.bytes@[2 * i] as int;
                let lo = self.bytes@[2 * i + 1] as int;
                assert(self.pixels()[i] == hi * 256 + lo);
            }
        }
        self.bytes.as_slice()
    }
}

/// Parameters of the column (CASET) or page (PASET) address command that
/// selects the whole span `0..extent`: the first and last addresses, high
/// byte first.
pub fn address_window(extent: u16) -> (r: [u8; 4])
    requires
        extent >= 1,
    ensures
        r@ == seq![0u8, 0u8, ((extent - 1) / 256) as u8, ((extent - 1) % 256) as u8],
{
    let last: u16 = extent - 1;
    let r = [0u8, 0u8, (last >> 8) as u8, (last & 0xff) as u8];
    proof {
        assert((last >> 8) as u8 == (last / 256) as u8 && (last & 0xff) as u8 == (last % 256) as u8)
            by (bit_vector);
    }
    r
}

} // verus!
