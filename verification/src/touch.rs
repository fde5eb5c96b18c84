//! 4-wire resistive touch, read Adafruit-TouchScreen style: drive one
//! axis, ADC-sample the other, plus a Z (pressure) phase for touch
//! detection. The pin and ADC work lives in the application; this is the
//! arithmetic on the raw readings.

use vstd::prelude::*;

use crate::display::{HEIGHT, WIDTH};
use crate::ui::{div_toward_zero, Point};

verus! {

/// Raw ADC range seen at the panel edges. Rough defaults for a 12-bit
/// read; calibrate on device (log raw values and adjust).
pub const RAW_X_MIN: i32 = 300;

pub const RAW_X_MAX: i32 = 3800;

pub const RAW_Y_MIN: i32 = 300;

pub const RAW_Y_MAX: i32 = 3800;

/// Z threshold — readings below this mean "not touched".
pub const Z_THRESHOLD: i32 = 100;

/// Full scale of the 12-bit ADC.
pub const ADC_FULL_SCALE: i32 = 4095;

/// Panel raw axes vs. the landscape orientation of the display.
/// Adjust after on-device calibration.
pub const SWAP_XY: bool = true;

pub const INVERT_X: bool = false;

pub const INVERT_Y: bool = false;

pub open spec fn spec_min(a: int, b: int) -> int {
    if a <= b {
        a
    } else {
        b
    }
}

pub open spec fn spec_max(a: int, b: int) -> int {
    if a >= b {
        a
    } else {
        b
    }
}

/// The middle one of three values.
pub open spec fn middle(a: int, b: int, c: int) -> int {
    spec_max(spec_min(a, b), spec_min(spec_max(a, b), c))
}

/// The median of three raw samples: what sorting them and taking the
/// middle one gives.
pub fn median3(a: i32, b: i32, c: i32) -> (r: i32)
    ensures
        r == middle(a as int, b as int, c as int),
{
    let mut v = [a, b, c];
    // Sorting network for three values.
    if v[0] > v[1] {
        let t = v[0];
        v[0] = v[1];
        v[1] = t;
    }
    if v[1] > v[2] {
        let t = v[1];
        v[1] = v[2];
        v[2] = t;
    }
    if v[0] > v[1] {
        let t = v[0];
        v[0] = v[1];
        v[1] = t;
    }
    v[1]
}

/// The middle value is one of the three, with at least one of the others
/// on each side of it.
pub proof fn lemma_middle_is_median(a: int, b: int, c: int)
    ensures
        middle(a, b, c) == a || middle(a, b, c) == b || middle(a, b, c) == c,
        (a <= middle(a, b, c)) as int + (b <= middle(a, b, c)) as int + (c <= middle(a, b, c))
            as int >= 2,
        (a >= middle(a, b, c)) as int + (b >= middle(a, b, c)) as int + (c >= middle(a, b, c))
            as int >= 2,
{
}

/// The pressure reading from the two Z samples: near full scale when the
/// plates touch, low when they do not.
pub fn pressure(z1: i32, z2: i32) -> (r: i32)
    requires
        i32::MIN <= z2 - z1 <= i32::MAX,
        i32::MIN <= ADC_FULL_SCALE - (z2 - z1) <= i32::MAX,
    ensures
        r == ADC_FULL_SCALE - (z2 - z1),
{
    ADC_FULL_SCALE - (z2 - z1)
}

/// Whether a pressure reading counts as a touch.
pub fn is_touched(z: i32) -> (r: bool)
    ensures
        r == (z >= Z_THRESHOLD),
{
    z >= Z_THRESHOLD
}

/// Scales a raw reading in `lo..hi` onto `0..size` and clamps it into the
/// screen, as Rust's integer arithmetic does it.
pub open spec fn scale(raw: int, lo: int, hi: int, size: int) -> int {
    let v = div_toward_zero((raw - lo) * size, hi - lo);
    if v < 0 {
        0
    } else if v > size - 1 {
        size - 1
    } else {
        v
    }
}

/// Whether scaling `raw` stays within `i32`.
pub open spec fn scale_fits(raw: int, lo: int, size: int) -> bool {
    &&& i32::MIN <= raw - lo <= i32::MAX
    &&& i32::MIN <= (raw - lo) * size <= i32::MAX
}

/// The screen point of the raw axis readings `raw_x` (driving the X plate)
/// and `raw_y` (driving the Y plate). The panel's axes are swapped against
/// the landscape screen.
pub open spec fn screen_point(raw_x: int, raw_y: int) -> Point {
    Point {
        x: scale(raw_y, RAW_X_MIN as int, RAW_X_MAX as int, WIDTH as int) as i32,
        y: scale(raw_x, RAW_Y_MIN as int, RAW_Y_MAX as int, HEIGHT as int) as i32,
    }
}

fn scale_axis(raw: i32, lo: i32, hi: i32, size: i32) -> (r: i32)
    requires
        0 <= lo,
        lo + 2 <= hi,
        size > 0,
        scale_fits(raw as int, lo as int, size as int),
    ensures
        r == scale(raw as int, lo as int, hi as int, size as int),
{
    let num: i32 = (raw - lo) * size;
    let den: i32 = hi - lo;
    let v: i32 = if num >= 0 {
        num / den
    } else {
        let neg: i64 = -(num as i64);
        proof {
            vstd::arithmetic::div_mod::lemma_div_is_ordered_by_denominator(neg as int, 2, den as int);
            vstd::arithmetic::div_mod::lemma_div_pos_is_pos(neg as int, den as int);
        }
        let q: i64 = neg / den as i64;
        -(q as i32)
    };
    if v < 0 {
        0
    } else if v > size - 1 {
        size - 1
    } else {
        v
    }
}

/// The touched point in screen coordinates from the raw axis readings,
/// always on the screen.
pub fn map_point(raw_x: i32, raw_y: i32) -> (r: Point)
    requires
        scale_fits(raw_y as int, RAW_X_MIN as int, WIDTH as int),
        scale_fits(raw_x as int, RAW_Y_MIN as int, HEIGHT as int),
    ensures
        r == screen_point(raw_x as int, raw_y as int),
        0 <= r.x < WIDTH,
        0 <= r.y < HEIGHT,
{
    let (rx, ry) = if SWAP_XY {
        (raw_y, raw_x)
    } else {
        (raw_x, raw_y)
    };
    let x = scale_axis(rx, RAW_X_MIN, RAW_X_MAX, WIDTH as i32);
    let y = scale_axis(ry, RAW_Y_MIN, RAW_Y_MAX, HEIGHT as i32);
    Point { x, y }
}

/// What a touch poll reports from its readings: the first pressure
/// reading `z1`, the two axis readings, and the pressure reading `z2` taken
/// after them to confirm the touch (so a release while the axes were read
/// is not reported). No touch unless both pressures pass the threshold.
pub open spec fn poll_outcome(z1: int, raw_x: int, raw_y: int, z2: int) -> Option<Point> {
    if z1 < Z_THRESHOLD || z2 < Z_THRESHOLD {
        None
    } else {
        Some(screen_point(raw_x, raw_y))
    }
}

/// The touched point from one poll's readings, or None. The axes are only
/// scaled when both pressure readings count as a touch.
pub fn poll_result(z1: i32, raw_x: i32, raw_y: i32, z2: i32) -> (r: Option<Point>)
    requires
        z1 >= Z_THRESHOLD && z2 >= Z_THRESHOLD ==> {
            &&& scale_fits(raw_y as int, RAW_X_MIN as int, WIDTH as int)
            &&& scale_fits(raw_x as int, RAW_Y_MIN as int, HEIGHT as int)
        },
    ensures
        r == poll_outcome(z1 as int, raw_x as int, raw_y as int, z2 as int),
        r matches Some(p) ==> 0 <= p.x < WIDTH && 0 <= p.y < HEIGHT,
{
    if !is_touched(z1) {
        return None;
    }
    if !is_touched(z2) {
        return None;
    }
    Some(map_point(raw_x, raw_y))
}

/// A reading at the calibrated edges maps to the screen's edges.
pub proof fn lemma_edges_map_to_corners()
    ensures
        screen_point(RAW_Y_MIN as int, RAW_X_MIN as int) == (Point { x: 0, y: 0 }),
        screen_point(RAW_Y_MAX as int, RAW_X_MAX as int) == (Point {
            x: (WIDTH - 1) as i32,
            y: (HEIGHT - 1) as i32,
        }),
{
}

/// The panel's axes are swapped against the screen: the reading taken on
/// the Y plate alone sets the screen's x, the reading on the X plate alone
/// sets its y, and the mixed corners land on the matching screen corners.
pub proof fn lemma_axes_swapped(raw_x: int, raw_y: int, other: int)
    ensures
        screen_point(raw_x, raw_y).x == screen_point(other, raw_y).x,
        screen_point(raw_x, raw_y).y == screen_point(raw_x, other).y,
        screen_point(RAW_Y_MIN as int, RAW_X_MAX as int) == (Point { x: (WIDTH - 1) as i32, y: 0 }),
        screen_point(RAW_Y_MAX as int, RAW_X_MIN as int) == (Point { x: 0, y: (HEIGHT - 1) as i32 }),
{
}

/// Scaling keeps order: a larger raw reading never maps further back.
pub proof fn lemma_scale_monotone(a: int, b: int, lo: int, hi: int, size: int)
    requires
        a <= b,
        lo < hi,
        size > 0,
    ensures
        scale(a, lo, hi, size) <= scale(b, lo, hi, size),
{
    let na = (a - lo) * size;
    let nb = (b - lo) * size;
    let d = hi - lo;
    assert(na <= nb) by (nonlinear_arith)
        requires
            a <= b,
            size > 0,
            na == (a - lo) * size,
            nb == (b - lo) * size,
    ;
    if na >= 0 {
        vstd::arithmetic::div_mod::lemma_div_is_ordered(na, nb, d);
    } else {
        vstd::arithmetic::div_mod::lemma_div_pos_is_pos(-na, d);
        if nb >= 0 {
            vstd::arithmetic::div_mod::lemma_div_pos_is_pos(nb, d);
        } else {
            vstd::arithmetic::div_mod::lemma_div_is_ordered(-nb, -na, d);
        }
    }
}

} // verus!
