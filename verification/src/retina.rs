//! Mouse and cursor coordinates on displays whose pixels are scaled.

use vstd::arithmetic::div_mod::{lemma_div_multiples_vanish, lemma_mod_multiples_basic};
use vstd::prelude::*;

use crate::double::{lemma_dividing, lemma_over_one, lemma_times, lemma_whole, Double};
use crate::message::{CursorPosition, Message, MouseEvent};

verus! {

/// Kind of a mouse event that turns the wheel.
pub const MOUSE_TYPE_WHEEL: i32 = 3;

/// A display: its place on the desktop, its size, and how many pixels make a point.
#[derive(Clone, Copy, Debug, Default, PartialEq, Eq)]
pub struct DisplayInfo {
    pub x: i32,
    pub y: i32,
    pub width: i32,
    pub height: i32,
    /// Pixels per point.
    pub scale: Double,
}

/// The displays of this machine.
#[derive(Debug, Default)]
pub struct Retina {
    pub displays: Vec<DisplayInfo>,
}

impl DisplayInfo {
    /// The display scales, and a point in pixels lies on it.
    pub open spec fn scales_pixel(self, x: int, y: int) -> bool {
        &&& self.scale.over_one()
        &&& self.x <= x < self.x + self.width
        &&& self.y <= y < self.y + self.height
    }

    /// A position in points lies on the display, whose size is in pixels.
    pub open spec fn holds_point(self, x: int, y: int) -> bool {
        &&& self.x <= x
        &&& self.y <= y
        &&& self.scale.times_below(x - self.x, self.width as int)
        &&& self.scale.times_below(y - self.y, self.height as int)
    }

    /// A position in points lies on the display, whose size is in pixels.
    pub fn has_point(&self, x: i32, y: i32) -> (yes: bool)
        ensures
            yes == self.holds_point(x as int, y as int),
    {
        if !(x >= self.x && y >= self.y) {
            return false;
        }
        let dx: u32 = (x as i64 - self.x as i64) as u32;
        let dy: u32 = (y as i64 - self.y as i64) as u32;
        self.scale.times_is_below(dx, self.width) && self.scale.times_is_below(dy, self.height)
    }
}

/// The mouse event as the system of this machine takes it, in points.
pub open spec fn mouse_in_points(
    displays: Seq<DisplayInfo>,
    e: MouseEvent,
    current: int,
) -> MouseEvent {
    if e.mask & 7 != MOUSE_TYPE_WHEEL && 0 <= current < displays.len()
        && displays[current].scales_pixel(e.x as int, e.y as int) {
        let d = displays[current];
        MouseEvent {
            x: (d.x + d.scale.dividing(e.x - d.x)) as i32,
            y: (d.y + d.scale.dividing(e.y - d.y)) as i32,
            ..e
        }
    } else {
        e
    }
}

/// The cursor position in pixels, where the current display scales and the cursor is on it.
pub open spec fn cursor_in_pixels(
    displays: Seq<DisplayInfo>,
    pos: CursorPosition,
    current: int,
) -> Option<CursorPosition> {
    if 0 <= current < displays.len() && displays[current].scale.over_one()
        && displays[current].holds_point(pos.x as int, pos.y as int) {
        let d = displays[current];
        Some(
            CursorPosition {
                x: (d.x + d.scale.times(pos.x - d.x)) as i32,
                y: (d.y + d.scale.times(pos.y - d.y)) as i32,
            },
        )
    } else {
        None
    }
}

impl Retina {
    /// Remembers the displays.
    pub fn set_displays(&mut self, displays: Vec<DisplayInfo>)
        ensures
            *final(self) == (Retina { displays }),
    {
        self.displays = displays;
    }

    /// Turns the pixel that a mouse event points at on display `current` into a point.
    pub fn on_mouse_event(&self, e: &mut MouseEvent, current: usize)
        ensures
            *final(e) == mouse_in_points(self.displays@, *old(e), current as int),
    {
        let evt_type: i32 = e.mask & 7;
        if evt_type == MOUSE_TYPE_WHEEL {
            return;
        }
        if current >= self.displays.len() {
            return;
        }
        let d = self.displays[current];
        let right: i64 = d.x as i64 + d.width as i64;
        let bottom: i64 = d.y as i64 + d.height as i64;
        if d.scale.is_over_one() && e.x >= d.x && e.y >= d.y && (e.x as i64) < right && (
        e.y as i64) < bottom {
            let qx = d.scale.divide((e.x as i64 - d.x as i64) as u32);
            let qy = d.scale.divide((e.y as i64 - d.y as i64) as u32);
            e.x = (d.x as i64 + qx as i64) as i32;
            e.y = (d.y as i64 + qy as i64) as i32;
        }
    }

    /// The message that tells a peer the cursor position on display `current` in pixels; none
    /// where the position is the same in points.
    pub fn on_cursor_pos(&self, pos: &CursorPosition, current: usize) -> (msg: Option<Message>)
        ensures
            msg == match cursor_in_pixels(self.displays@, *pos, current as int) {
                Some(scaled) => Some(Message::CursorPosition(scaled)),
                None => None,
            },
    {
        if current >= self.displays.len() {
            return None;
        }
        let d = self.displays[current];
        if d.scale.is_over_one() && d.has_point(pos.x, pos.y) {
            let px = d.scale.multiply((pos.x as i64 - d.x as i64) as u32, d.width);
            let py = d.scale.multiply((pos.y as i64 - d.y as i64) as u32, d.height);
            let scaled = CursorPosition {
                x: (d.x as i64 + px as i64) as i32,
                y: (d.y as i64 + py as i64) as i32,
            };
            return Some(Message::CursorPosition(scaled));
        }
        None
    }
}

/// The scale is a whole number.
pub open spec fn is_whole(scale: Double) -> bool {
    scale.finite() && scale.numer() % scale.denom() == 0
}

/// Growing by a scale above one and shrinking again loses at most one, and nothing where the scale
/// is a whole number.
proof fn lemma_shrink_grown(n: int, scale: Double, size: int)
    requires
        0 <= n,
        size <= i32::MAX,
        scale.over_one(),
        scale.times_below(n, size),
    ensures
        n - 1 <= scale.dividing(scale.times(n)) <= n,
        is_whole(scale) ==> scale.dividing(scale.times(n)) == n,
{
    lemma_over_one(scale);
    lemma_times(scale, n, size);
    let a = scale.numer();
    let b = scale.denom();
    let grown = scale.times(n);
    assert(0 <= n * a) by (nonlinear_arith)
        requires
            0 <= n,
            a > 0,
    ;
    lemma_whole(n * a, b, size);
    lemma_dividing(scale, grown);
    lemma_whole(grown * b, a, 0x1_0000_0000);
    let back = scale.dividing(grown);
    assert(n - 2 < back) by (nonlinear_arith)
        requires
            n * a - b < grown * b,
            grown * b - a < back * a,
            0 < b < a,
    ;
    assert(back < n + 1) by (nonlinear_arith)
        requires
            (back * a - grown * b) * 0x20_0000 <= a,
            (grown * b - n * a) * 0x20_0000 <= b,
            0 < b < a,
    ;
    if is_whole(scale) {
        let k = a / b;
        assert(a == k * b) by (nonlinear_arith)
            requires
                k == a / b,
                a % b == 0,
                b > 0,
        ;
        assert(n * a == (n * k) * b && (n * k) * b == b * (n * k)) by (nonlinear_arith)
            requires
                a == k * b,
        ;
        lemma_mod_multiples_basic(n * k, b);
        lemma_div_multiples_vanish(n * k, b);
        assert(grown * b == n * a) by (nonlinear_arith)
            requires
                grown == n * k,
                a == k * b,
        ;
        assert(n * a == a * n) by (nonlinear_arith);
        lemma_mod_multiples_basic(n, a);
        lemma_div_multiples_vanish(n, a);
    }
}

/// A peer that clicks where it was told the cursor is clicks at most one point away from the
/// cursor, and exactly at the cursor where the scale is a whole number.
pub proof fn click_lands_on_cursor(
    displays: Seq<DisplayInfo>,
    pos: CursorPosition,
    current: int,
    e: MouseEvent,
)
    requires
        cursor_in_pixels(displays, pos, current) is Some,
        e.mask & 7 != MOUSE_TYPE_WHEEL,
        e.x == (cursor_in_pixels(displays, pos, current)->0).x,
        e.y == (cursor_in_pixels(displays, pos, current)->0).y,
        displays[current].x + displays[current].width <= i32::MAX,
        displays[current].y + displays[current].height <= i32::MAX,
    ensures
        ({
            let there = mouse_in_points(displays, e, current);
            &&& pos.x - 1 <= there.x <= pos.x
            &&& pos.y - 1 <= there.y <= pos.y
            &&& is_whole(displays[current].scale) ==> there.x == pos.x && there.y == pos.y
        }),
{
    let d = displays[current];
    let dx = pos.x - d.x;
    let dy = pos.y - d.y;
    lemma_times(d.scale, dx, d.width as int);
    lemma_times(d.scale, dy, d.height as int);
    lemma_shrink_grown(dx, d.scale, d.width as int);
    lemma_shrink_grown(dy, d.scale, d.height as int);
    lemma_dividing(d.scale, d.scale.times(dx));
    lemma_dividing(d.scale, d.scale.times(dy));
    cursor_stays_on_display(displays, pos, current);
    assert(e.x - d.x == d.scale.times(dx));
    assert(e.y - d.y == d.scale.times(dy));
}

/// The pixel that a cursor on a display is told at lies on that display.
pub proof fn cursor_stays_on_display(
    displays: Seq<DisplayInfo>,
    pos: CursorPosition,
    current: int,
)
    requires
        cursor_in_pixels(displays, pos, current) is Some,
        displays[current].x + displays[current].width <= i32::MAX,
        displays[current].y + displays[current].height <= i32::MAX,
    ensures
        displays[current].scales_pixel(
            (cursor_in_pixels(displays, pos, current)->0).x as int,
            (cursor_in_pixels(displays, pos, current)->0).y as int,
        ),
{
    let d = displays[current];
    lemma_times(d.scale, pos.x - d.x, d.width as int);
    lemma_times(d.scale, pos.y - d.y, d.height as int);
}

/// A pixel on a display with a scale above one is taken for the point whose pixel it is: as many
/// points from the edge of the display as the scale goes into the pixels, counted down to a whole
/// number, but for the rounding of double precision. What an event that turns the wheel points at,
/// or one elsewhere, is left as it is.
pub proof fn pixel_is_divided_by_scale(displays: Seq<DisplayInfo>, e: MouseEvent, current: int)
    requires
        0 <= current < displays.len(),
        e.mask & 7 != 3,
        displays[current].scale.over_one(),
        displays[current].scale.finite(),
        displays[current].x <= e.x < displays[current].x + displays[current].width,
        displays[current].y <= e.y < displays[current].y + displays[current].height,
    ensures
        ({
            let there = mouse_in_points(displays, e, current);
            let d = displays[current];
            let (a, b) = (d.scale.numer(), d.scale.denom());
            let (dx, dy) = (there.x - d.x, there.y - d.y);
            &&& there == (MouseEvent { x: there.x, y: there.y, ..e })
            &&& (e.x - d.x) * b - a < dx * a
            &&& (dx * a - (e.x - d.x) * b) * 0x20_0000 <= a
            &&& (e.y - d.y) * b - a < dy * a
            &&& (dy * a - (e.y - d.y) * b) * 0x20_0000 <= a
        }),
{
    let d = displays[current];
    let (nx, ny) = (e.x - d.x, e.y - d.y);
    lemma_over_one(d.scale);
    lemma_dividing(d.scale, nx);
    lemma_dividing(d.scale, ny);
    lemma_whole(nx * d.scale.denom(), d.scale.numer(), 0x1_0000_0000);
    lemma_whole(ny * d.scale.denom(), d.scale.numer(), 0x1_0000_0000);
    let there = mouse_in_points(displays, e, current);
    assert(there.x - d.x == d.scale.dividing(nx));
    assert(there.y - d.y == d.scale.dividing(ny));
}

/// A cursor on a display with a scale above one is told as many pixels from the edge of the display
/// as the scale makes of the points, counted down to a whole number, but for the rounding of double
/// precision. A cursor elsewhere, or on a display that does not scale, is told as it is.
pub proof fn point_is_multiplied_by_scale(
    displays: Seq<DisplayInfo>,
    pos: CursorPosition,
    current: int,
)
    ensures
        !(0 <= current < displays.len()) || !displays[current].scale.over_one() || pos.x
            < displays[current].x || pos.y < displays[current].y ==> cursor_in_pixels(
            displays,
            pos,
            current,
        ) is None,
        cursor_in_pixels(displays, pos, current) matches Some(pixel) ==> {
            let d = displays[current];
            let (a, b) = (d.scale.numer(), d.scale.denom());
            d.x + d.width <= i32::MAX && d.y + d.height <= i32::MAX ==> {
                &&& (pos.x - d.x) * a - b < (pixel.x - d.x) * b
                &&& ((pixel.x - d.x) * b - (pos.x - d.x) * a) * 0x20_0000 <= b
                &&& (pos.y - d.y) * a - b < (pixel.y - d.y) * b
                &&& ((pixel.y - d.y) * b - (pos.y - d.y) * a) * 0x20_0000 <= b
            }
        },
{
    if cursor_in_pixels(displays, pos, current) is Some && displays[current].x
        + displays[current].width <= i32::MAX && displays[current].y + displays[current].height
        <= i32::MAX {
        let d = displays[current];
        let (nx, ny) = (pos.x - d.x, pos.y - d.y);
        let (a, b) = (d.scale.numer(), d.scale.denom());
        lemma_times(d.scale, nx, d.width as int);
        lemma_times(d.scale, ny, d.height as int);
        lemma_over_one(d.scale);
        assert(0 <= nx * a && 0 <= ny * a) by (nonlinear_arith)
            requires
                0 <= nx,
                0 <= ny,
                a > 0,
        ;
        lemma_whole(nx * a, b, d.width as int);
        lemma_whole(ny * a, b, d.height as int);
        let pixel = cursor_in_pixels(displays, pos, current)->0;
        assert(pixel.x - d.x == d.scale.times(nx));
        assert(pixel.y - d.y == d.scale.times(ny));
    }
}

} // verus!
