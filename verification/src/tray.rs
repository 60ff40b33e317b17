//! Where the tray menu window opens: its visible card's lower left corner at
//! the cursor (opening up and to the right), pushed back inside the monitor
//! near its edges. Positions are physical pixels; `shadow` is the window's
//! transparent margin around the card, already scaled to physical pixels.
use vstd::prelude::*;

verus! {

/// The area of the monitor under the cursor.
#[derive(Debug, Clone, Copy, PartialEq, Eq)]
pub struct MonitorArea {
    pub x: i32,
    pub y: i32,
    pub width: u32,
    pub height: u32,
}

/// `v` brought into `[lo, hi]`, as `i32::clamp` does.
pub open spec fn clamp_to(v: int, lo: int, hi: int) -> int {
    if v < lo {
        lo
    } else if v > hi {
        hi
    } else {
        v
    }
}

/// The unclamped corner: the window is moved by its margin so that the
/// card's lower left corner meets the cursor.
pub open spec fn corner(cursor_x: i32, cursor_y: i32, shadow: i32, height: u32) -> (int, int) {
    (cursor_x - shadow, cursor_y - (height as i32) + shadow)
}

/// The bounds of the corner on monitor `m`, margins excluded so that the
/// whole card stays visible.
pub open spec fn bounds(m: MonitorArea, shadow: i32, width: u32, height: u32) -> (int, int, int, int) {
    (
        m.x - shadow,
        m.x + (m.width as i32) - (width as i32) + shadow,
        m.y - shadow,
        m.y + (m.height as i32) - (height as i32) + shadow,
    )
}

/// The inputs on which the position is computed without overflow, and
/// where the monitor leaves room for the card (else `clamp` would panic).
pub open spec fn placeable(
    cursor_x: i32,
    cursor_y: i32,
    shadow: i32,
    width: u32,
    height: u32,
    monitor: Option<MonitorArea>,
) -> bool {
    let (x, y) = corner(cursor_x, cursor_y, shadow, height);
    &&& i32::MIN <= x <= i32::MAX
    &&& i32::MIN <= cursor_y - (height as i32) <= i32::MAX
    &&& i32::MIN <= y <= i32::MAX
    &&& match monitor {
        Some(m) => {
            let (x0, x1, y0, y1) = bounds(m, shadow, width, height);
            &&& i32::MIN <= x0 && x1 <= i32::MAX && i32::MIN <= y0 && y1 <= i32::MAX
            &&& i32::MIN <= m.x + (m.width as i32) <= i32::MAX
            &&& i32::MIN <= m.x + (m.width as i32) - (width as i32) <= i32::MAX
            &&& i32::MIN <= m.y + (m.height as i32) <= i32::MAX
            &&& i32::MIN <= m.y + (m.height as i32) - (height as i32) <= i32::MAX
            &&& x0 <= x1 && y0 <= y1
        },
        None => true,
    }
}

/// The menu window's position for a cursor at `(cursor_x, cursor_y)`, a
/// window of `width` × `height` and the monitor under the cursor, if known.
pub fn menu_position(
    cursor_x: i32,
    cursor_y: i32,
    shadow: i32,
    width: u32,
    height: u32,
    monitor: Option<MonitorArea>,
) -> (r: (i32, i32))
    requires
        placeable(cursor_x, cursor_y, shadow, width, height, monitor),
    ensures
        ({
            let (x, y) = corner(cursor_x, cursor_y, shadow, height);
            match monitor {
                Some(m) => {
                    let (x0, x1, y0, y1) = bounds(m, shadow, width, height);
                    r.0 == clamp_to(x, x0, x1) && r.1 == clamp_to(y, y0, y1)
                },
                None => r.0 == x && r.1 == y,
            }
        }),
{
    let w = width as i32;
    let h = height as i32;
    let x = cursor_x - shadow;
    let y = cursor_y - h + shadow;
    match monitor {
        Some(m) => {
            let mw = m.width as i32;
            let mh = m.height as i32;
            let x0 = m.x - shadow;
            let x1 = m.x + mw - w + shadow;
            let y0 = m.y - shadow;
            let y1 = m.y + mh - h + shadow;
            let cx = if x < x0 {
                x0
            } else if x > x1 {
                x1
            } else {
                x
            };
            let cy = if y < y0 {
                y0
            } else if y > y1 {
                y1
            } else {
                y
            };
            (cx, cy)
        },
        None => (x, y),
    }
}

} // verus!
