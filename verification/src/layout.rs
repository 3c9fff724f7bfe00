//! Screen geometry in physical pixels: where the fixed window goes inside a
//! work area, where the floating window follows the mouse, and when the
//! mouse moved far enough to extrapolate its motion.
//!
//! The scaling of logical sizes by the monitor's DPI is floating point and
//! stays with the caller; what comes here is already in whole pixels.
use vstd::prelude::*;
use crate::common::{Point, Rect, WindowPos, WindowRole};

verus! {

/// Whether `x` is a value of `i32`.
pub open spec fn fits(x: int) -> bool {
    i32::MIN <= x <= i32::MAX
}

/// `a / 2` rounded toward zero, as integer division of `i32` rounds.
pub open spec fn half_toward_zero(a: int) -> int {
    if a >= 0 {
        a / 2
    } else {
        -((-a) / 2)
    }
}

/// The bounding box of all monitors, in physical pixels.
#[derive(Clone, Copy, Debug, PartialEq, Eq, Structural)]
pub struct VirtualScreen {
    pub x: i32,
    pub y: i32,
    pub cx: i32,
    pub cy: i32,
}

impl VirtualScreen {
    /// The virtual screen with origin (`x`, `y`) and size `cx` by `cy`, as
    /// the system metrics report them.
    pub fn new(x: i32, y: i32, cx: i32, cy: i32) -> (r: Self)
        ensures
            r == (VirtualScreen { x, y, cx, cy }),
    {
        VirtualScreen { x, y, cx, cy }
    }
}

/// Which third of the work area a position uses, across and down.
pub enum Band {
    Start,
    Middle,
    End,
}

/// The column of a position: left, centre or right.
pub open spec fn column(pos: WindowPos) -> Band {
    match pos {
        WindowPos::TopLeft | WindowPos::CenterLeft | WindowPos::BottomLeft => Band::Start,
        WindowPos::Top | WindowPos::Center | WindowPos::Bottom => Band::Middle,
        WindowPos::TopRight | WindowPos::CenterRight | WindowPos::BottomRight => Band::End,
    }
}

/// The row of a position: top, centre or bottom.
pub open spec fn row(pos: WindowPos) -> Band {
    match pos {
        WindowPos::TopLeft | WindowPos::Top | WindowPos::TopRight => Band::Start,
        WindowPos::CenterLeft | WindowPos::Center | WindowPos::CenterRight => Band::Middle,
        WindowPos::BottomLeft | WindowPos::Bottom | WindowPos::BottomRight => Band::End,
    }
}

/// The start of a window of size `size` in the band `b` of the span
/// `lo`..`hi`, kept `margin` from the span's ends: at the start, at the end,
/// or centred (rounding toward zero); a centred window ignores the margin.
pub open spec fn place(b: Band, lo: int, hi: int, size: int, margin: int) -> int {
    match b {
        Band::Start => lo + margin,
        Band::End => hi - size - margin,
        Band::Middle => lo + half_toward_zero((hi - lo) - size),
    }
}

/// Whether each step of placing in the band `b` stays within `i32`.
pub open spec fn place_fits(b: Band, lo: int, hi: int, size: int, margin: int) -> bool {
    &&& fits(hi - lo)
    &&& match b {
        Band::Start => fits(lo + margin),
        Band::End => fits(hi - size) && fits(hi - size - margin),
        Band::Middle => fits((hi - lo) - size) && fits(lo + half_toward_zero((hi - lo) - size)),
    }
}

fn place_exec(b: &Band, lo: i32, hi: i32, size: i32, margin: i32) -> (r: i32)
    requires
        place_fits(*b, lo as int, hi as int, size as int, margin as int),
    ensures
        r == place(*b, lo as int, hi as int, size as int, margin as int),
{
    let span = hi - lo;
    match b {
        Band::Start => lo + margin,
        Band::End => hi - size - margin,
        Band::Middle => lo + (span - size) / 2,
    }
}

fn column_exec(pos: WindowPos) -> (r: Band)
    ensures
        r == column(pos),
{
    match pos {
        WindowPos::TopLeft | WindowPos::CenterLeft | WindowPos::BottomLeft => Band::Start,
        WindowPos::Top | WindowPos::Center | WindowPos::Bottom => Band::Middle,
        WindowPos::TopRight | WindowPos::CenterRight | WindowPos::BottomRight => Band::End,
    }
}

fn row_exec(pos: WindowPos) -> (r: Band)
    ensures
        r == row(pos),
{
    match pos {
        WindowPos::TopLeft | WindowPos::Top | WindowPos::TopRight => Band::Start,
        WindowPos::CenterLeft | WindowPos::Center | WindowPos::CenterRight => Band::Middle,
        WindowPos::BottomLeft | WindowPos::Bottom | WindowPos::BottomRight => Band::End,
    }
}

/// Whether placing a window of `width` by `height` at `pos` in `work` with
/// `margin` stays within `i32` at each step.
pub open spec fn fixed_position_fits(work: Rect, pos: WindowPos, width: i32, height: i32, margin: i32) -> bool {
    &&& place_fits(column(pos), work.left as int, work.right as int, width as int, margin as int)
    &&& place_fits(row(pos), work.top as int, work.bottom as int, height as int, margin as int)
}

/// The top-left corner of the fixed window, `width` by `height` physical
/// pixels, at `pos` in the work area `work`, kept `margin` pixels from its
/// edges.
pub fn fixed_position(work: Rect, pos: WindowPos, width: i32, height: i32, margin: i32) -> (r: Point)
    requires
        fixed_position_fits(work, pos, width, height, margin),
    ensures
        r.x == place(column(pos), work.left as int, work.right as int, width as int, margin as int),
        r.y == place(row(pos), work.top as int, work.bottom as int, height as int, margin as int),
        (pos == WindowPos::TopLeft || pos == WindowPos::CenterLeft || pos == WindowPos::BottomLeft)
            ==> r.x == work.left + margin,
        (pos == WindowPos::TopRight || pos == WindowPos::CenterRight || pos == WindowPos::BottomRight)
            ==> r.x == work.right - width - margin,
        (pos == WindowPos::Top || pos == WindowPos::Center || pos == WindowPos::Bottom) ==> r.x
            == work.left + half_toward_zero((work.right - work.left) - width),
        (pos == WindowPos::TopLeft || pos == WindowPos::Top || pos == WindowPos::TopRight) ==> r.y
            == work.top + margin,
        (pos == WindowPos::BottomLeft || pos == WindowPos::Bottom || pos == WindowPos::BottomRight)
            ==> r.y == work.bottom - height - margin,
        (pos == WindowPos::CenterLeft || pos == WindowPos::Center || pos == WindowPos::CenterRight)
            ==> r.y == work.top + half_toward_zero((work.bottom - work.top) - height),
{
    let c = column_exec(pos);
    let w = row_exec(pos);
    let x = place_exec(&c, work.left, work.right, width, margin);
    let y = place_exec(&w, work.top, work.bottom, height, margin);
    Point { x, y }
}

/// A window that fits the span with its margins on both sides is placed
/// inside the span in every band, and a centred one has gaps on its two
/// sides that differ by at most one pixel.
pub proof fn law_placed_inside(b: Band, lo: int, hi: int, size: int, margin: int)
    requires
        0 <= margin,
        0 <= size,
        size + 2 * margin <= hi - lo,
    ensures
        lo <= place(b, lo, hi, size, margin),
        place(b, lo, hi, size, margin) + size <= hi,
        b is Middle ==> {
            let gap_start = place(b, lo, hi, size, margin) - lo;
            let gap_end = hi - (place(b, lo, hi, size, margin) + size);
            0 <= gap_end - gap_start <= 1
        },
{
}

/// The fixed window lies inside the work area whenever it fits there with
/// its margins.
pub proof fn law_fixed_window_inside_work_area(work: Rect, pos: WindowPos, width: i32, height: i32, margin: i32)
    requires
        0 <= margin,
        0 <= width,
        0 <= height,
        width + 2 * margin <= work.right - work.left,
        height + 2 * margin <= work.bottom - work.top,
    ensures
        work.left <= place(column(pos), work.left as int, work.right as int, width as int, margin as int),
        place(column(pos), work.left as int, work.right as int, width as int, margin as int) + width
            <= work.right,
        work.top <= place(row(pos), work.top as int, work.bottom as int, height as int, margin as int),
        place(row(pos), work.top as int, work.bottom as int, height as int, margin as int) + height
            <= work.bottom,
{
    law_placed_inside(column(pos), work.left as int, work.right as int, width as int, margin as int);
    law_placed_inside(row(pos), work.top as int, work.bottom as int, height as int, margin as int);
}

/// The motion from the last mouse position (`mouse_x`, `mouse_y`) to
/// `current`, when it is at least `px` pixels long; `None` for a mouse at
/// rest or merely trembling, for which no extrapolation is made.
pub open spec fn spec_prediction_velocity(current: Point, mouse_x: i32, mouse_y: i32, px: i32) -> Option<(int, int)> {
    let dx = current.x - mouse_x;
    let dy = current.y - mouse_y;
    if dx * dx + dy * dy < px * px {
        None
    } else {
        Some((dx, dy))
    }
}

/// Whether computing the motion stays within `i32` at each step.
pub open spec fn prediction_fits(current: Point, mouse_x: i32, mouse_y: i32, px: i32) -> bool {
    let dx = current.x - mouse_x;
    let dy = current.y - mouse_y;
    &&& fits(dx)
    &&& fits(dy)
    &&& fits(dx * dx + dy * dy)
    &&& fits(px * px)
}

/// The motion of the mouse to extrapolate from, if it moved far enough.
pub fn prediction_velocity(current: Point, mouse_x: i32, mouse_y: i32, px: i32) -> (r: Option<(i32, i32)>)
    requires
        prediction_fits(current, mouse_x, mouse_y, px),
    ensures
        match r {
            Some((dx, dy)) => spec_prediction_velocity(current, mouse_x, mouse_y, px) == Some(
                (dx as int, dy as int),
            ),
            None => spec_prediction_velocity(current, mouse_x, mouse_y, px) is None,
        },
{
    let dx = current.x - mouse_x;
    let dy = current.y - mouse_y;
    proof {
        let (a, b) = (dx as int, dy as int);
        assert(0 <= a * a && 0 <= b * b) by (nonlinear_arith);
    }
    let dist_sq = dx * dx + dy * dy;
    if dist_sq < px * px {
        None
    } else {
        Some((dx, dy))
    }
}

/// Where the floating window goes, relative to the virtual screen: the
/// mouse position `current` moved by `offset`.
pub fn floating_target(current: Point, v_screen: VirtualScreen, offset: Point) -> (r: Point)
    requires
        fits(current.x - v_screen.x),
        fits(current.y - v_screen.y),
        fits(current.x - v_screen.x + offset.x),
        fits(current.y - v_screen.y + offset.y),
    ensures
        r.x == current.x - v_screen.x + offset.x,
        r.y == current.y - v_screen.y + offset.y,
{
    Point { x: current.x - v_screen.x + offset.x, y: current.y - v_screen.y + offset.y }
}

/// A screen point relative to the virtual screen's origin.
pub fn screen_relative(pos: Point, v_screen: VirtualScreen) -> (r: Point)
    requires
        fits(pos.x - v_screen.x),
        fits(pos.y - v_screen.y),
    ensures
        r.x == pos.x - v_screen.x,
        r.y == pos.y - v_screen.y,
{
    Point { x: pos.x - v_screen.x, y: pos.y - v_screen.y }
}

/// Whether placing the overlay for `role` needs the monitor's work area
/// and the window's size: only the fixed window does.
pub fn needs_frame(role: WindowRole) -> (r: bool)
    ensures
        r == (role == WindowRole::Fixed),
{
    match role {
        WindowRole::Fixed => true,
        WindowRole::Floating => false,
    }
}

/// What the fixed window is placed with: the work area of the cursor's
/// monitor, the position setting, and the window's size and margin in
/// physical pixels.
#[derive(Clone, Copy, Debug, PartialEq, Eq, Structural)]
pub struct FixedFrame {
    pub work: Rect,
    pub pos: WindowPos,
    pub width: i32,
    pub height: i32,
    pub margin: i32,
}

/// The last cursor position the floating window was placed for, and the
/// last place of the fixed window.
#[derive(Clone, Copy, Debug, PartialEq, Eq, Structural)]
pub struct StoredPositions {
    pub floating: Point,
    pub fixed: Point,
}

/// How the overlay is moved, relative to the virtual screen.
#[derive(Clone, Copy, Debug, PartialEq, Eq, Structural)]
pub enum OverlayMove {
    /// Feed the mouse-following animation this point.
    Track(Point),
    /// Put the overlay at this point.
    Place(Point),
}

/// Placing the overlay for the cursor at `current`: the floating window
/// follows the cursor moved by `offset`, and only the floating slot records
/// the cursor; the fixed window goes to its place in `frame`, and only the
/// fixed slot records that place. Without a frame the fixed window is not
/// moved.
pub open spec fn spec_update_position(
    stored: StoredPositions,
    role: WindowRole,
    current: Point,
    v_screen: VirtualScreen,
    offset: Point,
    frame: Option<FixedFrame>,
) -> (Option<OverlayMove>, StoredPositions) {
    match role {
        WindowRole::Floating => (
            Some(
                OverlayMove::Track(
                    Point {
                        x: (current.x - v_screen.x + offset.x) as i32,
                        y: (current.y - v_screen.y + offset.y) as i32,
                    },
                ),
            ),
            StoredPositions { floating: current, ..stored },
        ),
        WindowRole::Fixed => match frame {
            Some(f) => {
                let pos = Point {
                    x: place(column(f.pos), f.work.left as int, f.work.right as int, f.width as int, f.margin as int) as i32,
                    y: place(row(f.pos), f.work.top as int, f.work.bottom as int, f.height as int, f.margin as int) as i32,
                };
                (
                    Some(OverlayMove::Place(Point { x: (pos.x - v_screen.x) as i32, y: (pos.y - v_screen.y) as i32 })),
                    StoredPositions { fixed: pos, ..stored },
                )
            },
            None => (None, stored),
        },
    }
}

/// Whether each step of placing for `role` stays within `i32`.
pub open spec fn update_position_fits(
    role: WindowRole,
    current: Point,
    v_screen: VirtualScreen,
    offset: Point,
    frame: Option<FixedFrame>,
) -> bool {
    match role {
        WindowRole::Floating => {
            &&& fits(current.x - v_screen.x)
            &&& fits(current.y - v_screen.y)
            &&& fits(current.x - v_screen.x + offset.x)
            &&& fits(current.y - v_screen.y + offset.y)
        },
        WindowRole::Fixed => match frame {
            Some(f) => {
                &&& fixed_position_fits(f.work, f.pos, f.width, f.height, f.margin)
                &&& fits(place(column(f.pos), f.work.left as int, f.work.right as int, f.width as int, f.margin as int) - v_screen.x)
                &&& fits(place(row(f.pos), f.work.top as int, f.work.bottom as int, f.height as int, f.margin as int) - v_screen.y)
            },
            None => true,
        },
    }
}

/// Places the overlay for the cursor at `current` and records the
/// position of the active window's slot; returns how to move the overlay.
pub fn update_position(
    stored: &mut StoredPositions,
    role: WindowRole,
    current: Point,
    v_screen: VirtualScreen,
    offset: Point,
    frame: Option<FixedFrame>,
) -> (r: Option<OverlayMove>)
    requires
        update_position_fits(role, current, v_screen, offset, frame),
    ensures
        (r, *final(stored)) == spec_update_position(*old(stored), role, current, v_screen, offset, frame),
{
    match role {
        WindowRole::Floating => {
            let target = floating_target(current, v_screen, offset);
            stored.floating = current;
            Some(OverlayMove::Track(target))
        },
        WindowRole::Fixed => match frame {
            Some(f) => {
                let pos = fixed_position(f.work, f.pos, f.width, f.height, f.margin);
                let rel = screen_relative(pos, v_screen);
                stored.fixed = pos;
                Some(OverlayMove::Place(rel))
            },
            None => None,
        },
    }
}

/// Placing never touches the other window's slot, and the floating window
/// records exactly the cursor it follows.
pub proof fn law_placing_keeps_the_other_slot(
    stored: StoredPositions,
    role: WindowRole,
    current: Point,
    v_screen: VirtualScreen,
    offset: Point,
    frame: Option<FixedFrame>,
)
    ensures
        ({
            let (_, after) = spec_update_position(stored, role, current, v_screen, offset, frame);
            &&& role == WindowRole::Floating ==> after.fixed == stored.fixed && after.floating == current
            &&& role == WindowRole::Fixed ==> after.floating == stored.floating
        }),
{
}

/// Each position is placed by its name: a left position keeps the margin
/// from the left edge, a right one puts the window's right side the margin
/// before the right edge, a centred one splits the free width in two; the
/// same holds down the work area for top, bottom and centre positions.
pub proof fn law_position_follows_its_name(pos: WindowPos, lo: int, hi: int, size: int, margin: int)
    ensures
        (pos == WindowPos::TopLeft || pos == WindowPos::CenterLeft || pos == WindowPos::BottomLeft)
            ==> place(column(pos), lo, hi, size, margin) == lo + margin,
        (pos == WindowPos::TopRight || pos == WindowPos::CenterRight || pos == WindowPos::BottomRight)
            ==> place(column(pos), lo, hi, size, margin) == hi - size - margin,
        (pos == WindowPos::Top || pos == WindowPos::Center || pos == WindowPos::Bottom) ==> place(
            column(pos),
            lo,
            hi,
            size,
            margin,
        ) == lo + half_toward_zero((hi - lo) - size),
        (pos == WindowPos::TopLeft || pos == WindowPos::Top || pos == WindowPos::TopRight) ==> place(
            row(pos),
            lo,
            hi,
            size,
            margin,
        ) == lo + margin,
        (pos == WindowPos::BottomLeft || pos == WindowPos::Bottom || pos == WindowPos::BottomRight)
            ==> place(row(pos), lo, hi, size, margin) == hi - size - margin,
        (pos == WindowPos::CenterLeft || pos == WindowPos::Center || pos == WindowPos::CenterRight)
            ==> place(row(pos), lo, hi, size, margin) == lo + half_toward_zero((hi - lo) - size),
{
}

} // verus!
