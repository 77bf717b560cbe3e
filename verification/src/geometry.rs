//! Points, sizes and rectangles on the screen, and the placement rules of the
//! two surfaces.

use vstd::prelude::*;

verus! {

/// Side length of the square overlay control.
pub const OVERLAY_SIZE: u32 = 32;

/// A pointer must travel strictly farther than this from where the button
/// went down before the gesture counts as a drag.
pub const DRAG_THRESHOLD: i64 = 5;

/// Horizontal offset of the overlay from the release point after a drag that
/// did not end to the left of its start.
pub const OVERLAY_OFFSET_RIGHT: i64 = 10;

/// Horizontal offset of the overlay from the release point after a drag that
/// ended to the left of its start.
pub const OVERLAY_OFFSET_LEFT: i64 = -50;

/// Vertical offset of the overlay from the release point.
pub const OVERLAY_OFFSET_DOWN: i64 = 10;

/// Distance from the overlay's left edge to its centre line, on which the
/// floating panel is centred.
pub const PANEL_ANCHOR_SHIFT: i64 = 16;

/// Width of the floating panel unless the embedder configures another.
pub const FLOATING_PANEL_WIDTH: u32 = 120;

/// Height of the floating panel unless the embedder configures another.
pub const FLOATING_PANEL_HEIGHT: u32 = 200;

/// Screen width assumed when the display cannot be measured.
pub const DEFAULT_SCREEN_WIDTH: u32 = 1920;

/// Screen height assumed when the display cannot be measured.
pub const DEFAULT_SCREEN_HEIGHT: u32 = 1080;

/// Anchor assumed for the floating panel when the overlay was never placed.
pub const DEFAULT_ANCHOR_X: i64 = 200;

/// See [`DEFAULT_ANCHOR_X`].
pub const DEFAULT_ANCHOR_Y: i64 = 200;

/// A position in screen units.
#[derive(Clone, Copy, Debug, PartialEq, Eq, Structural)]
pub struct Point {
    pub x: i64,
    pub y: i64,
}

/// The extent of a surface or of the screen.
#[derive(Clone, Copy, Debug, PartialEq, Eq, Structural)]
pub struct Size {
    pub width: u32,
    pub height: u32,
}

/// A rectangle given by its top-left corner and its extent.
#[derive(Clone, Copy, Debug, PartialEq, Eq, Structural)]
pub struct Rect {
    pub origin: Point,
    pub size: Size,
}

/// Horizontal sense of a drag: the sign of `end.x - start.x`.
#[derive(Clone, Copy, Debug, PartialEq, Eq, Structural)]
pub enum DragDirection {
    Leftward,
    Level,
    Rightward,
}

/// `value` limited to `[low, high]`; meant for `low <= high`.
pub open spec fn clamp(value: int, low: int, high: int) -> int {
    if value < low {
        low
    } else if value > high {
        high
    } else {
        value
    }
}

/// The coordinate at which a surface of length `extent` is placed along an
/// axis of length `limit` when `proposed` is asked for: `proposed` limited to
/// `[0, limit - extent]`, and 0 where the surface is longer than the axis.
pub open spec fn clamp_axis(proposed: int, extent: int, limit: int) -> int {
    clamp(proposed, 0, if limit - extent > 0 { limit - extent } else { 0 })
}

/// Squared Euclidean distance between two points.
pub open spec fn distance_squared(a: Point, b: Point) -> int {
    (b.x - a.x) * (b.x - a.x) + (b.y - a.y) * (b.y - a.y)
}

/// Whether `current` lies strictly farther than the drag threshold from
/// `start`, in Euclidean distance.
pub open spec fn beyond_drag_threshold(start: Point, current: Point) -> bool {
    distance_squared(start, current) > DRAG_THRESHOLD * DRAG_THRESHOLD
}

/// The sense of a drag from `start_x` to `end_x`.
pub open spec fn direction_between(start_x: int, end_x: int) -> DragDirection {
    if end_x < start_x {
        DragDirection::Leftward
    } else if end_x > start_x {
        DragDirection::Rightward
    } else {
        DragDirection::Level
    }
}

/// Horizontal offset of the overlay for a drag of the given sense.
pub open spec fn overlay_offset(direction: DragDirection) -> int {
    if direction is Leftward {
        OVERLAY_OFFSET_LEFT as int
    } else {
        OVERLAY_OFFSET_RIGHT as int
    }
}

/// Where the overlay goes for a drag released at `release`.
pub open spec fn overlay_position_of(release: Point, direction: DragDirection, screen: Size) -> Point {
    Point {
        x: clamp_axis(
            release.x + overlay_offset(direction),
            OVERLAY_SIZE as int,
            screen.width as int,
        ) as i64,
        y: clamp_axis(release.y + OVERLAY_OFFSET_DOWN, OVERLAY_SIZE as int, screen.height as int) as i64,
    }
}

/// Where a floating panel of extent `panel` goes when anchored at `anchor`.
pub open spec fn floating_panel_bounds_of(anchor: Point, panel: Size, screen: Size) -> Rect {
    Rect {
        origin: Point {
            x: clamp_axis(
                anchor.x + PANEL_ANCHOR_SHIFT - panel.width / 2,
                panel.width as int,
                screen.width as int,
            ) as i64,
            y: clamp_axis(anchor.y as int, panel.height as int, screen.height as int) as i64,
        },
        size: panel,
    }
}

impl Rect {
    /// Whether `p` lies in the rectangle, its four edges included.
    pub open spec fn covers(self, p: Point) -> bool {
        &&& self.origin.x <= p.x <= self.origin.x + self.size.width
        &&& self.origin.y <= p.y <= self.origin.y + self.size.height
    }

    /// Hit test with inclusive edges.
    pub fn contains(&self, p: Point) -> (inside: bool)
        ensures
            inside == self.covers(p),
    {
        let px: i128 = p.x as i128;
        let py: i128 = p.y as i128;
        let left: i128 = self.origin.x as i128;
        let top: i128 = self.origin.y as i128;
        px >= left && px <= left + self.size.width as i128 && py >= top && py <= top
            + self.size.height as i128
    }
}

/// The square that the overlay occupies when placed at `position`.
pub open spec fn overlay_bounds_of(position: Point) -> Rect {
    Rect { origin: position, size: Size { width: OVERLAY_SIZE, height: OVERLAY_SIZE } }
}

/// The square that the overlay occupies when placed at `position`.
pub fn overlay_bounds(position: Point) -> (bounds: Rect)
    ensures
        bounds == overlay_bounds_of(position),
{
    Rect { origin: position, size: Size { width: OVERLAY_SIZE, height: OVERLAY_SIZE } }
}

/// Places a surface along one axis.
fn place_on_axis(proposed: i128, extent: u32, limit: u32) -> (placed: i64)
    ensures
        placed == clamp_axis(proposed as int, extent as int, limit as int),
        0 <= placed <= u32::MAX,
{
    let room: i64 = if limit > extent {
        (limit - extent) as i64
    } else {
        0
    };
    if proposed < 0 {
        0
    } else if proposed > room as i128 {
        room
    } else {
        proposed as i64
    }
}

/// Moves a proposed top-left corner so that a surface of extent `size` stays
/// on a screen of extent `screen`. No coordinate of the result is negative.
pub fn clamp_to_screen(proposed: Point, size: Size, screen: Size) -> (placed: Point)
    ensures
        placed.x == clamp_axis(proposed.x as int, size.width as int, screen.width as int),
        placed.y == clamp_axis(proposed.y as int, size.height as int, screen.height as int),
        placed.x >= 0,
        placed.y >= 0,
{
    Point {
        x: place_on_axis(proposed.x as i128, size.width, screen.width),
        y: place_on_axis(proposed.y as i128, size.height, screen.height),
    }
}

/// Whether the pointer, having gone down at `start`, is now strictly farther
/// than the drag threshold from it.
pub fn exceeds_drag_threshold(start: Point, current: Point) -> (moved: bool)
    ensures
        moved == beyond_drag_threshold(start, current),
{
    let dx: i128 = current.x as i128 - start.x as i128;
    let dy: i128 = current.y as i128 - start.y as i128;
    let reach: i128 = DRAG_THRESHOLD as i128;
    if dx > reach || dx < -reach || dy > reach || dy < -reach {
        proof {
            let gx: int = dx as int;
            let gy: int = dy as int;
            assert(gx * gx >= 0 && gy * gy >= 0) by (nonlinear_arith);
            assert((gx > 5 || gx < -5) ==> gx * gx > 25) by (nonlinear_arith);
            assert((gy > 5 || gy < -5) ==> gy * gy > 25) by (nonlinear_arith);
        }
        true
    } else {
        assert(0 <= dx * dx <= 25 && 0 <= dy * dy <= 25) by (nonlinear_arith)
            requires
                -5 <= dx <= 5,
                -5 <= dy <= 5,
        ;
        dx * dx + dy * dy > 25
    }
}

/// The sense of a drag that began at `start_x` and ended at `end_x`.
pub fn drag_direction(start_x: i64, end_x: i64) -> (direction: DragDirection)
    ensures
        direction == direction_between(start_x as int, end_x as int),
{
    if end_x < start_x {
        DragDirection::Leftward
    } else if end_x > start_x {
        DragDirection::Rightward
    } else {
        DragDirection::Level
    }
}

/// Where to put the overlay after a drag released at `release`: 10 units to
/// the right of the release point, or 50 to its left after a leftward drag,
/// and 10 units below it, then kept on the screen.
pub fn overlay_position(release: Point, direction: DragDirection, screen: Size) -> (placed: Point)
    ensures
        placed == overlay_position_of(release, direction, screen),
        placed.x == clamp_axis(
            release.x + overlay_offset(direction),
            OVERLAY_SIZE as int,
            screen.width as int,
        ),
        placed.y == clamp_axis(release.y + OVERLAY_OFFSET_DOWN, OVERLAY_SIZE as int, screen.height as int),
        placed.x >= 0,
        placed.y >= 0,
{
    let shift: i64 = match direction {
        DragDirection::Leftward => OVERLAY_OFFSET_LEFT,
        _ => OVERLAY_OFFSET_RIGHT,
    };
    Point {
        x: place_on_axis(release.x as i128 + shift as i128, OVERLAY_SIZE, screen.width),
        y: place_on_axis(release.y as i128 + OVERLAY_OFFSET_DOWN as i128, OVERLAY_SIZE, screen.height),
    }
}

/// Where to put a floating panel of extent `panel` for an overlay at
/// `anchor`: centred under the overlay's centre line, its top at the
/// overlay's top, then kept on the screen.
pub fn floating_panel_bounds(anchor: Point, panel: Size, screen: Size) -> (bounds: Rect)
    ensures
        bounds == floating_panel_bounds_of(anchor, panel, screen),
        bounds.size == panel,
        bounds.origin.x == clamp_axis(
            anchor.x + PANEL_ANCHOR_SHIFT - panel.width / 2,
            panel.width as int,
            screen.width as int,
        ),
        bounds.origin.y == clamp_axis(anchor.y as int, panel.height as int, screen.height as int),
        bounds.origin.x >= 0,
        bounds.origin.y >= 0,
{
    let half: u32 = panel.width / 2;
    Rect {
        origin: Point {
            x: place_on_axis(
                anchor.x as i128 + PANEL_ANCHOR_SHIFT as i128 - half as i128,
                panel.width,
                screen.width,
            ),
            y: place_on_axis(anchor.y as i128, panel.height, screen.height),
        },
        size: panel,
    }
}

/// A placed surface starts on the screen, ends on it where it fits at all,
/// and stays where it was asked for where that already is on the screen.
pub proof fn lemma_clamp_axis_stays_on_screen(proposed: int, extent: int, limit: int)
    requires
        0 <= extent,
        0 <= limit,
    ensures
        0 <= clamp_axis(proposed, extent, limit),
        extent <= limit ==> clamp_axis(proposed, extent, limit) + extent <= limit,
        0 <= proposed && proposed + extent <= limit ==> clamp_axis(proposed, extent, limit)
            == proposed,
{
}

/// The screen extent to work with: the measured one, or 1920 by 1080 where
/// the display could not be measured.
pub fn screen_or_default(measured: Option<Size>) -> (screen: Size)
    ensures
        screen == match measured {
            Some(size) => size,
            None => (Size { width: DEFAULT_SCREEN_WIDTH, height: DEFAULT_SCREEN_HEIGHT }),
        },
{
    match measured {
        Some(size) => size,
        None => Size { width: DEFAULT_SCREEN_WIDTH, height: DEFAULT_SCREEN_HEIGHT },
    }
}

} // verus!
