//! Fixed layout of the simulated world: window, road, vehicle dimensions,
//! and axis-aligned rectangles in pixel coordinates.

use vstd::prelude::*;

verus! {

/// Width of the simulated window, in pixels.
pub const WINDOW_WIDTH: i32 = 800;
/// Height of the simulated window, in pixels.
pub const WINDOW_HEIGHT: i32 = 800;
/// Full width of a road (both lanes).
pub const ROAD_WIDTH: i32 = 150;
/// Width of a single lane: half of `ROAD_WIDTH`.
pub const LANE_WIDTH: i32 = 75;

/// Cross-axis extent of a vehicle rectangle.
pub const VEHICLE_WIDTH: i32 = 25;
/// Travel-axis extent of a vehicle rectangle.
pub const VEHICLE_HEIGHT: i32 = 25;
/// Distance a free-moving vehicle covers along its travel axis each tick.
pub const VEHICLE_SPEED: i32 = 2;
/// Minimum clear distance kept between vehicles.
pub const SAFETY_GAP: i32 = 20;
/// A following distance strictly below this blocks the vehicle behind.
pub const FOLLOW_DISTANCE: i32 = VEHICLE_HEIGHT + SAFETY_GAP;

/// X coordinate of the intersection center: half of `WINDOW_WIDTH`.
pub const CENTER_X: i32 = 400;
/// Y coordinate of the intersection center: half of `WINDOW_HEIGHT`.
pub const CENTER_Y: i32 = 400;
/// Near edge of the intersection (center minus half the road width): both
/// the top of the horizontal road band and the left of the vertical one.
pub const STOP_LINE: i32 = 325;

/// An axis-aligned rectangle: top-left corner plus extent.
#[derive(Clone, Copy, PartialEq, Eq, Structural, Debug)]
pub struct Rect {
    pub x: i32,
    pub y: i32,
    pub w: i32,
    pub h: i32,
}

impl Rect {
    /// X coordinate one past the right edge.
    pub open spec fn spec_right(self) -> int {
        self.x + self.w
    }

    /// Y coordinate one past the bottom edge.
    pub open spec fn spec_bottom(self) -> int {
        self.y + self.h
    }

    /// Coordinates small enough that every computation on them stays within
    /// `i32`.
    pub open spec fn bounded(self) -> bool {
        &&& -1000 <= self.x <= 1000
        &&& -1000 <= self.y <= 1000
        &&& 0 < self.w <= 100
        &&& 0 < self.h <= 100
    }

    pub fn right(&self) -> (r: i32)
        requires
            self.bounded(),
        ensures
            r == self.spec_right(),
    {
        self.x + self.w
    }

    pub fn bottom(&self) -> (r: i32)
        requires
            self.bounded(),
        ensures
            r == self.spec_bottom(),
    {
        self.y + self.h
    }
}

/// The rectangle overlaps the window: anything failing this is culled.
pub open spec fn in_window(r: Rect) -> bool {
    &&& r.spec_right() > 0
    &&& r.x < WINDOW_WIDTH
    &&& r.spec_bottom() > 0
    &&& r.y < WINDOW_HEIGHT
}

} // verus!
