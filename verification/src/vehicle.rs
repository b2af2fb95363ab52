//! Vehicles: their state, how one is spawned at an approach edge, and the
//! clearance rule that may reject a spawn.

use vstd::prelude::*;

use crate::geometry::{
    Rect, in_window, FOLLOW_DISTANCE, VEHICLE_HEIGHT, VEHICLE_SPEED, VEHICLE_WIDTH, WINDOW_HEIGHT,
    WINDOW_WIDTH,
};
use crate::rng::random_below;

verus! {

/// The edge a vehicle enters from. Fixed at creation.
#[derive(Clone, Copy, PartialEq, Eq, Structural, Debug)]
pub enum Origin {
    North,
    South,
    East,
    West,
}

/// Route tag drawn at spawn. Informational only: reserved for future turn
/// geometry, it must never influence motion or rendering.
#[derive(Clone, Copy, PartialEq, Eq, Structural, Debug)]
pub enum Route {
    Straight,
    Left,
    Right,
}

/// An RGB color tag; vehicles are colored by origin.
#[derive(Clone, Copy, PartialEq, Eq, Structural, Debug)]
pub struct Color {
    pub r: u8,
    pub g: u8,
    pub b: u8,
}

/// A vehicle in the live set.
#[derive(Clone, Copy, PartialEq, Eq, Structural, Debug)]
pub struct Vehicle {
    pub rect: Rect,
    pub vx: i32,
    pub vy: i32,
    pub color: Color,
    pub origin: Origin,
    pub route: Route,
    pub is_stopped: bool,
    pub is_outbound: bool,
}

impl Vehicle {
    /// Shape and speed limits every vehicle in the live set satisfies:
    /// the fixed rectangle extent and a per-tick displacement small enough
    /// that position arithmetic stays within `i32`.
    pub open spec fn wf(self) -> bool {
        &&& self.rect.w == VEHICLE_WIDTH
        &&& self.rect.h == VEHICLE_HEIGHT
        &&& -3 <= self.vx <= 3
        &&& -3 <= self.vy <= 3
        &&& self.rect.bounded()
    }

    /// A live vehicle: well formed and still overlapping the window.
    pub open spec fn live(self) -> bool {
        self.wf() && in_window(self.rect)
    }
}

/// Position of a fresh vehicle from the given edge: the inbound lane of
/// that edge, flush with the window border.
pub open spec fn spec_spawn_rect(o: Origin) -> Rect {
    match o {
        Origin::North => (Rect { x: 365, y: 0, w: VEHICLE_WIDTH, h: VEHICLE_HEIGHT }),
        Origin::South => (Rect { x: 365, y: 775, w: VEHICLE_WIDTH, h: VEHICLE_HEIGHT }),
        Origin::East => (Rect { x: 0, y: 365, w: VEHICLE_WIDTH, h: VEHICLE_HEIGHT }),
        Origin::West => (Rect { x: 775, y: 410, w: VEHICLE_WIDTH, h: VEHICLE_HEIGHT }),
    }
}

/// Velocity of a fresh vehicle: single-axis, fixed magnitude, toward the
/// intersection.
pub open spec fn spec_spawn_velocity(o: Origin) -> (i32, i32) {
    match o {
        Origin::North => (0i32, 2i32),
        Origin::South => (0i32, -2i32),
        Origin::East => (2i32, 0i32),
        Origin::West => (-2i32, 0i32),
    }
}

/// Color keyed by origin.
pub open spec fn spec_color_for(o: Origin) -> Color {
    match o {
        Origin::North => (Color { r: 255, g: 0, b: 0 }),
        Origin::South => (Color { r: 0, g: 255, b: 0 }),
        Origin::East => (Color { r: 0, g: 0, b: 255 }),
        Origin::West => (Color { r: 255, g: 255, b: 0 }),
    }
}

/// Everything a fresh vehicle from edge `o` must satisfy, apart from the
/// route tag, which is drawn at random.
pub open spec fn spec_spawn_matches(v: Vehicle, o: Origin) -> bool {
    &&& v.rect == spec_spawn_rect(o)
    &&& v.vx == spec_spawn_velocity(o).0
    &&& v.vy == spec_spawn_velocity(o).1
    &&& v.color == spec_color_for(o)
    &&& v.origin == o
    &&& !v.is_stopped
    &&& !v.is_outbound
}

/// Distance of a vehicle from its own spawn edge, along its travel axis.
pub open spec fn spec_spawn_gap(v: Vehicle, o: Origin) -> int {
    match o {
        Origin::North => v.rect.y as int,
        Origin::South => WINDOW_HEIGHT - v.rect.spec_bottom(),
        Origin::East => v.rect.x as int,
        Origin::West => WINDOW_WIDTH - v.rect.spec_right(),
    }
}

/// Spawn clearance: no vehicle of the same origin lies within
/// `FOLLOW_DISTANCE` of the spawn edge along the travel axis.
pub open spec fn spec_can_spawn(vs: Seq<Vehicle>, o: Origin) -> bool {
    forall|i: int|
        0 <= i < vs.len() && (#[trigger] vs[i]).origin == o ==> spec_spawn_gap(vs[i], o)
            >= FOLLOW_DISTANCE
}

/// Whether a vehicle entering from edge `o` would have clearance.
pub fn can_spawn(vehicles: &Vec<Vehicle>, o: Origin) -> (r: bool)
    requires
        forall|i: int| 0 <= i < vehicles@.len() ==> (#[trigger] vehicles@[i]).wf(),
    ensures
        r == spec_can_spawn(vehicles@, o),
{
    let mut i: usize = 0;
    while i < vehicles.len()
        invariant
            0 <= i <= vehicles@.len(),
            forall|k: int| 0 <= k < vehicles@.len() ==> (#[trigger] vehicles@[k]).wf(),
            forall|k: int|
                0 <= k < i && (#[trigger] vehicles@[k]).origin == o ==> spec_spawn_gap(
                    vehicles@[k],
                    o,
                ) >= FOLLOW_DISTANCE,
        decreases vehicles@.len() - i,
    {
        let v = vehicles[i];
        if v.origin == o {
            let gap: i32 = match o {
                Origin::North => v.rect.y,
                Origin::South => WINDOW_HEIGHT - v.rect.bottom(),
                Origin::East => v.rect.x,
                Origin::West => WINDOW_WIDTH - v.rect.right(),
            };
            if gap < FOLLOW_DISTANCE {
                return false;
            }
        }
        i = i + 1;
    }
    true
}

/// Draws the route tag recorded on a fresh vehicle; uniform over the three
/// tags, so nothing is stated about which comes back.
fn random_route() -> Route {
    let d = random_below(3);
    if d == 0 {
        Route::Straight
    } else if d == 1 {
        Route::Left
    } else {
        Route::Right
    }
}

/// Picks an approach edge uniformly at random; nothing is stated about
/// which comes back.
pub fn random_origin() -> Origin {
    let d = random_below(4);
    if d == 0 {
        Origin::North
    } else if d == 1 {
        Origin::South
    } else if d == 2 {
        Origin::East
    } else {
        Origin::West
    }
}

/// A fresh vehicle from edge `o`: inbound lane offset, fixed speed toward
/// the intersection, color keyed by origin, moving and not yet outbound.
/// The route tag is drawn at random and recorded, nothing more.
pub fn spawn_vehicle(o: Origin) -> (v: Vehicle)
    ensures
        spec_spawn_matches(v, o),
        v.live(),
{
    let (x, y): (i32, i32) = match o {
        Origin::North => (WINDOW_WIDTH / 2 - VEHICLE_WIDTH - 10, 0),
        Origin::South => (WINDOW_WIDTH / 2 - VEHICLE_WIDTH - 10, WINDOW_HEIGHT - VEHICLE_HEIGHT),
        Origin::East => (0, WINDOW_HEIGHT / 2 - VEHICLE_HEIGHT - 10),
        Origin::West => (WINDOW_WIDTH - VEHICLE_WIDTH, WINDOW_HEIGHT / 2 + 10),
    };
    let (vx, vy): (i32, i32) = match o {
        Origin::North => (0, VEHICLE_SPEED),
        Origin::South => (0, -VEHICLE_SPEED),
        Origin::East => (VEHICLE_SPEED, 0),
        Origin::West => (-VEHICLE_SPEED, 0),
    };
    let color = match o {
        Origin::North => (Color { r: 255, g: 0, b: 0 }),
        Origin::South => (Color { r: 0, g: 255, b: 0 }),
        Origin::East => (Color { r: 0, g: 0, b: 255 }),
        Origin::West => (Color { r: 255, g: 255, b: 0 }),
    };
    let route = random_route();
    Vehicle {
        rect: Rect { x, y, w: VEHICLE_WIDTH, h: VEHICLE_HEIGHT },
        vx,
        vy,
        color,
        origin: o,
        route,
        is_stopped: false,
        is_outbound: false,
    }
}

/// Law: spawn clearance depends on the vehicle list and origin alone, so
/// without an intervening spawn or tick repeated queries agree.
pub proof fn lemma_can_spawn_idempotent(vs1: Seq<Vehicle>, vs2: Seq<Vehicle>, o: Origin)
    requires
        vs1 == vs2,
    ensures
        spec_can_spawn(vs1, o) == spec_can_spawn(vs2, o),
{
}

/// Law: a vehicle exactly `FOLLOW_DISTANCE` from its spawn edge does not
/// block a spawn from that edge; a vehicle one pixel closer does.
pub proof fn lemma_spawn_clearance_boundary(v: Vehicle, o: Origin, vs: Seq<Vehicle>)
    requires
        v.origin == o,
        vs == seq![v],
    ensures
        spec_spawn_gap(v, o) == FOLLOW_DISTANCE ==> spec_can_spawn(vs, o),
        spec_spawn_gap(v, o) == FOLLOW_DISTANCE - 1 ==> !spec_can_spawn(vs, o),
{
    assert(vs[0] == v);
}

} // verus!
