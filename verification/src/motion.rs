//! The per-vehicle motion model: outbound transition at the intersection
//! center, car-following against a pre-tick snapshot, the red-light check,
//! position integration, and the cull of vehicles that left the window.

use vstd::prelude::*;

use crate::geometry::{
    in_window, Rect, CENTER_X, CENTER_Y, FOLLOW_DISTANCE, ROAD_WIDTH, STOP_LINE, VEHICLE_HEIGHT,
};
use crate::lights::{LightController, LightState};
use crate::vehicle::{Origin, Vehicle};

verus! {

/// The outbound transition fires this tick: the vehicle is still inbound
/// and its leading edge has crossed the intersection center along its
/// travel axis.
pub open spec fn spec_outbound_fires(v: Vehicle) -> bool {
    !v.is_outbound && match v.origin {
        Origin::North => v.rect.spec_bottom() > CENTER_Y,
        Origin::South => v.rect.y < CENTER_Y,
        Origin::East => v.rect.spec_right() > CENTER_X,
        Origin::West => v.rect.x < CENTER_X,
    }
}

/// The vehicle after the outbound transition step: when the transition
/// fires, the outbound flag is set and the cross-axis coordinate moves to
/// the mirrored outbound lane; otherwise the vehicle is unchanged.
pub open spec fn spec_apply_outbound(v: Vehicle) -> Vehicle {
    if spec_outbound_fires(v) {
        match v.origin {
            Origin::North => (Vehicle {
                is_outbound: true,
                rect: (Rect { x: 410, ..v.rect }),
                ..v
            }),
            Origin::South => (Vehicle {
                is_outbound: true,
                rect: (Rect { x: 410, ..v.rect }),
                ..v
            }),
            Origin::East => (Vehicle {
                is_outbound: true,
                rect: (Rect { y: 410, ..v.rect }),
                ..v
            }),
            Origin::West => (Vehicle {
                is_outbound: true,
                rect: (Rect { y: 365, ..v.rect }),
                ..v
            }),
        }
    } else {
        v
    }
}

/// Signed distance from `a` to `b` along `a`'s travel axis, positive when
/// `b` lies ahead of `a`.
pub open spec fn spec_follow_gap(a: Vehicle, b: Vehicle) -> int {
    match a.origin {
        Origin::North => b.rect.y - a.rect.y,
        Origin::South => a.rect.y - b.rect.y,
        Origin::East => b.rect.x - a.rect.x,
        Origin::West => a.rect.x - b.rect.x,
    }
}

/// A following distance that forces the vehicle behind to stop: ahead,
/// and closer than `FOLLOW_DISTANCE`.
pub open spec fn spec_blocking_gap(d: int) -> bool {
    0 < d < FOLLOW_DISTANCE
}

/// Vehicle `i` is blocked by a vehicle ahead: some other vehicle of the
/// same origin and the same outbound flag sits at a blocking distance,
/// all positions read from the pre-tick snapshot.
pub open spec fn spec_blocked_by_car(vs: Seq<Vehicle>, i: int) -> bool {
    exists|j: int|
        #![auto]
        0 <= j < vs.len() && j != i && vs[j].origin == vs[i].origin && vs[j].is_outbound
            == vs[i].is_outbound && spec_blocking_gap(spec_follow_gap(vs[i], vs[j]))
}

/// The vehicle is held at a red light: its light shows red and its
/// pre-tick rectangle lies in the stop-line band of its approach.
pub open spec fn spec_at_red_light(v: Vehicle, light: LightState) -> bool {
    light == LightState::Red && match v.origin {
        Origin::South => v.rect.spec_bottom() > STOP_LINE && v.rect.y < STOP_LINE + ROAD_WIDTH,
        Origin::North => v.rect.y < STOP_LINE && v.rect.spec_bottom() > STOP_LINE - ROAD_WIDTH,
        Origin::West => v.rect.spec_right() > STOP_LINE && v.rect.x < STOP_LINE + ROAD_WIDTH,
        Origin::East => v.rect.x < STOP_LINE && v.rect.spec_right() > STOP_LINE - ROAD_WIDTH,
    }
}

/// The vehicle advanced by its velocity vector.
pub open spec fn spec_move(v: Vehicle) -> Vehicle {
    Vehicle {
        rect: (Rect {
            x: (v.rect.x + v.vx) as i32,
            y: (v.rect.y + v.vy) as i32,
            ..v.rect
        }),
        ..v
    }
}

/// One tick of vehicle `i` against the pre-tick snapshot `vs` and the
/// light its origin currently shows: the outbound transition is applied,
/// then the vehicle either stops (blocked by a car or held at red) and
/// keeps its position, or moves by its velocity.
pub open spec fn spec_step_vehicle(vs: Seq<Vehicle>, i: int, light: LightState) -> Vehicle {
    let stopped = spec_blocked_by_car(vs, i) || spec_at_red_light(vs[i], light);
    let v1 = spec_apply_outbound(vs[i]);
    if stopped {
        Vehicle { is_stopped: true, ..v1 }
    } else {
        Vehicle { is_stopped: false, ..spec_move(v1) }
    }
}

/// The whole live set after one motion pass, every vehicle stepped against
/// the same pre-tick snapshot and the given controller's lights.
pub open spec fn spec_step_all(vs: Seq<Vehicle>, c: LightController) -> Seq<Vehicle> {
    Seq::new(vs.len(), |i: int| spec_step_vehicle(vs, i, c.spec_light_for(vs[i].origin)))
}

/// The live set with every vehicle that lies fully outside the window
/// removed, order kept.
pub open spec fn spec_cull(vs: Seq<Vehicle>) -> Seq<Vehicle>
    decreases vs.len(),
{
    if vs.len() == 0 {
        Seq::empty()
    } else {
        let rest = spec_cull(vs.drop_last());
        if in_window(vs.last().rect) {
            rest.push(vs.last())
        } else {
            rest
        }
    }
}

/// One tick of vehicle `i`, reading only the pre-tick snapshot.
pub fn step_vehicle(vehicles: &Vec<Vehicle>, i: usize, light: LightState) -> (r: Vehicle)
    requires
        i < vehicles@.len(),
        forall|k: int| 0 <= k < vehicles@.len() ==> (#[trigger] vehicles@[k]).live(),
    ensures
        r == spec_step_vehicle(vehicles@, i as int, light),
        r.wf(),
{
    let v = vehicles[i];

    // Car-following against the pre-tick snapshot.
    let mut blocked = false;
    let mut j: usize = 0;
    while j < vehicles.len()
        invariant
            0 <= j <= vehicles@.len(),
            i < vehicles@.len(),
            v == vehicles@[i as int],
            forall|k: int| 0 <= k < vehicles@.len() ==> (#[trigger] vehicles@[k]).live(),
            !blocked ==> forall|k: int|
                #![auto]
                0 <= k < j ==> !(k != i && vehicles@[k].origin == v.origin
                    && vehicles@[k].is_outbound == v.is_outbound && spec_blocking_gap(
                    spec_follow_gap(v, vehicles@[k]),
                )),
            blocked ==> spec_blocked_by_car(vehicles@, i as int),
        decreases vehicles@.len() - j,
    {
        if j != i {
            let other = vehicles[j];
            if other.origin == v.origin && other.is_outbound == v.is_outbound {
                let dist: i32 = match v.origin {
                    Origin::North => other.rect.y - v.rect.y,
                    Origin::South => v.rect.y - other.rect.y,
                    Origin::East => other.rect.x - v.rect.x,
                    Origin::West => v.rect.x - other.rect.x,
                };
                if dist > 0 && dist < FOLLOW_DISTANCE {
                    blocked = true;
                }
            }
        }
        j = j + 1;
    }

    // Red-light check on the pre-tick rectangle.
    let at_red = light == LightState::Red && match v.origin {
        Origin::South => v.rect.bottom() > STOP_LINE && v.rect.y < STOP_LINE + ROAD_WIDTH,
        Origin::North => v.rect.y < STOP_LINE && v.rect.bottom() > STOP_LINE - ROAD_WIDTH,
        Origin::West => v.rect.right() > STOP_LINE && v.rect.x < STOP_LINE + ROAD_WIDTH,
        Origin::East => v.rect.x < STOP_LINE && v.rect.right() > STOP_LINE - ROAD_WIDTH,
    };

    // Outbound transition.
    let mut updated = v;
    if !v.is_outbound {
        match v.origin {
            Origin::North => {
                if v.rect.bottom() > CENTER_Y {
                    updated.is_outbound = true;
                    updated.rect.x = CENTER_X + 10;
                }
            },
            Origin::South => {
                if v.rect.y < CENTER_Y {
                    updated.is_outbound = true;
                    updated.rect.x = CENTER_X + 10;
                }
            },
            Origin::East => {
                if v.rect.right() > CENTER_X {
                    updated.is_outbound = true;
                    updated.rect.y = CENTER_Y + 10;
                }
            },
            Origin::West => {
                if v.rect.x < CENTER_X {
                    updated.is_outbound = true;
                    updated.rect.y = CENTER_Y - VEHICLE_HEIGHT - 10;
                }
            },
        }
    }

    // Resolution: hold position when stopped, else integrate the velocity.
    if blocked || at_red {
        updated.is_stopped = true;
    } else {
        updated.is_stopped = false;
        updated.rect.x = updated.rect.x + updated.vx;
        updated.rect.y = updated.rect.y + updated.vy;
    }
    updated
}

/// Law: a vehicle that this tick reports stopped keeps its pre-tick
/// position, provided the outbound transition does not fire on it that
/// same tick (the transition moves a vehicle to its outbound lane even
/// when it stops).
pub proof fn lemma_stopped_keeps_position(vs: Seq<Vehicle>, i: int, light: LightState)
    requires
        0 <= i < vs.len(),
        !spec_outbound_fires(vs[i]),
        spec_step_vehicle(vs, i, light).is_stopped,
    ensures
        spec_step_vehicle(vs, i, light).rect == vs[i].rect,
{
}

/// Law: a vehicle that this tick keeps moving advances by exactly its
/// velocity vector, provided the outbound transition does not fire on it
/// that same tick.
pub proof fn lemma_moving_advances_by_velocity(vs: Seq<Vehicle>, i: int, light: LightState)
    requires
        0 <= i < vs.len(),
        vs[i].wf(),
        !spec_outbound_fires(vs[i]),
        !spec_step_vehicle(vs, i, light).is_stopped,
    ensures
        spec_step_vehicle(vs, i, light).rect.x == vs[i].rect.x + vs[i].vx,
        spec_step_vehicle(vs, i, light).rect.y == vs[i].rect.y + vs[i].vy,
{
}

/// Law: the motion step never changes a vehicle's origin, extent,
/// velocity, color or route; only position and the two flags move.
pub proof fn lemma_step_changes_only_motion_state(vs: Seq<Vehicle>, i: int, light: LightState)
    requires
        0 <= i < vs.len(),
    ensures
        spec_step_vehicle(vs, i, light).origin == vs[i].origin,
        spec_step_vehicle(vs, i, light).vx == vs[i].vx,
        spec_step_vehicle(vs, i, light).vy == vs[i].vy,
        spec_step_vehicle(vs, i, light).color == vs[i].color,
        spec_step_vehicle(vs, i, light).route == vs[i].route,
        spec_step_vehicle(vs, i, light).rect.w == vs[i].rect.w,
        spec_step_vehicle(vs, i, light).rect.h == vs[i].rect.h,
{
}

/// Law: a vehicle held at a red light reports stopped and, unless the
/// outbound transition fires on it that same tick, keeps its position.
pub proof fn lemma_red_light_holds(vs: Seq<Vehicle>, i: int, light: LightState)
    requires
        0 <= i < vs.len(),
        spec_at_red_light(vs[i], light),
        !spec_outbound_fires(vs[i]),
    ensures
        spec_step_vehicle(vs, i, light).is_stopped,
        spec_step_vehicle(vs, i, light).rect == vs[i].rect,
{
}

/// Law: a vehicle ahead at a following distance of exactly
/// `FOLLOW_DISTANCE` does not block; the same vehicle one pixel closer
/// does.
pub proof fn lemma_following_boundary(vs: Seq<Vehicle>, i: int, j: int)
    requires
        0 <= i < vs.len(),
        0 <= j < vs.len(),
        j != i,
        vs[j].origin == vs[i].origin,
        vs[j].is_outbound == vs[i].is_outbound,
    ensures
        spec_follow_gap(vs[i], vs[j]) == FOLLOW_DISTANCE ==> !spec_blocking_gap(
            spec_follow_gap(vs[i], vs[j]),
        ),
        spec_follow_gap(vs[i], vs[j]) == FOLLOW_DISTANCE - 1 ==> spec_blocked_by_car(vs, i),
{
}

/// Law: the cull removes a vehicle the same pass it fully leaves the
/// window, and only then: a vehicle still overlapping the window is kept,
/// unchanged.
pub proof fn lemma_cull_keeps(vs: Seq<Vehicle>, i: int)
    requires
        0 <= i < vs.len(),
        in_window(vs[i].rect),
    ensures
        exists|k: int| 0 <= k < spec_cull(vs).len() && #[trigger] spec_cull(vs)[k] == vs[i],
    decreases vs.len(),
{
    if i == vs.len() - 1 {
        assert(spec_cull(vs)[spec_cull(vs).len() - 1] == vs[i]);
    } else {
        lemma_cull_keeps(vs.drop_last(), i);
        let rest = spec_cull(vs.drop_last());
        let k = choose|k: int| 0 <= k < rest.len() && #[trigger] rest[k] == vs.drop_last()[i];
        assert(vs.drop_last()[i] == vs[i]);
        assert(spec_cull(vs)[k] == vs[i]);
    }
}

/// Every vehicle the cull keeps comes from the input, still overlaps the
/// window, and is unchanged.
pub proof fn lemma_cull_members(vs: Seq<Vehicle>)
    ensures
        forall|k: int|
            0 <= k < spec_cull(vs).len() ==> in_window((#[trigger] spec_cull(vs)[k]).rect)
                && exists|i: int| 0 <= i < vs.len() && vs[i] == spec_cull(vs)[k],
    decreases vs.len(),
{
    if vs.len() > 0 {
        lemma_cull_members(vs.drop_last());
        assert forall|k: int| 0 <= k < spec_cull(vs).len() implies in_window(
            (#[trigger] spec_cull(vs)[k]).rect,
        ) && exists|i: int| 0 <= i < vs.len() && vs[i] == spec_cull(vs)[k] by {
            let rest = spec_cull(vs.drop_last());
            if k < rest.len() {
                assert(spec_cull(vs)[k] == rest[k]);
                let i = choose|i: int|
                    0 <= i < vs.drop_last().len() && vs.drop_last()[i] == rest[k];
                assert(vs[i] == spec_cull(vs)[k]);
            } else {
                assert(spec_cull(vs)[k] == vs.last());
                assert(vs[vs.len() - 1] == spec_cull(vs)[k]);
            }
        }
    }
}

} // verus!
