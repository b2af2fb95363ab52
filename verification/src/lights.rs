//! The traffic-light phase controller: two mutually exclusive green phases,
//! a fixed base duration, and a congestion-based extension that holds the
//! current phase while any green-origin queue is long.

use vstd::prelude::*;

use crate::geometry::{Rect, FOLLOW_DISTANCE, LANE_WIDTH};
use crate::vehicle::{Origin, Vehicle};

verus! {

/// State of a single light.
#[derive(Clone, Copy, PartialEq, Eq, Structural, Debug)]
pub enum LightState {
    Red,
    Green,
}

/// The controller's currently green direction pair.
#[derive(Clone, Copy, PartialEq, Eq, Structural, Debug)]
pub enum Phase {
    NorthSouth,
    EastWest,
}

/// One signal head: a fixed position and its current state.
#[derive(Clone, Copy, PartialEq, Eq, Structural, Debug)]
pub struct TrafficLight {
    pub rect: Rect,
    pub state: LightState,
}

/// The phase state machine: one light per origin, the active phase, the
/// time the phase started, and the fixed base duration, all in the same
/// unit the caller's clock uses.
#[derive(Clone, Copy, PartialEq, Eq, Structural, Debug)]
pub struct LightController {
    pub n_light: TrafficLight,
    pub e_light: TrafficLight,
    pub s_light: TrafficLight,
    pub w_light: TrafficLight,
    pub phase: Phase,
    pub phase_start: u64,
    pub base_duration: u64,
}

/// The state a light shows under a given phase: green exactly when its
/// origin belongs to the phase's pair.
pub open spec fn spec_light_in_phase(p: Phase, o: Origin) -> LightState {
    match p {
        Phase::NorthSouth => match o {
            Origin::North | Origin::South => LightState::Green,
            Origin::East | Origin::West => LightState::Red,
        },
        Phase::EastWest => match o {
            Origin::East | Origin::West => LightState::Green,
            Origin::North | Origin::South => LightState::Red,
        },
    }
}

/// The opposite phase.
pub open spec fn spec_other_phase(p: Phase) -> Phase {
    match p {
        Phase::NorthSouth => Phase::EastWest,
        Phase::EastWest => Phase::NorthSouth,
    }
}

/// Number of stopped vehicles of the given origin: the queue the
/// congestion check measures.
pub open spec fn spec_queue_count(vs: Seq<Vehicle>, o: Origin) -> nat
    decreases vs.len(),
{
    if vs.len() == 0 {
        0
    } else {
        spec_queue_count(vs.drop_last(), o) + if vs.last().origin == o && vs.last().is_stopped {
            1nat
        } else {
            0nat
        }
    }
}

/// Vehicles that fit in one lane, each taking `FOLLOW_DISTANCE` pixels;
/// a queue longer than half of this counts as congested.
pub open spec fn spec_half_capacity() -> int {
    LANE_WIDTH as int / (FOLLOW_DISTANCE as int) / 2
}

impl LightController {
    /// The controller invariant: the lights of the active phase are green,
    /// the other two red.
    pub open spec fn wf(self) -> bool {
        &&& self.n_light.state == spec_light_in_phase(self.phase, Origin::North)
        &&& self.s_light.state == spec_light_in_phase(self.phase, Origin::South)
        &&& self.e_light.state == spec_light_in_phase(self.phase, Origin::East)
        &&& self.w_light.state == spec_light_in_phase(self.phase, Origin::West)
    }

    /// The light currently shown to vehicles of origin `o`.
    pub open spec fn spec_light_for(self, o: Origin) -> LightState {
        match o {
            Origin::North => self.n_light.state,
            Origin::South => self.s_light.state,
            Origin::East => self.e_light.state,
            Origin::West => self.w_light.state,
        }
    }

    /// The base duration has elapsed since the phase started. A clock
    /// reading before the phase start counts as not elapsed.
    pub open spec fn spec_elapsed_reached(self, now: u64) -> bool {
        now >= self.phase_start && now - self.phase_start >= self.base_duration
    }

    /// Some origin of the currently green pair has a queue longer than
    /// half of lane capacity.
    pub open spec fn spec_congested(self, vs: Seq<Vehicle>) -> bool {
        match self.phase {
            Phase::NorthSouth => spec_queue_count(vs, Origin::North) > spec_half_capacity()
                || spec_queue_count(vs, Origin::South) > spec_half_capacity(),
            Phase::EastWest => spec_queue_count(vs, Origin::East) > spec_half_capacity()
                || spec_queue_count(vs, Origin::West) > spec_half_capacity(),
        }
    }

    /// The phase flips this tick: the base duration has elapsed and no
    /// green-origin queue is congested.
    pub open spec fn spec_should_flip(self, vs: Seq<Vehicle>, now: u64) -> bool {
        self.spec_elapsed_reached(now) && !self.spec_congested(vs)
    }

    /// The controller after one update: on a flip the phase swaps, the
    /// timer restarts at `now` and all four lights change; otherwise
    /// (duration not elapsed, or extended under congestion) nothing moves
    /// and the timer keeps running, so the check repeats every tick.
    pub open spec fn spec_update(self, vs: Seq<Vehicle>, now: u64) -> LightController {
        if self.spec_should_flip(vs, now) {
            let p = spec_other_phase(self.phase);
            LightController {
                phase: p,
                phase_start: now,
                n_light: (TrafficLight {
                    state: spec_light_in_phase(p, Origin::North),
                    ..self.n_light
                }),
                s_light: (TrafficLight {
                    state: spec_light_in_phase(p, Origin::South),
                    ..self.s_light
                }),
                e_light: (TrafficLight {
                    state: spec_light_in_phase(p, Origin::East),
                    ..self.e_light
                }),
                w_light: (TrafficLight {
                    state: spec_light_in_phase(p, Origin::West),
                    ..self.w_light
                }),
                ..self
            }
        } else {
            self
        }
    }

    /// The initial controller: north-south green, timer started at `now`,
    /// the four heads at their fixed corners of the intersection.
    pub open spec fn spec_new(now: u64) -> LightController {
        LightController {
            n_light: (TrafficLight {
                rect: Rect { x: 310, y: 475, w: 15, h: 15 },
                state: LightState::Green,
            }),
            e_light: (TrafficLight {
                rect: Rect { x: 475, y: 475, w: 15, h: 15 },
                state: LightState::Red,
            }),
            s_light: (TrafficLight {
                rect: Rect { x: 310, y: 310, w: 15, h: 15 },
                state: LightState::Green,
            }),
            w_light: (TrafficLight {
                rect: Rect { x: 475, y: 310, w: 15, h: 15 },
                state: LightState::Red,
            }),
            phase: Phase::NorthSouth,
            phase_start: now,
            base_duration: 8000,
        }
    }

    /// Builds the initial controller, with the caller's current clock
    /// reading as the phase start.
    pub fn new(now: u64) -> (c: LightController)
        ensures
            c == LightController::spec_new(now),
            c.wf(),
    {
        LightController {
            n_light: TrafficLight {
                rect: Rect { x: 310, y: 475, w: 15, h: 15 },
                state: LightState::Green,
            },
            e_light: TrafficLight {
                rect: Rect { x: 475, y: 475, w: 15, h: 15 },
                state: LightState::Red,
            },
            s_light: TrafficLight {
                rect: Rect { x: 310, y: 310, w: 15, h: 15 },
                state: LightState::Green,
            },
            w_light: TrafficLight {
                rect: Rect { x: 475, y: 310, w: 15, h: 15 },
                state: LightState::Red,
            },
            phase: Phase::NorthSouth,
            phase_start: now,
            base_duration: 8000,
        }
    }

    /// One controller step at clock reading `now`, looking at the queues
    /// in `vehicles`.
    pub fn update(&mut self, vehicles: &Vec<Vehicle>, now: u64)
        requires
            old(self).wf(),
        ensures
            *final(self) == old(self).spec_update(vehicles@, now),
            final(self).wf(),
    {
        let elapsed_reached = now >= self.phase_start && now - self.phase_start
            >= self.base_duration;
        if elapsed_reached {
            let (o1, o2) = match self.phase {
                Phase::NorthSouth => (Origin::North, Origin::South),
                Phase::EastWest => (Origin::East, Origin::West),
            };
            let lane_capacity: i32 = LANE_WIDTH / FOLLOW_DISTANCE;
            let half_capacity: i32 = lane_capacity / 2;
            let congested = count_stopped(vehicles, o1) > half_capacity as usize || count_stopped(
                vehicles,
                o2,
            ) > half_capacity as usize;
            if !congested {
                self.phase_start = now;
                match self.phase {
                    Phase::NorthSouth => {
                        self.phase = Phase::EastWest;
                        self.n_light.state = LightState::Red;
                        self.s_light.state = LightState::Red;
                        self.e_light.state = LightState::Green;
                        self.w_light.state = LightState::Green;
                    },
                    Phase::EastWest => {
                        self.phase = Phase::NorthSouth;
                        self.e_light.state = LightState::Red;
                        self.w_light.state = LightState::Red;
                        self.n_light.state = LightState::Green;
                        self.s_light.state = LightState::Green;
                    },
                }
            }
        }
    }

    /// The light currently shown to vehicles of origin `origin`.
    pub fn get_light_state_for(&self, origin: Origin) -> (r: LightState)
        ensures
            r == self.spec_light_for(origin),
            self.wf() ==> r == spec_light_in_phase(self.phase, origin),
    {
        match origin {
            Origin::North => self.n_light.state,
            Origin::South => self.s_light.state,
            Origin::East => self.e_light.state,
            Origin::West => self.w_light.state,
        }
    }
}

/// Counts the stopped vehicles of origin `o`.
fn count_stopped(vehicles: &Vec<Vehicle>, o: Origin) -> (r: usize)
    ensures
        r == spec_queue_count(vehicles@, o),
{
    let mut count: usize = 0;
    let mut i: usize = 0;
    while i < vehicles.len()
        invariant
            0 <= i <= vehicles@.len(),
            count == spec_queue_count(vehicles@.take(i as int), o),
            count <= i,
        decreases vehicles@.len() - i,
    {
        let v = vehicles[i];
        proof {
            assert(vehicles@.take(i + 1 as int).drop_last() =~= vehicles@.take(i as int));
            assert(vehicles@.take(i + 1 as int).last() == vehicles@[i as int]);
        }
        if v.origin == o && v.is_stopped {
            count = count + 1;
        }
        i = i + 1;
    }
    proof {
        assert(vehicles@.take(vehicles@.len() as int) =~= vehicles@);
    }
    count
}

/// Law: a congested deadline never silently skips the flip. The extension
/// changes nothing, timer included, so at every later clock reading the
/// deadline is still reached and the congestion check repeats.
pub proof fn lemma_extension_rechecks(
    c: LightController,
    vs: Seq<Vehicle>,
    now: u64,
    later: u64,
)
    requires
        c.spec_elapsed_reached(now),
        c.spec_congested(vs),
        now <= later,
    ensures
        c.spec_update(vs, now) == c,
        c.spec_update(vs, now).spec_elapsed_reached(later),
{
}

/// Law: a flip resets the timer, so the phase flips at most once per base
/// duration: after a flip at `now`, an update at any reading short of
/// `now` plus the base duration leaves the controller untouched.
pub proof fn lemma_flip_resets_timer(
    c: LightController,
    vs: Seq<Vehicle>,
    now: u64,
    vs2: Seq<Vehicle>,
    later: u64,
)
    requires
        c.spec_should_flip(vs, now),
        later < now + c.base_duration,
    ensures
        !c.spec_update(vs, now).spec_elapsed_reached(later),
        c.spec_update(vs, now).spec_update(vs2, later) == c.spec_update(vs, now),
{
}

/// Law: under the controller invariant, exactly two lights are green, and
/// they are the north-south pair or the east-west pair, never a mixed one.
pub proof fn lemma_green_pair(c: LightController)
    requires
        c.wf(),
    ensures
        (c.n_light.state == LightState::Green && c.s_light.state == LightState::Green
            && c.e_light.state == LightState::Red && c.w_light.state == LightState::Red) || (
        c.e_light.state == LightState::Green && c.w_light.state == LightState::Green
            && c.n_light.state == LightState::Red && c.s_light.state == LightState::Red),
{
}

} // verus!
