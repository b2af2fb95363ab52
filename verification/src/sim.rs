//! The simulation context: the live vehicle set and the light controller,
//! advanced one tick at a time in the fixed order spawn, controller update,
//! motion pass, cull.

use vstd::prelude::*;

use crate::geometry::{in_window, WINDOW_HEIGHT, WINDOW_WIDTH};
use crate::lights::LightController;
use crate::motion::{spec_cull, spec_step_all, step_vehicle};
use crate::vehicle::{can_spawn, spawn_vehicle, spec_can_spawn, spec_spawn_matches, Origin, Vehicle};

verus! {

/// The whole mutable state of the simulation, owned by the driving loop.
pub struct Simulation {
    pub vehicles: Vec<Vehicle>,
    pub controller: LightController,
}

impl Simulation {
    /// The simulation invariant: a consistent controller and a live set of
    /// well-formed vehicles that still overlap the window.
    pub open spec fn wf(self) -> bool {
        &&& self.controller.wf()
        &&& forall|i: int| 0 <= i < self.vehicles@.len() ==> (#[trigger] self.vehicles@[i]).live()
    }

    /// An empty simulation whose phase timer starts at `now`.
    pub fn new(now: u64) -> (s: Simulation)
        ensures
            s.wf(),
            s.vehicles@ =~= Seq::<Vehicle>::empty(),
            s.controller == LightController::spec_new(now),
    {
        Simulation { vehicles: Vec::new(), controller: LightController::new(now) }
    }

    /// Attempts to spawn a vehicle from edge `origin`: succeeds exactly
    /// when the clearance rule allows it, and then appends one fresh
    /// vehicle for that edge; otherwise nothing changes. The controller is
    /// never touched.
    pub fn try_spawn(&mut self, origin: Origin) -> (r: bool)
        requires
            old(self).wf(),
        ensures
            final(self).wf(),
            r == spec_can_spawn(old(self).vehicles@, origin),
            final(self).controller == old(self).controller,
            r ==> final(self).vehicles@.len() == old(self).vehicles@.len() + 1
                && final(self).vehicles@.drop_last() =~= old(self).vehicles@
                && spec_spawn_matches(final(self).vehicles@.last(), origin),
            !r ==> final(self).vehicles@ =~= old(self).vehicles@,
    {
        let ok = can_spawn(&self.vehicles, origin);
        if ok {
            let v = spawn_vehicle(origin);
            self.vehicles.push(v);
            proof {
                assert(self.vehicles@.drop_last() =~= old(self).vehicles@);
            }
        }
        ok
    }

    /// One full tick at clock reading `now`: the controller updates first
    /// (reading the pre-tick queues), then every vehicle steps against the
    /// pre-tick snapshot and the updated lights, then vehicles fully
    /// outside the window are culled.
    pub fn tick(&mut self, now: u64)
        requires
            old(self).wf(),
        ensures
            final(self).wf(),
            final(self).controller == old(self).controller.spec_update(old(self).vehicles@, now),
            final(self).vehicles@ =~= spec_cull(
                spec_step_all(old(self).vehicles@, final(self).controller),
            ),
    {
        self.controller.update(&self.vehicles, now);

        let ghost vs0 = self.vehicles@;
        let ghost c0 = self.controller;

        // Motion pass: every vehicle stepped against the pre-tick snapshot.
        let n = self.vehicles.len();
        let mut stepped: Vec<Vehicle> = Vec::new();
        let mut i: usize = 0;
        while i < n
            invariant
                0 <= i <= n,
                n == self.vehicles@.len(),
                self.vehicles@ == vs0,
                self.controller == c0,
                forall|k: int| 0 <= k < vs0.len() ==> (#[trigger] vs0[k]).live(),
                stepped@.len() == i,
                forall|k: int|
                    0 <= k < i ==> #[trigger] stepped@[k] == spec_step_all(vs0, c0)[k],
                forall|k: int| 0 <= k < i ==> (#[trigger] stepped@[k]).wf(),
            decreases n - i,
        {
            let light = self.controller.get_light_state_for(self.vehicles[i].origin);
            let next = step_vehicle(&self.vehicles, i, light);
            stepped.push(next);
            i = i + 1;
        }
        proof {
            assert(stepped@ =~= spec_step_all(vs0, c0));
        }

        // Cull: keep only vehicles still overlapping the window.
        let mut kept: Vec<Vehicle> = Vec::new();
        let mut i: usize = 0;
        while i < stepped.len()
            invariant
                0 <= i <= stepped@.len(),
                forall|k: int| 0 <= k < stepped@.len() ==> (#[trigger] stepped@[k]).wf(),
                kept@ == spec_cull(stepped@.take(i as int)),
                forall|k: int| 0 <= k < kept@.len() ==> (#[trigger] kept@[k]).live(),
            decreases stepped@.len() - i,
        {
            let v = stepped[i];
            proof {
                assert(stepped@.take(i + 1 as int).drop_last() =~= stepped@.take(i as int));
                assert(stepped@.take(i + 1 as int).last() == stepped@[i as int]);
            }
            if v.rect.right() > 0 && v.rect.x < WINDOW_WIDTH && v.rect.bottom() > 0 && v.rect.y
                < WINDOW_HEIGHT {
                kept.push(v);
            }
            i = i + 1;
        }
        proof {
            assert(stepped@.take(stepped@.len() as int) =~= stepped@);
        }
        self.vehicles = kept;
    }
}

} // verus!
