//! End-to-end scenarios driven through the public simulation API.

use road_intersection::lights::{LightController, LightState, Phase};
use road_intersection::sim::Simulation;
use road_intersection::vehicle::{can_spawn, spawn_vehicle, Origin};

/// One green pair only, matching the active phase.
fn assert_lights_match_phase(sim: &Simulation) {
    let c = &sim.controller;
    match c.phase {
        Phase::NorthSouth => {
            assert_eq!(c.n_light.state, LightState::Green);
            assert_eq!(c.s_light.state, LightState::Green);
            assert_eq!(c.e_light.state, LightState::Red);
            assert_eq!(c.w_light.state, LightState::Red);
        }
        Phase::EastWest => {
            assert_eq!(c.e_light.state, LightState::Green);
            assert_eq!(c.w_light.state, LightState::Green);
            assert_eq!(c.n_light.state, LightState::Red);
            assert_eq!(c.s_light.state, LightState::Red);
        }
    }
}

#[test]
fn initial_state_is_north_south_green() {
    let sim = Simulation::new(0);
    assert_eq!(sim.vehicles.len(), 0);
    assert_eq!(sim.controller.phase, Phase::NorthSouth);
    assert_eq!(sim.controller.phase_start, 0);
    assert_eq!(sim.controller.base_duration, 8000);
    assert_lights_match_phase(&sim);
}

#[test]
fn lights_always_form_a_phase_pair() {
    // Exactly two lights green, always the pair of the active phase,
    // across many ticks with spawns and flips.
    let mut sim = Simulation::new(0);
    sim.try_spawn(Origin::North);
    sim.try_spawn(Origin::East);
    for t in 0..3000u64 {
        sim.tick(t * 10);
        assert_lights_match_phase(&sim);
    }
}

#[test]
fn moving_vehicle_advances_by_its_velocity() {
    let mut sim = Simulation::new(0);
    assert!(sim.try_spawn(Origin::North));
    let before = sim.vehicles[0].rect;
    let (vx, vy) = (sim.vehicles[0].vx, sim.vehicles[0].vy);
    assert_eq!((vx, vy), (0, 2));
    sim.tick(0);
    assert!(!sim.vehicles[0].is_stopped);
    assert_eq!(sim.vehicles[0].rect.x, before.x + vx);
    assert_eq!(sim.vehicles[0].rect.y, before.y + vy);
}

#[test]
fn stopped_vehicle_keeps_its_position() {
    // An east-origin vehicle held at the red light: position frozen.
    let mut sim = Simulation::new(0);
    assert!(sim.try_spawn(Origin::East));
    // Advance it to the stop-line band; the east light is red under
    // NorthSouth green. It stops once its right edge passes 175.
    for _ in 0..100 {
        sim.tick(0);
    }
    assert!(sim.vehicles[0].is_stopped);
    let held = sim.vehicles[0].rect;
    sim.tick(0);
    assert!(sim.vehicles[0].is_stopped);
    assert_eq!(sim.vehicles[0].rect, held);
}

#[test]
fn can_spawn_is_idempotent_between_ticks() {
    let mut sim = Simulation::new(0);
    assert!(sim.try_spawn(Origin::North));
    let first = can_spawn(&sim.vehicles, Origin::North);
    let second = can_spawn(&sim.vehicles, Origin::North);
    assert_eq!(first, second);
    assert!(!first);
    let first_east = can_spawn(&sim.vehicles, Origin::East);
    let second_east = can_spawn(&sim.vehicles, Origin::East);
    assert_eq!(first_east, second_east);
    assert!(first_east);
}

#[test]
fn spawn_clearance_boundary() {
    // A vehicle exactly 45 pixels (vehicle height plus safety gap) from
    // its spawn edge does not block; one pixel closer does.
    let mut sim = Simulation::new(0);
    assert!(sim.try_spawn(Origin::North));
    // 23 ticks: y == 46; one tick earlier y == 44.
    for _ in 0..22 {
        sim.tick(0);
    }
    assert_eq!(sim.vehicles[0].rect.y, 44);
    assert!(!can_spawn(&sim.vehicles, Origin::North));
    sim.tick(0);
    assert_eq!(sim.vehicles[0].rect.y, 46);
    assert!(can_spawn(&sim.vehicles, Origin::North));
}

#[test]
fn following_distance_boundary() {
    // Two north-origin vehicles placed by hand: a gap of exactly 45 does
    // not block the follower, a gap of 44 does.
    let mut leader = spawn_vehicle(Origin::North);
    let mut follower = spawn_vehicle(Origin::North);
    leader.rect.y = 245;
    follower.rect.y = 200;
    let mut sim = Simulation { vehicles: vec![follower, leader], controller: LightController::new(0) };
    sim.tick(0);
    assert!(!sim.vehicles[0].is_stopped);
    assert_eq!(sim.vehicles[0].rect.y, 202);

    let mut leader = spawn_vehicle(Origin::North);
    let mut follower = spawn_vehicle(Origin::North);
    leader.rect.y = 244;
    follower.rect.y = 200;
    let mut sim = Simulation { vehicles: vec![follower, leader], controller: LightController::new(0) };
    sim.tick(0);
    assert!(sim.vehicles[0].is_stopped);
    assert_eq!(sim.vehicles[0].rect.y, 200);
}

#[test]
fn scenario_north_vehicle_exits_and_is_culled() {
    let mut sim = Simulation::new(0);
    assert!(sim.try_spawn(Origin::North));
    let mut went_outbound = false;
    let mut last_y = sim.vehicles[0].rect.y;
    let mut ticks = 0u32;
    while !sim.vehicles.is_empty() {
        sim.tick(0);
        ticks += 1;
        assert!(ticks < 500, "vehicle never exited");
        if let Some(v) = sim.vehicles.first() {
            assert!(v.rect.y < 800, "still live although fully below the window");
            if v.is_outbound {
                went_outbound = true;
                assert_eq!(v.rect.x, 410);
            }
            last_y = v.rect.y;
        }
    }
    // The tick on which y first reaches 800 is the tick it vanishes.
    assert_eq!(last_y, 798);
    assert!(went_outbound);
}

#[test]
fn scenario_back_to_back_spawn_rejected() {
    let mut sim = Simulation::new(0);
    assert!(sim.try_spawn(Origin::North));
    assert!(!sim.try_spawn(Origin::North));
    assert_eq!(sim.vehicles.len(), 1);
}

#[test]
fn scenario_east_vehicle_holds_at_red_while_north_south_green() {
    let mut sim = Simulation::new(0);
    assert!(sim.try_spawn(Origin::East));
    // Approach: moves right by 2 per tick until its right edge passes
    // 175, the near edge of the east stop-line band; then it holds.
    for _ in 0..77 {
        sim.tick(0);
    }
    assert_eq!(sim.vehicles[0].rect.x, 152);
    assert!(sim.vehicles[0].is_stopped);
    // While the clock stays short of the base duration the phase cannot
    // flip, so the vehicle stays stopped with an unchanged position.
    for _ in 0..50 {
        sim.tick(7999);
        assert_eq!(sim.controller.phase, Phase::NorthSouth);
        assert!(sim.vehicles[0].is_stopped);
        assert_eq!(sim.vehicles[0].rect.x, 152);
    }
}

#[test]
fn scenario_phase_flips_exactly_once_when_duration_elapses() {
    let mut sim = Simulation::new(0);
    // Short of the base duration: no flip.
    sim.tick(7999);
    assert_eq!(sim.controller.phase, Phase::NorthSouth);
    assert_eq!(sim.controller.phase_start, 0);
    // At the base duration with no queued vehicles: one flip, timer reset.
    sim.tick(8000);
    assert_eq!(sim.controller.phase, Phase::EastWest);
    assert_eq!(sim.controller.phase_start, 8000);
    assert_lights_match_phase(&sim);
    // Immediately after: no second flip.
    sim.tick(8001);
    assert_eq!(sim.controller.phase, Phase::EastWest);
    assert_eq!(sim.controller.phase_start, 8000);
}

#[test]
fn scenario_congested_queue_defers_flip_until_it_drains() {
    let mut sim = Simulation::new(0);
    // Flip to EastWest so that north-origin vehicles face a red light.
    sim.tick(8000);
    assert_eq!(sim.controller.phase, Phase::EastWest);

    // First north vehicle runs to the stop line and holds at red.
    assert!(sim.try_spawn(Origin::North));
    for _ in 0..80 {
        sim.tick(8001);
    }
    assert_eq!(sim.vehicles[0].rect.y, 152);
    assert!(sim.vehicles[0].is_stopped);

    // Second north vehicle queues up behind it (gap 44 blocks).
    assert!(sim.try_spawn(Origin::North));
    for _ in 0..60 {
        sim.tick(8001);
    }
    assert_eq!(sim.vehicles[1].rect.y, 108);
    assert!(sim.vehicles[1].is_stopped);

    // The east-west pair has no queue, so at its deadline the phase flips
    // to NorthSouth. On that same tick the follower is still blocked.
    sim.tick(16000);
    assert_eq!(sim.controller.phase, Phase::NorthSouth);
    assert_eq!(sim.controller.phase_start, 16000);
    assert!(sim.vehicles[1].is_stopped);

    // North/South queue (one stopped vehicle) exceeds half of lane
    // capacity (zero) exactly when the base duration elapses: no flip,
    // and the timer is left running.
    sim.tick(24000);
    assert_eq!(sim.controller.phase, Phase::NorthSouth);
    assert_eq!(sim.controller.phase_start, 16000);

    // The queue drained on that tick, so the next check flips: the
    // extension is rechecked every tick, never silently skipped.
    assert!(!sim.vehicles[1].is_stopped);
    sim.tick(24010);
    assert_eq!(sim.controller.phase, Phase::EastWest);
    assert_eq!(sim.controller.phase_start, 24010);
}

#[test]
fn outbound_transition_fires_when_leading_edge_crosses_center() {
    // North origin: the leading edge is the bottom. It first passes the
    // center with y == 376 (bottom 401); the tick after that mirrors the
    // vehicle to the outbound lane at x == 410.
    let mut sim = Simulation::new(0);
    assert!(sim.try_spawn(Origin::North));
    for _ in 0..188 {
        sim.tick(0);
    }
    assert_eq!(sim.vehicles[0].rect.y, 376);
    assert!(!sim.vehicles[0].is_outbound);
    assert_eq!(sim.vehicles[0].rect.x, 365);
    sim.tick(0);
    assert!(sim.vehicles[0].is_outbound);
    assert_eq!(sim.vehicles[0].rect.x, 410);
    assert_eq!(sim.vehicles[0].rect.y, 378);

    // South origin: the leading edge is the top. It first passes the
    // center with y == 399; that tick mirrors the vehicle to x == 410.
    let mut sim = Simulation::new(0);
    assert!(sim.try_spawn(Origin::South));
    for _ in 0..188 {
        sim.tick(0);
    }
    assert_eq!(sim.vehicles[0].rect.y, 399);
    assert!(!sim.vehicles[0].is_outbound);
    sim.tick(0);
    assert!(sim.vehicles[0].is_outbound);
    assert_eq!(sim.vehicles[0].rect.x, 410);
    assert_eq!(sim.vehicles[0].rect.y, 397);
}

#[test]
fn west_vehicle_crosses_and_changes_lane() {
    let mut sim = Simulation::new(0);
    assert!(sim.try_spawn(Origin::West));
    assert_eq!(sim.vehicles[0].rect.y, 410);
    // Under NorthSouth green the west light is red: the vehicle runs
    // from x == 775 down to the stop-line band and holds at x == 473.
    for _ in 0..160 {
        sim.tick(0);
    }
    assert!(sim.vehicles[0].is_stopped);
    assert_eq!(sim.vehicles[0].rect.x, 473);
    // Flip to EastWest green; it crosses the center and mirrors to the
    // outbound lane at y == 365.
    sim.tick(8000);
    assert_eq!(sim.controller.phase, Phase::EastWest);
    for _ in 0..60 {
        sim.tick(8001);
    }
    assert!(sim.vehicles[0].is_outbound);
    assert_eq!(sim.vehicles[0].rect.y, 365);
}
