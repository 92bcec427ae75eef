//! Scenario tests for the per-tick physics state machine.

use platformr::constants::MAP_PX_TO_METER;
use platformr::errors::ConfigurationError;
use platformr::player::{HorizontalDirection, PlayerPhys, TickAnomaly};
use platformr::raster::{Raster, TileColor};
use platformr::vec2::Vec2;
use platformr::world::{default_effect_table, EffectTable, TileEffect, WorldMap};

const DT: i64 = 10_000; // 0.01 s
const PX: i64 = MAP_PX_TO_METER; // 0.2 m

/// A raster of `w` x `h` pixels, all transparent except the listed world
/// cells (x from the left, y up from the bottom), painted `color`.
fn raster_with(w: u32, h: u32, solid: &[(u32, u32)], color: [u8; 4]) -> Raster {
    let mut data = vec![0u8; (4 * w * h) as usize];
    for &(x, y) in solid {
        let row = h - 1 - y;
        let i = (4 * (row * w + x)) as usize;
        data[i..i + 4].copy_from_slice(&color);
    }
    Raster::from_raw(w, h, data)
}

/// A 10x10 world whose bottom row is painted `color`, with the given registry.
fn floor_world(color: [u8; 4], table: EffectTable) -> WorldMap {
    let solid: Vec<(u32, u32)> = (0..10).map(|x| (x, 0)).collect();
    WorldMap::new(
        raster_with(10, 10, &solid, color),
        table,
        MAP_PX_TO_METER,
        Vec2::zero(),
    )
    .unwrap()
}

fn body_at(x: i64, y: i64) -> PlayerPhys {
    // 0.2 m x 0.2 m body of 0.113 kg
    PlayerPhys::new(Vec2::new(x, y), 113_000, Vec2::new(200_000, 200_000)).unwrap()
}

#[test]
fn constructor_rejects_bad_configuration() {
    match PlayerPhys::new(Vec2::zero(), 0, Vec2::new(1, 1)) {
        Err(ConfigurationError::NonPositiveMass) => {}
        _ => panic!("nonpositive mass must be rejected"),
    }
    match PlayerPhys::new(Vec2::zero(), 1, Vec2::new(1, 0)) {
        Err(ConfigurationError::NonPositiveSize) => {}
        _ => panic!("nonpositive size must be rejected"),
    }
    let p = PlayerPhys::new(Vec2::new(5, 7), 113_000, Vec2::new(1, 2)).unwrap();
    assert_eq!(p.loc, Vec2::new(5, 7));
    assert_eq!(p.vel, Vec2::zero());
    assert_eq!(p.last_direction, HorizontalDirection::Right);
    assert_eq!(p.last_anomaly, None);
}

#[test]
fn body_at_rest_on_floor_stays_at_rest() {
    // orange: Collision with bounce factor 0 — gravity is exactly countered
    // by the floor clamp
    let w = floor_world([230, 180, 50, 255], default_effect_table());
    let mut p = body_at(1_000_000, 0);
    for _ in 0..5 {
        p.update(DT, &w);
        assert_eq!(p.vel.y, 0);
        assert_eq!(p.loc.y, 0);
        assert_eq!(p.vel.x, 0);
        assert_eq!(p.loc.x, 1_000_000);
        assert_eq!(p.last_anomaly, None);
    }
}

#[test]
fn falling_body_bounces_without_gaining_energy() {
    // white: Collision with bounce factor 0.15
    let w = floor_world([255, 255, 255, 255], default_effect_table());
    let mut p = body_at(1_000_000, 50_000);
    p.vel = Vec2::new(0, -6_000_000); // falling at 6 m/s
    p.update(DT, &w);
    // impact velocity: -6 m/s - 9.80665 * 0.01 == -6.098066 m/s;
    // reflected by 0.15: 0.9147099 m/s, truncated
    assert_eq!(p.loc.y, 0);
    assert_eq!(p.vel.y, 914_709);
    assert!(p.vel.y.abs() <= 6_098_066);
}

#[test]
fn friction_clamps_slow_velocity_to_zero_without_flipping_sign() {
    let w = floor_world([230, 180, 50, 255], default_effect_table());
    let mut p = body_at(1_000_000, 0);
    // slower than one tick's friction impulse (0.0147 m/s): clamped to zero
    p.vel = Vec2::new(10_000, 0);
    p.update(DT, &w);
    assert_eq!(p.vel.x, 0);
    assert_eq!(p.loc.x, 1_000_100);
}

#[test]
fn friction_decelerates_fast_velocity_exactly() {
    let w = floor_world([230, 180, 50, 255], default_effect_table());
    let mut p = body_at(1_000_000, 0);
    p.vel = Vec2::new(100_000, 0); // 0.1 m/s
    p.update(DT, &w);
    // friction impulse 0.15 * 9.80665 * 0.01 == 0.014709...: same sign kept
    assert_eq!(p.vel.x, 85_291);
    assert_eq!(p.loc.x, 1_001_000);
}

#[test]
fn dropped_body_settles_on_the_bottom_row() {
    // bottom row: Collision(bounce 0.1, friction (0.2, 0))
    let mut table = EffectTable::new();
    table.register(TileColor::transparent(), vec![], vec![]);
    table.register(
        TileColor::rgba(255, 255, 255, 255),
        vec![TileEffect::Collision(100_000, Vec2::new(200_000, 0))],
        vec![],
    );
    let w = floor_world([255, 255, 255, 255], table);
    // body of 1 kg dropped from y == 1.0 m with zero velocity
    let mut p = PlayerPhys::new(
        Vec2::new(1_000_000, 1_000_000),
        1_000_000,
        Vec2::new(200_000, 200_000),
    )
    .unwrap();
    let mut prev_vy: i64 = 0;
    let mut first_half_peak: i64 = 0;
    let mut second_half_peak: i64 = 0;
    for tick in 0..200 {
        p.update(DT, &w);
        assert_eq!(p.last_anomaly, None);
        if prev_vy < 0 && p.vel.y > 0 {
            // a bounce: the reflected speed is the impact speed scaled by 0.1
            assert!(p.vel.y <= (prev_vy.abs() + 98_066) / 10);
        }
        if tick < 100 {
            first_half_peak = first_half_peak.max(p.vel.y.abs());
        } else {
            second_half_peak = second_half_peak.max(p.vel.y.abs());
        }
        prev_vy = p.vel.y;
    }
    // settled: resting exactly on the floor boundary, with only the residual
    // per-tick bounce of the gravity impulse left
    assert_eq!(p.loc.y, 0);
    assert!(p.vel.y.abs() <= 10_000);
    // the vertical speed envelope decays toward zero
    assert!(second_half_peak < first_half_peak);
    assert!(second_half_peak <= 100_000);
}

#[test]
fn airborne_body_gains_horizontal_velocity_linearly() {
    // all-transparent world: no feet material, no friction while airborne
    let w = WorldMap::new(
        raster_with(10, 10, &[], [0, 0, 0, 0]),
        default_effect_table(),
        MAP_PX_TO_METER,
        Vec2::zero(),
    )
    .unwrap();
    let mut p = body_at(1_000_000, 1_000_000);
    p.movement_forces = Vec2::new(2_000_000, 0); // F == 2 N, m == 0.113 kg
    for n in 1..=20i64 {
        p.update(DT, &w);
        // velocity.x after n ticks is exactly (F/m) * n * dt:
        // (2 / 0.113) * dt == 17.699115 * 0.01 == 0.176991 m/s per tick
        assert_eq!(p.vel.x, n * 176_991);
        assert_eq!(p.last_anomaly, None);
    }
    assert_eq!(p.vel.x, 3_539_820);
    assert_eq!(p.last_direction, HorizontalDirection::Right);
}

#[test]
fn clamp_without_material_is_reported_and_resolved_with_zero_bounce() {
    // a wall on column 0, nothing under the body's feet
    let solid: Vec<(u32, u32)> = (0..10).map(|y| (0, y)).collect();
    let w = WorldMap::new(
        raster_with(10, 10, &solid, [255, 255, 255, 255]),
        default_effect_table(),
        MAP_PX_TO_METER,
        Vec2::zero(),
    )
    .unwrap();
    let mut p = body_at(250_000, 1_000_000);
    p.vel = Vec2::new(-6_000_000, 0); // moving left into the wall
    p.update(DT, &w);
    assert_eq!(p.last_anomaly, Some(TickAnomaly::ClampWithoutMaterial));
    // the fallback clamp uses bounce factor 0: stopped at the wall's edge
    assert_eq!(p.loc.x, 200_000);
    assert_eq!(p.vel.x, 0);
}

#[test]
fn facing_follows_movement_force_and_is_sticky() {
    let w = floor_world([230, 180, 50, 255], default_effect_table());
    let mut p = body_at(1_000_000, 0);
    p.movement_forces = Vec2::new(-10_000, 0);
    p.update(DT, &w);
    assert_eq!(p.last_direction, HorizontalDirection::Left);
    p.movement_forces = Vec2::new(0, 0);
    p.update(DT, &w);
    assert_eq!(p.last_direction, HorizontalDirection::Left);
    p.movement_forces = Vec2::new(10_000, 0);
    p.update(DT, &w);
    assert_eq!(p.last_direction, HorizontalDirection::Right);
}

#[test]
fn jump_adds_to_vertical_velocity() {
    let mut p = body_at(0, 0);
    p.vel = Vec2::new(3, 40);
    p.jump(5_000_000);
    assert_eq!(p.vel, Vec2::new(3, 5_000_040));
    assert_eq!(p.loc, Vec2::new(0, 0));
}

#[test]
fn probed_limits_are_exposed_for_rendering() {
    let w = floor_world([255, 255, 255, 255], default_effect_table());
    let mut p = body_at(1_000_000, 600_000);
    p.update(DT, &w);
    // feet probes all see the bottom row; the body spans cells 5..7
    assert_eq!(p.y0_min, 0);
    assert_eq!(p.y1_min, 0);
    assert_eq!(p.y2_min, 0);
    // head probes leave the raster at the top: 10 * 0.2 - 0.2
    assert_eq!(p.y0_max, 1_800_000);
    assert_eq!(p.y1_max, 1_800_000);
    assert_eq!(p.y2_max, 1_800_000);
    // left probes leave the raster: -0.2 + 0.2; right probes: 10 * 0.2
    assert_eq!(p.x0_min, 0);
    assert_eq!(p.x1_min, 0);
    assert_eq!(p.x2_min, 0);
    assert_eq!(p.x3_min, 0);
    assert_eq!(p.x0_max, 2_000_000);
    assert_eq!(p.x1_max, 2_000_000);
    assert_eq!(p.x2_max, 2_000_000);
    assert_eq!(p.x3_max, 2_000_000);
}
