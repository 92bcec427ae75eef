//! Tests for the raster, the tile-effect registry and the collision probe.

use platformr::constants::MAP_PX_TO_METER;
use platformr::errors::ConfigurationError;
use platformr::probe::{probe, ProbeDir};
use platformr::raster::{Raster, TileColor};
use platformr::vec2::Vec2;
use platformr::world::{
    default_effect_table, pixel_to_world, world_to_pixel, EffectTable, TileEffect,
    TileEffectCondition, TileStatus, WorldMap,
};

/// A raster of `w` x `h` pixels, all transparent except the listed world
/// cells (x from the left, y up from the bottom), painted `color`.
fn raster_with(w: u32, h: u32, solid: &[(u32, u32)], color: [u8; 4]) -> Raster {
    let mut data = vec![0u8; (4 * w * h) as usize];
    for &(x, y) in solid {
        let row = h - 1 - y;
        let i = (4 * (row * w + x)) as usize;
        data[i..i + 4].copy_from_slice(&color);
    }
    Raster::from_raw(w, h, data)
}

const WHITE: [u8; 4] = [255, 255, 255, 255];

fn world_with(w: u32, h: u32, solid: &[(u32, u32)], color: [u8; 4]) -> WorldMap {
    WorldMap::new(
        raster_with(w, h, solid, color),
        default_effect_table(),
        MAP_PX_TO_METER,
        Vec2::zero(),
    )
    .unwrap()
}

#[test]
fn registry_lookup_finds_registered_colors_exactly() {
    let t = default_effect_table();
    let entry = t.lookup(TileColor::rgba(255, 255, 255, 255)).unwrap();
    assert_eq!(
        entry.effects,
        vec![TileEffect::Collision(150_000, Vec2::new(500_000, 0))]
    );
    assert!(entry.conditions.is_empty());
    let orange = t.lookup(TileColor::rgba(230, 180, 50, 255)).unwrap();
    assert_eq!(
        orange.effects,
        vec![
            TileEffect::Collision(0, Vec2::new(150_000, 0)),
            TileEffect::HorizontalSpeedBoost(2_000_000),
        ]
    );
    assert_eq!(orange.conditions, vec![TileEffectCondition::StandingOn]);
    let background = t.lookup(TileColor::transparent()).unwrap();
    assert!(background.effects.is_empty());
}

#[test]
fn registry_lookup_reports_unknown_tiles() {
    let t = default_effect_table();
    // an unregistered color is an explicit "no entry" outcome, which the
    // probe then treats as passable
    assert!(t.lookup(TileColor::rgba(1, 2, 3, 4)).is_none());
}

#[test]
fn registry_register_replaces_earlier_entry() {
    let mut t = EffectTable::new();
    let c = TileColor::rgba(9, 9, 9, 255);
    t.register(c, vec![TileEffect::LaunchEnable(1)], vec![]);
    t.register(c, vec![TileEffect::LaunchEnable(2)], vec![]);
    let entry = t.lookup(c).unwrap();
    assert_eq!(entry.effects, vec![TileEffect::LaunchEnable(2)]);
}

#[test]
fn world_constructor_rejects_bad_configuration() {
    let r = raster_with(2, 2, &[], WHITE);
    match WorldMap::new(r, default_effect_table(), 0, Vec2::zero()) {
        Err(ConfigurationError::NonPositiveScale) => {}
        _ => panic!("nonpositive scale must be rejected"),
    }
    let r = raster_with(2, 2, &[], WHITE);
    match WorldMap::new(r, EffectTable::new(), MAP_PX_TO_METER, Vec2::zero()) {
        Err(ConfigurationError::MissingBackgroundEntry) => {}
        _ => panic!("a registry without the background color must be rejected"),
    }
}

#[test]
fn feet_probe_stops_at_first_collision_tile_below() {
    // a floor tile at world cell (3, 1); scanning down from (3, 4)
    let w = world_with(8, 6, &[(3, 1)], WHITE);
    let (limit, material) = probe(&w, 3, 4, ProbeDir::YMin);
    assert_eq!(limit, 200_000);
    let (bounce, friction) = material.unwrap();
    assert_eq!(bounce, 150_000);
    assert_eq!(friction, Vec2::new(500_000, 0));
}

#[test]
fn probe_leaving_the_raster_returns_the_edge() {
    let w = world_with(8, 6, &[], WHITE);
    // empty column: the scan passes cell 0 and stops one past the edge
    let (down, m_down) = probe(&w, 3, 4, ProbeDir::YMin);
    assert_eq!(down, -200_000);
    assert!(m_down.is_none());
    let (up, m_up) = probe(&w, 3, 4, ProbeDir::YMax);
    assert_eq!(up, 6 * 200_000);
    assert!(m_up.is_none());
    let (left, _) = probe(&w, 3, 4, ProbeDir::XMin);
    assert_eq!(left, -200_000);
    let (right, _) = probe(&w, 3, 4, ProbeDir::XMax);
    assert_eq!(right, 8 * 200_000);
    // a probe starting outside the raster stops where it starts
    let (outside, m_out) = probe(&w, 3, 9, ProbeDir::YMax);
    assert_eq!(outside, 9 * 200_000);
    assert!(m_out.is_none());
}

#[test]
fn horizontal_probes_stop_at_walls() {
    // walls at cells (1, 2) and (6, 2)
    let w = world_with(8, 6, &[(1, 2), (6, 2)], WHITE);
    let (left, m_left) = probe(&w, 4, 2, ProbeDir::XMin);
    assert_eq!(left, 200_000);
    assert!(m_left.is_some());
    let (right, _) = probe(&w, 4, 2, ProbeDir::XMax);
    assert_eq!(right, 6 * 200_000);
    // the wall row does not block other rows
    let (left3, m3) = probe(&w, 4, 3, ProbeDir::XMin);
    assert_eq!(left3, -200_000);
    assert!(m3.is_none());
}

#[test]
fn probe_respects_row_flip() {
    // the top raster row is world row h-1: a tile painted there must stop an
    // upward scan at cell 5, not a downward one
    let w = world_with(4, 6, &[(2, 5)], WHITE);
    let (up, m_up) = probe(&w, 2, 1, ProbeDir::YMax);
    assert_eq!(up, 5 * 200_000);
    assert!(m_up.is_some());
    let (down, m_down) = probe(&w, 2, 1, ProbeDir::YMin);
    assert_eq!(down, -200_000);
    assert!(m_down.is_none());
}

#[test]
fn probe_treats_unregistered_colors_as_passable() {
    // a color with no registry entry: the scan walks straight through it
    let w = world_with(4, 6, &[(2, 3)], [9, 9, 9, 255]);
    let (down, material) = probe(&w, 2, 4, ProbeDir::YMin);
    assert_eq!(down, -200_000);
    assert!(material.is_none());
}

#[test]
fn probe_stops_on_collision_effect_only() {
    // blue is registered (LaunchEnable) but carries no Collision effect
    let w = world_with(4, 6, &[(2, 3)], [50, 222, 250, 255]);
    let (down, material) = probe(&w, 2, 4, ProbeDir::YMin);
    assert_eq!(down, -200_000);
    assert!(material.is_none());
}

#[test]
fn pixel_world_round_trip_is_identity_on_cells() {
    for cell in [-3i64, 0, 1, 7, 12345] {
        let world = pixel_to_world(cell, MAP_PX_TO_METER);
        assert_eq!(world_to_pixel(world, MAP_PX_TO_METER), cell);
    }
    // world coordinates inside a cell floor to that cell
    assert_eq!(world_to_pixel(399_999, MAP_PX_TO_METER), 1);
    assert_eq!(world_to_pixel(-1, MAP_PX_TO_METER), -1);
}

#[test]
fn tile_status_names_unknown_tiles() {
    let w = world_with(2, 2, &[], WHITE);
    assert_eq!(
        w.tile_status(TileColor::rgba(255, 255, 255, 255)),
        TileStatus::Registered
    );
    assert_eq!(
        w.tile_status(TileColor::rgba(1, 2, 3, 4)),
        TileStatus::UnknownTile
    );
}

#[test]
fn probe_on_empty_raster_stops_where_it_starts() {
    let w = world_with(0, 0, &[], WHITE);
    let (down, m) = probe(&w, 2, 3, ProbeDir::YMin);
    assert_eq!(down, 3 * 200_000);
    assert!(m.is_none());
    let (right, _) = probe(&w, 2, 3, ProbeDir::XMax);
    assert_eq!(right, 2 * 200_000);
}
