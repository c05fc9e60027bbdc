//! Unit checks of the world model: distances, health fractions, compass
//! buckets and snapshot lookups.

use npc_behavior::compass::{compass_dir, distance_bucket, CompassDir, DistanceBucket};
use npc_behavior::world::{
    dist_sqrd, frac_permille, Health, EntityInfo, Pos, WorldSnapshot,
};

fn pos(x: i64, y: i64, z: i64) -> Pos {
    Pos { x, y, z }
}

fn bare_entity(id: u64, p: Pos) -> EntityInfo {
    EntityInfo {
        id,
        pos: Some(p),
        health: None,
        alignment: None,
        body: None,
        invulnerable: false,
        name: None,
    }
}

#[test]
fn dist_sqrd_exact() {
    assert_eq!(dist_sqrd(&pos(1, 2, 3), &pos(4, 6, 3)), 25);
    assert_eq!(dist_sqrd(&pos(0, 0, 0), &pos(0, 0, 0)), 0);
    assert_eq!(dist_sqrd(&pos(-3, 0, 0), &pos(3, 0, 0)), 36);
}

#[test]
fn frac_permille_exact() {
    let h = Health { current: 10, max: 100, last_change: None };
    assert_eq!(frac_permille(&h), 100);
    let third = Health { current: 1, max: 3, last_change: None };
    assert_eq!(frac_permille(&third), 333);
    let full = Health { current: 7, max: 7, last_change: None };
    assert_eq!(frac_permille(&full), 1000);
    let dead = Health { current: 0, max: 50, last_change: None };
    assert_eq!(frac_permille(&dead), 0);
}

#[test]
fn distance_buckets() {
    assert_eq!(distance_bucket(0, 0), DistanceBucket::NextTo);
    assert_eq!(distance_bucket(100, 100), DistanceBucket::NextTo);
    assert_eq!(distance_bucket(0, 300), DistanceBucket::Near);
    assert_eq!(distance_bucket(700, 0), DistanceBucket::Ahead);
    assert_eq!(distance_bucket(0, 2000), DistanceBucket::Far);
    assert_eq!(distance_bucket(3000, 0), DistanceBucket::VeryFar);
}

#[test]
fn compass_cardinals() {
    assert_eq!(compass_dir(100, 10), CompassDir::East);
    assert_eq!(compass_dir(-100, 10), CompassDir::West);
    assert_eq!(compass_dir(10, 100), CompassDir::North);
    assert_eq!(compass_dir(10, -100), CompassDir::South);
}

#[test]
fn compass_diagonals_and_zero() {
    assert_eq!(compass_dir(100, 100), CompassDir::NorthEast);
    assert_eq!(compass_dir(-100, 100), CompassDir::NorthWest);
    assert_eq!(compass_dir(100, -100), CompassDir::SouthEast);
    assert_eq!(compass_dir(-100, -100), CompassDir::SouthWest);
    assert_eq!(compass_dir(0, 0), CompassDir::North);
}

#[test]
fn lookup_finds_and_misses() {
    let w = WorldSnapshot {
        time: 1000,
        dt: 100,
        entities: vec![bare_entity(3, pos(1, 1, 1)), bare_entity(8, pos(2, 2, 2))],
    };
    let found = w.lookup(8).expect("entity 8 is in the snapshot");
    assert_eq!(found.id, 8);
    assert_eq!(found.pos, Some(pos(2, 2, 2)));
    assert!(w.lookup(99).is_none());
}
