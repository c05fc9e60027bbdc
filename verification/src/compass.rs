//! Bucketed distance and compass-direction descriptors for locational
//! dialogue answers, computed from plain horizontal offsets.

use vstd::prelude::*;

verus! {

/// Offsets handed to the compass are differences of in-bounds coordinates.
pub const OFFSET_LIMIT: i64 = 2_000_000;

/// How far away a queried point is, in rough buckets.
#[derive(Clone, Copy, PartialEq, Eq, Debug)]
pub enum DistanceBucket {
    NextTo,
    Near,
    Ahead,
    Far,
    VeryFar,
}

/// Eight-way compass direction toward a queried point.
#[derive(Clone, Copy, PartialEq, Eq, Debug)]
pub enum CompassDir {
    North,
    NorthEast,
    East,
    SouthEast,
    South,
    SouthWest,
    West,
    NorthWest,
}

/// Squared-distance thresholds of the buckets, in tenths of a metre.
pub const NEXT_TO_DIST: i64 = 200;

pub const NEAR_DIST: i64 = 600;

pub const AHEAD_DIST: i64 = 1_000;

pub const FAR_DIST: i64 = 2_500;

pub open spec fn spec_distance_bucket(dx: int, dy: int) -> DistanceBucket {
    let d2 = dx * dx + dy * dy;
    if d2 < NEXT_TO_DIST * NEXT_TO_DIST {
        DistanceBucket::NextTo
    } else if d2 < NEAR_DIST * NEAR_DIST {
        DistanceBucket::Near
    } else if d2 < AHEAD_DIST * AHEAD_DIST {
        DistanceBucket::Ahead
    } else if d2 < FAR_DIST * FAR_DIST {
        DistanceBucket::Far
    } else {
        DistanceBucket::VeryFar
    }
}

/// Bucket the length of a horizontal offset.
pub fn distance_bucket(dx: i64, dy: i64) -> (r: DistanceBucket)
    requires
        -OFFSET_LIMIT <= dx <= OFFSET_LIMIT,
        -OFFSET_LIMIT <= dy <= OFFSET_LIMIT,
    ensures
        r == spec_distance_bucket(dx as int, dy as int),
{
    assert(0 <= dx * dx <= 4_000_000_000_000 && 0 <= dy * dy <= 4_000_000_000_000)
        by (nonlinear_arith)
        requires
            -OFFSET_LIMIT <= dx <= OFFSET_LIMIT,
            -OFFSET_LIMIT <= dy <= OFFSET_LIMIT,
    ;
    let d2: i64 = dx * dx + dy * dy;
    if d2 < NEXT_TO_DIST * NEXT_TO_DIST {
        DistanceBucket::NextTo
    } else if d2 < NEAR_DIST * NEAR_DIST {
        DistanceBucket::Near
    } else if d2 < AHEAD_DIST * AHEAD_DIST {
        DistanceBucket::Ahead
    } else if d2 < FAR_DIST * FAR_DIST {
        DistanceBucket::Far
    } else {
        DistanceBucket::VeryFar
    }
}

pub open spec fn spec_abs(v: int) -> int {
    if v >= 0 {
        v
    } else {
        -v
    }
}

/// Eight-way direction of a horizontal offset: a cardinal direction where
/// one axis clearly dominates, a diagonal otherwise; north for a zero
/// offset.
pub open spec fn spec_compass_dir(dx: int, dy: int) -> CompassDir {
    if 2 * spec_abs(dy) < dx {
        CompassDir::East
    } else if 2 * spec_abs(dy) < -dx {
        CompassDir::West
    } else if 2 * spec_abs(dx) < dy {
        CompassDir::North
    } else if 2 * spec_abs(dx) < -dy {
        CompassDir::South
    } else if dx == 0 && dy == 0 {
        CompassDir::North
    } else if dx >= 0 && dy >= 0 {
        CompassDir::NorthEast
    } else if dx < 0 && dy >= 0 {
        CompassDir::NorthWest
    } else if dx >= 0 {
        CompassDir::SouthEast
    } else {
        CompassDir::SouthWest
    }
}

/// Compass direction of a horizontal offset.
pub fn compass_dir(dx: i64, dy: i64) -> (r: CompassDir)
    requires
        -OFFSET_LIMIT <= dx <= OFFSET_LIMIT,
        -OFFSET_LIMIT <= dy <= OFFSET_LIMIT,
    ensures
        r == spec_compass_dir(dx as int, dy as int),
{
    let ax: i64 = if dx >= 0 {
        dx
    } else {
        -dx
    };
    let ay: i64 = if dy >= 0 {
        dy
    } else {
        -dy
    };
    if 2 * ay < dx {
        CompassDir::East
    } else if 2 * ay < -dx {
        CompassDir::West
    } else if 2 * ax < dy {
        CompassDir::North
    } else if 2 * ax < -dy {
        CompassDir::South
    } else if dx == 0 && dy == 0 {
        CompassDir::North
    } else if dx >= 0 && dy >= 0 {
        CompassDir::NorthEast
    } else if dx < 0 && dy >= 0 {
        CompassDir::NorthWest
    } else if dx >= 0 {
        CompassDir::SouthEast
    } else {
        CompassDir::SouthWest
    }
}

} // verus!
