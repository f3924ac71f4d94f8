//! Static configuration of the intersection: window extents, road widths,
//! lane layout, vehicle dimensions and the admission policy.

use vstd::prelude::*;

verus! {

/// Width of the visible window, in pixels.
pub const WINDOW_WIDTH: i32 = 1280;

/// Height of the visible window, in pixels.
pub const WINDOW_HEIGHT: i32 = 720;

/// Extent of the horizontal (east-west) road across the y-axis.
pub const ROAD_HORIZONTAL_WIDTH: i32 = 498;

/// Extent of the vertical (north-south) road across the x-axis.
pub const ROAD_VERTICAL_WIDTH: i32 = 498;

/// The y-line where the intersection ends towards the north.
pub const INTERSECTION_BOUNDARY_NORTH: i32 = 111;

/// The y-line where the intersection ends towards the south.
pub const INTERSECTION_BOUNDARY_SOUTH: i32 = 609;

/// The x-line where the intersection ends towards the west.
pub const INTERSECTION_BOUNDARY_WEST: i32 = 391;

/// The x-line where the intersection ends towards the east.
pub const INTERSECTION_BOUNDARY_EAST: i32 = 889;

/// Lanes in each half (inbound or outbound) of a road.
pub const LANES_PER_SIDE: i32 = 3;

/// Lanes across a whole road.
pub const TOTAL_LANES: i32 = LANES_PER_SIDE * 2;

/// First lane of the inbound half; the half is `[INBOUND_START, OUTBOUND_START)`
/// for every direction of travel.
pub const INBOUND_START: i32 = 0;

/// First lane of the outbound half; the half is `[OUTBOUND_START, TOTAL_LANES)`
/// for every direction of travel.
pub const OUTBOUND_START: i32 = LANES_PER_SIDE;

/// Width of one lane, in pixels.
pub const LANE_WIDTH: i32 = 83;

/// Width of the rectangle a vehicle occupies.
pub const VEHICLE_WIDTH: u32 = 30;

/// Height of the rectangle a vehicle occupies.
pub const VEHICLE_HEIGHT: u32 = 20;

/// Pixels a vehicle covers per tick.
pub const VEHICLE_SPEED: i32 = 2;

/// How far beyond the window a vehicle may be before it is removed.
pub const CULL_MARGIN: i32 = 50;

/// Ticks between two spawn attempts.
pub const SPAWN_INTERVAL: u32 = 60;

/// A spawn is attempted only while fewer vehicles than this are active.
pub const SPAWN_CAP: usize = 20;

/// A spawn attempt succeeds with probability
/// `SPAWN_CHANCE_NUMERATOR / SPAWN_CHANCE_DENOMINATOR`.
pub const SPAWN_CHANCE_NUMERATOR: u32 = 3;

/// See [`SPAWN_CHANCE_NUMERATOR`].
pub const SPAWN_CHANCE_DENOMINATOR: u32 = 10;

/// The configuration is sound: both roads carry `TOTAL_LANES` lanes of
/// uniform width `LANE_WIDTH` with nothing left over, the two halves of a
/// road have the same number of lanes, the intersection is the crossing of
/// the two roads around the window's centre, and the admission policy is
/// well defined.
pub proof fn lemma_configuration_sound()
    ensures
        LANE_WIDTH > 0,
        ROAD_HORIZONTAL_WIDTH == TOTAL_LANES * LANE_WIDTH,
        ROAD_VERTICAL_WIDTH == TOTAL_LANES * LANE_WIDTH,
        ROAD_HORIZONTAL_WIDTH % TOTAL_LANES == 0,
        ROAD_VERTICAL_WIDTH % TOTAL_LANES == 0,
        INBOUND_START == 0,
        OUTBOUND_START - INBOUND_START == TOTAL_LANES - OUTBOUND_START,
        INTERSECTION_BOUNDARY_NORTH == WINDOW_HEIGHT / 2 - ROAD_HORIZONTAL_WIDTH / 2,
        INTERSECTION_BOUNDARY_SOUTH == WINDOW_HEIGHT / 2 + ROAD_HORIZONTAL_WIDTH / 2,
        INTERSECTION_BOUNDARY_WEST == WINDOW_WIDTH / 2 - ROAD_VERTICAL_WIDTH / 2,
        INTERSECTION_BOUNDARY_EAST == WINDOW_WIDTH / 2 + ROAD_VERTICAL_WIDTH / 2,
        0 < INTERSECTION_BOUNDARY_WEST < INTERSECTION_BOUNDARY_EAST < WINDOW_WIDTH,
        0 < INTERSECTION_BOUNDARY_NORTH < INTERSECTION_BOUNDARY_SOUTH < WINDOW_HEIGHT,
        VEHICLE_SPEED > 0,
        CULL_MARGIN >= 0,
        SPAWN_INTERVAL > 0,
        0 < SPAWN_CHANCE_DENOMINATOR,
        SPAWN_CHANCE_NUMERATOR <= SPAWN_CHANCE_DENOMINATOR,
{
}

} // verus!
