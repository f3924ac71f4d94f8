//! Road geometry: which way a vehicle travels, how lanes are numbered, and
//! where a lane lies in pixel space.
//!
//! Lanes are numbered `0..TOTAL_LANES` across a road, from west to east on
//! the vertical road and from north to south on the horizontal road. For
//! every direction of travel the lanes `[INBOUND_START, OUTBOUND_START)`
//! carry traffic towards the intersection and the lanes
//! `[OUTBOUND_START, TOTAL_LANES)` carry traffic away from it.

use vstd::prelude::*;
use crate::constants::{
    INBOUND_START, INTERSECTION_BOUNDARY_EAST, INTERSECTION_BOUNDARY_NORTH,
    INTERSECTION_BOUNDARY_SOUTH, INTERSECTION_BOUNDARY_WEST, LANE_WIDTH, OUTBOUND_START,
    ROAD_HORIZONTAL_WIDTH, ROAD_VERTICAL_WIDTH, TOTAL_LANES, WINDOW_HEIGHT, WINDOW_WIDTH,
};

verus! {

/// The compass heading a vehicle travels towards.
#[derive(Clone, Copy, Debug, PartialEq, Eq, Structural)]
pub enum Direction {
    North,
    South,
    East,
    West,
}

impl Direction {
    /// Whether travel in this direction changes the y-coordinate (and so
    /// takes place on the vertical road).
    pub open spec fn is_vertical(self) -> bool {
        self == Direction::North || self == Direction::South
    }

    /// One step of unit length in this direction, as `(dx, dy)`; x grows
    /// towards the east and y towards the south.
    pub open spec fn unit_step(self) -> (int, int) {
        match self {
            Direction::North => (0, -1),
            Direction::South => (0, 1),
            Direction::East => (1, 0),
            Direction::West => (-1, 0),
        }
    }

    /// The directions in the order north, south, east, west.
    pub open spec fn all() -> Seq<Direction> {
        seq![Direction::North, Direction::South, Direction::East, Direction::West]
    }

    /// The direction at place `index` of the order north, south, east, west.
    pub fn from_index(index: i32) -> (direction: Direction)
        requires
            0 <= index < 4,
        ensures
            direction == Direction::all()[index as int],
    {
        if index == 0 {
            Direction::North
        } else if index == 1 {
            Direction::South
        } else if index == 2 {
            Direction::East
        } else {
            Direction::West
        }
    }
}

/// `lane` names a lane of a road.
pub open spec fn valid_lane(lane: int) -> bool {
    0 <= lane < TOTAL_LANES
}

/// `lane` carries traffic towards the intersection.
pub open spec fn is_inbound(lane: int) -> bool {
    INBOUND_START <= lane < OUTBOUND_START
}

/// `lane` carries traffic away from the intersection.
pub open spec fn is_outbound(lane: int) -> bool {
    OUTBOUND_START <= lane < TOTAL_LANES
}

/// Distance of the centerline of `lane` from the edge of its road where
/// lane 0 begins.
pub open spec fn lane_offset(lane: int) -> int {
    lane * LANE_WIDTH + LANE_WIDTH / 2
}

/// The x-coordinate of the western edge of the vertical road.
pub open spec fn vertical_road_start() -> int {
    WINDOW_WIDTH / 2 - ROAD_VERTICAL_WIDTH / 2
}

/// The y-coordinate of the northern edge of the horizontal road.
pub open spec fn horizontal_road_start() -> int {
    WINDOW_HEIGHT / 2 - ROAD_HORIZONTAL_WIDTH / 2
}

/// The coordinate a lane keeps along its whole length: the x-coordinate of
/// its centerline on the vertical road, the y-coordinate on the horizontal
/// road.
pub open spec fn lane_line(direction: Direction, lane: int) -> int {
    if direction.is_vertical() {
        vertical_road_start() + lane_offset(lane)
    } else {
        horizontal_road_start() + lane_offset(lane)
    }
}

/// The line a vehicle heading in `direction` must reach before it commits to
/// its turn: the edge of the intersection that lies in that direction. It is
/// a y-coordinate for north and south, an x-coordinate for east and west.
pub open spec fn intersection_boundary(direction: Direction) -> int {
    match direction {
        Direction::North => INTERSECTION_BOUNDARY_NORTH as int,
        Direction::South => INTERSECTION_BOUNDARY_SOUTH as int,
        Direction::East => INTERSECTION_BOUNDARY_EAST as int,
        Direction::West => INTERSECTION_BOUNDARY_WEST as int,
    }
}

/// The point on the centerline of `lane` where the road of a vehicle heading
/// in `direction` meets the intersection boundary.
pub open spec fn lane_center(direction: Direction, lane: int) -> (int, int) {
    if direction.is_vertical() {
        (lane_line(direction, lane), intersection_boundary(direction))
    } else {
        (intersection_boundary(direction), lane_line(direction, lane))
    }
}

/// The point at the edge of the window where a vehicle heading in
/// `direction` enters on `lane`.
pub open spec fn start_position(direction: Direction, lane: int) -> (int, int) {
    match direction {
        Direction::North => (lane_line(direction, lane), WINDOW_HEIGHT as int),
        Direction::South => (lane_line(direction, lane), 0),
        Direction::East => (0, lane_line(direction, lane)),
        Direction::West => (WINDOW_WIDTH as int, lane_line(direction, lane)),
    }
}

/// The four lines that bound the intersection, in the order west x-line,
/// east x-line, north y-line, south y-line.
pub fn get_intersection_boundaries() -> (bounds: (i32, i32, i32, i32))
    ensures
        bounds.0 == intersection_boundary(Direction::West),
        bounds.1 == intersection_boundary(Direction::East),
        bounds.2 == intersection_boundary(Direction::North),
        bounds.3 == intersection_boundary(Direction::South),
        bounds.0 == WINDOW_WIDTH / 2 - ROAD_VERTICAL_WIDTH / 2,
        bounds.1 == WINDOW_WIDTH / 2 + ROAD_VERTICAL_WIDTH / 2,
        bounds.2 == WINDOW_HEIGHT / 2 - ROAD_HORIZONTAL_WIDTH / 2,
        bounds.3 == WINDOW_HEIGHT / 2 + ROAD_HORIZONTAL_WIDTH / 2,
{
    (
        INTERSECTION_BOUNDARY_WEST,
        INTERSECTION_BOUNDARY_EAST,
        INTERSECTION_BOUNDARY_NORTH,
        INTERSECTION_BOUNDARY_SOUTH,
    )
}

/// Every lane lies within its road, at least half a lane from either edge.
pub proof fn lemma_lane_within_road(direction: Direction, lane: int)
    requires
        valid_lane(lane),
    ensures
        direction.is_vertical() ==> INTERSECTION_BOUNDARY_WEST + LANE_WIDTH / 2 <= lane_line(
            direction,
            lane,
        ) <= INTERSECTION_BOUNDARY_EAST - LANE_WIDTH / 2,
        !direction.is_vertical() ==> INTERSECTION_BOUNDARY_NORTH + LANE_WIDTH / 2 <= lane_line(
            direction,
            lane,
        ) <= INTERSECTION_BOUNDARY_SOUTH - LANE_WIDTH / 2,
{
}

/// A lane is straight: the point where a vehicle enters on it and the point
/// where it reaches the intersection boundary lie on one line along the
/// direction of travel, and the entry point is on the window's edge, short of
/// the boundary.
pub proof fn lemma_start_on_lane_centerline(direction: Direction, lane: int)
    ensures
        direction.is_vertical() ==> start_position(direction, lane).0 == lane_center(
            direction,
            lane,
        ).0,
        !direction.is_vertical() ==> start_position(direction, lane).1 == lane_center(
            direction,
            lane,
        ).1,
        direction == Direction::North ==> start_position(direction, lane).1 > lane_center(
            direction,
            lane,
        ).1,
        direction == Direction::South ==> start_position(direction, lane).1 < lane_center(
            direction,
            lane,
        ).1,
        direction == Direction::East ==> start_position(direction, lane).0 < lane_center(
            direction,
            lane,
        ).0,
        direction == Direction::West ==> start_position(direction, lane).0 > lane_center(
            direction,
            lane,
        ).0,
{
}

} // verus!
