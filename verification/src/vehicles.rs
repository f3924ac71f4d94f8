//! One vehicle and the state machine that moves it through the intersection.
//!
//! A vehicle is `Approaching` while `turning` is `false` and `Departed` once
//! it is `true`. The transition fires once, on the first tick that finds the
//! vehicle at or beyond the intersection boundary of its lane.

use vstd::prelude::*;
use crate::constants::{
    CULL_MARGIN, INBOUND_START, INTERSECTION_BOUNDARY_EAST, INTERSECTION_BOUNDARY_NORTH,
    INTERSECTION_BOUNDARY_SOUTH, INTERSECTION_BOUNDARY_WEST, LANES_PER_SIDE, LANE_WIDTH,
    ROAD_HORIZONTAL_WIDTH, ROAD_VERTICAL_WIDTH, VEHICLE_HEIGHT, VEHICLE_SPEED, VEHICLE_WIDTH,
    WINDOW_HEIGHT, WINDOW_WIDTH,
};
use crate::lanes::{
    is_inbound, is_outbound, lane_center, start_position, valid_lane, Direction,
};
use crate::random::random_below;
use crate::turns::{
    choose_turn, target, target_direction, target_lane, turn_is_legal, turn_offset,
};
use rand::rngs::StdRng;

verus! {

/// The turn a vehicle commits to when it is spawned; it never changes.
#[derive(Clone, Copy, Debug, PartialEq, Eq, Structural)]
pub enum TurnDirection {
    Left,
    Straight,
    Right,
}

/// A vehicle: where it is, where it is heading, and what it will do at the
/// intersection.
#[derive(Clone, Copy, Debug, PartialEq, Eq, Structural)]
pub struct Vehicle {
    pub pos_x: i32,
    pub pos_y: i32,
    pub direction: Direction,
    pub lane: i32,
    pub turn_direction: TurnDirection,
    pub turning: bool,
}

/// The mathematical state of a vehicle, with unbounded coordinates.
pub struct VehicleState {
    pub pos_x: int,
    pub pos_y: int,
    pub direction: Direction,
    pub lane: int,
    pub turn_direction: TurnDirection,
    pub turning: bool,
}

impl VehicleState {
    /// The state of a vehicle that has just entered in `direction` on `lane`.
    pub open spec fn arriving(direction: Direction, lane: int, turn: TurnDirection) -> Self {
        VehicleState {
            pos_x: start_position(direction, lane).0,
            pos_y: start_position(direction, lane).1,
            direction,
            lane,
            turn_direction: turn,
            turning: false,
        }
    }

    /// Whether this is the state of a vehicle as it is spawned: at the entry
    /// point of an inbound lane, approaching, and committed to a turn that
    /// its lane permits.
    pub open spec fn is_arrival(self) -> bool {
        &&& self == VehicleState::arriving(self.direction, self.lane, self.turn_direction)
        &&& is_inbound(self.lane)
        &&& turn_is_legal(self.direction, self.lane, self.turn_direction)
    }

    /// The lane invariant: an approaching vehicle is on an inbound lane, a
    /// departed one on an outbound lane.
    pub open spec fn inv(self) -> bool {
        if self.turning {
            is_outbound(self.lane)
        } else {
            is_inbound(self.lane)
        }
    }

    /// The state fits a [`Vehicle`].
    pub open spec fn representable(self) -> bool {
        &&& i32::MIN <= self.pos_x <= i32::MAX
        &&& i32::MIN <= self.pos_y <= i32::MAX
        &&& i32::MIN <= self.lane <= i32::MAX
    }

    /// Whether the turn is due: the vehicle is still approaching and is at
    /// or beyond the intersection boundary of its lane in its direction of
    /// travel.
    pub open spec fn should_turn(self) -> bool {
        let center = lane_center(self.direction, self.lane);
        !self.turning && match self.direction {
            Direction::North => self.pos_y <= center.1,
            Direction::South => self.pos_y >= center.1,
            Direction::East => self.pos_x >= center.0,
            Direction::West => self.pos_x <= center.0,
        }
    }

    /// The state with the coordinate along the axis of travel set to that of
    /// the lane center; the other coordinate stays.
    pub open spec fn snapped(self) -> Self {
        let center = lane_center(self.direction, self.lane);
        if self.direction.is_vertical() {
            VehicleState { pos_y: center.1, ..self }
        } else {
            VehicleState { pos_x: center.0, ..self }
        }
    }

    /// The state after the transition: a vehicle that turns left or right
    /// pivots on the lane center, every vehicle takes the heading and the
    /// lane its turn leads to, and is `Departed`.
    pub open spec fn turned(self) -> Self {
        let pivot = if self.turn_direction == TurnDirection::Straight {
            self
        } else {
            self.snapped()
        };
        VehicleState {
            direction: target_direction(self.direction, self.turn_direction),
            lane: target_lane(self.direction, self.turn_direction),
            turning: true,
            ..pivot
        }
    }

    /// The state one step of `VEHICLE_SPEED` further along the heading.
    pub open spec fn moved(self) -> Self {
        let step = self.direction.unit_step();
        VehicleState {
            pos_x: self.pos_x + step.0 * VEHICLE_SPEED,
            pos_y: self.pos_y + step.1 * VEHICLE_SPEED,
            ..self
        }
    }

    /// The state after one tick: the transition if it is due, then one step
    /// along the heading, which may have just changed.
    pub open spec fn advance(self) -> Self {
        if self.should_turn() {
            self.turned().moved()
        } else {
            self.moved()
        }
    }

    /// The state after `n` ticks.
    pub open spec fn advance_n(self, n: nat) -> Self
        decreases n,
    {
        if n == 0 {
            self
        } else {
            self.advance_n((n - 1) as nat).advance()
        }
    }

    /// Whether the vehicle is within the window or no more than
    /// `CULL_MARGIN` outside it.
    pub open spec fn in_bounds(self) -> bool {
        &&& -CULL_MARGIN <= self.pos_x <= WINDOW_WIDTH + CULL_MARGIN
        &&& -CULL_MARGIN <= self.pos_y <= WINDOW_HEIGHT + CULL_MARGIN
    }

    /// How far the vehicle has come along its heading, measured from the
    /// window's centre: it grows as the vehicle moves on.
    pub open spec fn progress(self) -> int {
        let step = self.direction.unit_step();
        (self.pos_x - WINDOW_WIDTH / 2) * step.0 + (self.pos_y - WINDOW_HEIGHT / 2) * step.1
    }

    /// The distance of the vehicle from the centre of the intersection,
    /// along the axis it travels on.
    pub open spec fn distance_from_center(self) -> int {
        if self.progress() >= 0 {
            self.progress()
        } else {
            -self.progress()
        }
    }
}

/// Advancing for `m` ticks and then for `n` more is advancing for `m + n`.
pub proof fn lemma_advance_n_split(v: VehicleState, m: nat, n: nat)
    ensures
        v.advance_n(m).advance_n(n) == v.advance_n(m + n),
    decreases n,
{
    if n > 0 {
        lemma_advance_n_split(v, m, (n - 1) as nat);
    }
}

/// A tick keeps the lane invariant, never changes the turn a vehicle is
/// committed to, and never takes a departed vehicle back to approaching.
pub proof fn lemma_advance_keeps_inv(v: VehicleState)
    requires
        v.inv(),
    ensures
        v.advance().inv(),
        v.advance().turn_direction == v.turn_direction,
        v.turning ==> v.advance().turning,
        v.advance().turning == (v.turning || v.should_turn()),
{
}

/// Any number of ticks keep the lane invariant and the turn a vehicle is
/// committed to.
pub proof fn lemma_advance_n_keeps_inv(v: VehicleState, n: nat)
    requires
        v.inv(),
    ensures
        v.advance_n(n).inv(),
        v.advance_n(n).turn_direction == v.turn_direction,
    decreases n,
{
    if n > 0 {
        lemma_advance_n_keeps_inv(v, (n - 1) as nat);
        lemma_advance_keeps_inv(v.advance_n((n - 1) as nat));
    }
}

/// A departed vehicle keeps its heading and its lane however often it is
/// advanced, and each tick takes it exactly `VEHICLE_SPEED` further along
/// that heading: it never turns again, never moves back and never stands
/// still.
pub proof fn lemma_departed_keeps_course(v: VehicleState, n: nat)
    requires
        v.turning,
    ensures
        v.advance_n(n).turning,
        v.advance_n(n).direction == v.direction,
        v.advance_n(n).lane == v.lane,
        v.advance_n(n).turn_direction == v.turn_direction,
        v.advance_n(n).progress() == v.progress() + n * VEHICLE_SPEED,
        v.direction.is_vertical() ==> v.advance_n(n).pos_x == v.pos_x,
        !v.direction.is_vertical() ==> v.advance_n(n).pos_y == v.pos_y,
    decreases n,
{
    if n > 0 {
        lemma_departed_keeps_course(v, (n - 1) as nat);
    }
}

/// The transition fires at most once: if a vehicle is departed after `m`
/// ticks, then after any later tick it is still departed, with the heading
/// and the lane it had after `m` ticks.
pub proof fn lemma_transition_fires_once(v: VehicleState, m: nat, n: nat)
    requires
        m <= n,
        v.advance_n(m).turning,
    ensures
        v.advance_n(n).turning,
        v.advance_n(n).direction == v.advance_n(m).direction,
        v.advance_n(n).lane == v.advance_n(m).lane,
{
    lemma_advance_n_split(v, m, (n - m) as nat);
    lemma_departed_keeps_course(v.advance_n(m), (n - m) as nat);
}

/// A departed vehicle that is at or beyond the centre of the intersection
/// along its heading gets strictly further from the centre with every tick.
pub proof fn lemma_monotonic_exit(v: VehicleState, n: nat)
    requires
        v.turning,
        v.progress() >= 0,
    ensures
        v.advance_n(n).progress() >= 0,
        v.advance_n(n + 1).distance_from_center() > v.advance_n(n).distance_from_center(),
        v.advance_n(n + 1).distance_from_center() == v.distance_from_center() + (n + 1)
            * VEHICLE_SPEED,
{
    lemma_departed_keeps_course(v, n);
    lemma_departed_keeps_course(v, n + 1);
    assert((n + 1) * VEHICLE_SPEED == n * VEHICLE_SPEED + VEHICLE_SPEED) by (nonlinear_arith);
    assert(n * VEHICLE_SPEED >= 0) by (nonlinear_arith)
        requires
            n >= 0,
            VEHICLE_SPEED == 2,
    ;
}

impl View for Vehicle {
    type V = VehicleState;

    open spec fn view(&self) -> VehicleState {
        VehicleState {
            pos_x: self.pos_x as int,
            pos_y: self.pos_y as int,
            direction: self.direction,
            lane: self.lane as int,
            turn_direction: self.turn_direction,
            turning: self.turning,
        }
    }
}

/// A colour, by its red, green and blue parts.
#[derive(Clone, Copy, Debug, PartialEq, Eq, Structural)]
pub struct Color {
    pub r: u8,
    pub g: u8,
    pub b: u8,
}

/// A filled rectangle for the renderer: its top-left corner, its size and
/// its colour.
#[derive(Clone, Copy, Debug, PartialEq, Eq, Structural)]
pub struct DrawRect {
    pub x: i32,
    pub y: i32,
    pub width: u32,
    pub height: u32,
    pub color: Color,
}

/// The colour a vehicle is drawn in, one per turn: red for left, green for
/// straight, blue for right.
pub open spec fn turn_color(turn: TurnDirection) -> Color {
    match turn {
        TurnDirection::Left => Color { r: 255, g: 100, b: 100 },
        TurnDirection::Straight => Color { r: 100, g: 255, b: 100 },
        TurnDirection::Right => Color { r: 100, g: 100, b: 255 },
    }
}

impl Vehicle {
    /// A vehicle that enters in `direction` on the inbound lane `lane` and
    /// will take `turn_direction` at the intersection.
    pub fn new(direction: Direction, lane: i32, turn_direction: TurnDirection) -> (vehicle: Self)
        requires
            is_inbound(lane as int),
        ensures
            vehicle@ == VehicleState::arriving(direction, lane as int, turn_direction),
            vehicle@.inv(),
    {
        let (pos_x, pos_y) = Self::get_start_position(direction, lane);
        Vehicle { pos_x, pos_y, direction, lane, turn_direction, turning: false }
    }

    /// A vehicle as it is spawned: heading in a direction drawn uniformly
    /// from the four, on an inbound lane drawn uniformly from those of its
    /// road, committed to a turn drawn uniformly from those its lane permits.
    pub fn random(rng: &mut StdRng) -> (vehicle: Self)
        ensures
            vehicle@.is_arrival(),
            vehicle@.inv(),
            vehicle@.in_bounds(),
    {
        let direction = Direction::from_index(random_below(rng, 4));
        let lane: i32 = INBOUND_START + random_below(rng, LANES_PER_SIDE);
        let turn_direction = choose_turn(direction, lane, rng);
        Vehicle::new(direction, lane, turn_direction)
    }

    /// The point at the edge of the window where a vehicle heading in
    /// `direction` enters on `lane`.
    pub fn get_start_position(direction: Direction, lane: i32) -> (position: (i32, i32))
        requires
            valid_lane(lane as int),
        ensures
            position.0 == start_position(direction, lane as int).0,
            position.1 == start_position(direction, lane as int).1,
    {
        let lane_offset: i32 = lane * LANE_WIDTH + (LANE_WIDTH / 2);
        match direction {
            Direction::North => {
                let x: i32 = (WINDOW_WIDTH / 2) - (ROAD_VERTICAL_WIDTH / 2) + lane_offset;
                let y: i32 = WINDOW_HEIGHT;
                (x, y)
            },
            Direction::South => {
                let x: i32 = (WINDOW_WIDTH / 2) - (ROAD_VERTICAL_WIDTH / 2) + lane_offset;
                let y: i32 = 0;
                (x, y)
            },
            Direction::East => {
                let x: i32 = 0;
                let y: i32 = (WINDOW_HEIGHT / 2) - (ROAD_HORIZONTAL_WIDTH / 2) + lane_offset;
                (x, y)
            },
            Direction::West => {
                let x: i32 = WINDOW_WIDTH;
                let y: i32 = (WINDOW_HEIGHT / 2) - (ROAD_HORIZONTAL_WIDTH / 2) + lane_offset;
                (x, y)
            },
        }
    }

    /// The lane this vehicle's turn leads to.
    pub fn get_target_lane(&self) -> (lane: i32)
        ensures
            lane == target_lane(self.direction, self.turn_direction),
            is_outbound(lane as int),
    {
        target(self.direction, self.turn_direction).1
    }

    /// The sideways shift that goes with this vehicle's turn, as `(dx, dy)`:
    /// one lane width across its direction of travel, towards the heading
    /// its turn leads to, and nothing when it goes straight.
    pub fn get_turn_offset(&self) -> (offset: (i32, i32))
        ensures
            offset.0 == turn_offset(self.direction, self.turn_direction).0,
            offset.1 == turn_offset(self.direction, self.turn_direction).1,
            self.direction.is_vertical() ==> offset.1 == 0,
            !self.direction.is_vertical() ==> offset.0 == 0,
    {
        let offset: i32 = LANE_WIDTH;
        match (self.direction, self.turn_direction) {
            (Direction::North, TurnDirection::Left) => (-offset, 0),
            (Direction::North, TurnDirection::Right) => (offset, 0),
            (Direction::South, TurnDirection::Left) => (offset, 0),
            (Direction::South, TurnDirection::Right) => (-offset, 0),
            (Direction::East, TurnDirection::Left) => (0, -offset),
            (Direction::East, TurnDirection::Right) => (0, offset),
            (Direction::West, TurnDirection::Left) => (0, offset),
            (Direction::West, TurnDirection::Right) => (0, -offset),
            (_, TurnDirection::Straight) => (0, 0),
        }
    }

    /// The point on the centerline of this vehicle's lane where its road
    /// meets the intersection boundary.
    pub fn get_lane_center(&self) -> (center: (i32, i32))
        requires
            valid_lane(self.lane as int),
        ensures
            center.0 == lane_center(self.direction, self.lane as int).0,
            center.1 == lane_center(self.direction, self.lane as int).1,
    {
        let lane_offset: i32 = self.lane * LANE_WIDTH + (LANE_WIDTH / 2);
        match self.direction {
            Direction::North => {
                let x: i32 = (WINDOW_WIDTH / 2) - (ROAD_VERTICAL_WIDTH / 2) + lane_offset;
                let y: i32 = INTERSECTION_BOUNDARY_NORTH;
                (x, y)
            },
            Direction::South => {
                let x: i32 = (WINDOW_WIDTH / 2) - (ROAD_VERTICAL_WIDTH / 2) + lane_offset;
                let y: i32 = INTERSECTION_BOUNDARY_SOUTH;
                (x, y)
            },
            Direction::East => {
                let x: i32 = INTERSECTION_BOUNDARY_EAST;
                let y: i32 = (WINDOW_HEIGHT / 2) - (ROAD_HORIZONTAL_WIDTH / 2) + lane_offset;
                (x, y)
            },
            Direction::West => {
                let x: i32 = INTERSECTION_BOUNDARY_WEST;
                let y: i32 = (WINDOW_HEIGHT / 2) - (ROAD_HORIZONTAL_WIDTH / 2) + lane_offset;
                (x, y)
            },
        }
    }

    /// Whether the turn is due on this tick.
    pub fn should_turn(&self) -> (due: bool)
        requires
            valid_lane(self.lane as int),
        ensures
            due == self@.should_turn(),
    {
        if self.turning {
            return false;
        }
        let (lane_center_x, lane_center_y) = self.get_lane_center();
        match self.direction {
            Direction::North => self.pos_y <= lane_center_y,
            Direction::South => self.pos_y >= lane_center_y,
            Direction::East => self.pos_x >= lane_center_x,
            Direction::West => self.pos_x <= lane_center_x,
        }
    }

    /// The heading this vehicle's turn leads to.
    pub fn get_new_direction(&self) -> (direction: Direction)
        ensures
            direction == target_direction(self.direction, self.turn_direction),
    {
        target(self.direction, self.turn_direction).0
    }

    /// Advances the vehicle by one tick: if the turn is due, the vehicle
    /// pivots on its lane center (unless it goes straight), takes the heading
    /// and the lane its turn leads to and becomes `Departed`; then it moves
    /// `VEHICLE_SPEED` along its heading.
    pub fn move_vehicle(&mut self)
        requires
            old(self)@.inv(),
            old(self)@.advance().representable(),
        ensures
            final(self)@ == old(self)@.advance(),
            final(self)@.inv(),
            final(self).turn_direction == old(self).turn_direction,
            old(self).turning ==> final(self).turning && final(self).direction == old(
                self,
            ).direction && final(self).lane == old(self).lane,
    {
        let speed: i32 = VEHICLE_SPEED;
        if self.should_turn() {
            self.turning = true;
            let (lane_center_x, lane_center_y) = self.get_lane_center();
            match self.turn_direction {
                TurnDirection::Straight => {},
                _ => {
                    match self.direction {
                        Direction::North => self.pos_y = lane_center_y,
                        Direction::South => self.pos_y = lane_center_y,
                        Direction::East => self.pos_x = lane_center_x,
                        Direction::West => self.pos_x = lane_center_x,
                    }
                },
            }
            let (direction, lane) = target(self.direction, self.turn_direction);
            self.direction = direction;
            self.lane = lane;
        }
        match self.direction {
            Direction::North => self.pos_y -= speed,
            Direction::South => self.pos_y += speed,
            Direction::East => self.pos_x += speed,
            Direction::West => self.pos_x -= speed,
        }
    }

    /// The rectangle the vehicle occupies, centered at its position, in the
    /// colour of its turn.
    pub fn render(&self) -> (rect: DrawRect)
        requires
            self.pos_x - VEHICLE_WIDTH / 2 >= i32::MIN,
            self.pos_y - VEHICLE_HEIGHT / 2 >= i32::MIN,
        ensures
            rect.x == self.pos_x - VEHICLE_WIDTH / 2,
            rect.y == self.pos_y - VEHICLE_HEIGHT / 2,
            rect.width == VEHICLE_WIDTH,
            rect.height == VEHICLE_HEIGHT,
            rect.color == turn_color(self.turn_direction),
    {
        let color = match self.turn_direction {
            TurnDirection::Left => Color { r: 255, g: 100, b: 100 },
            TurnDirection::Straight => Color { r: 100, g: 255, b: 100 },
            TurnDirection::Right => Color { r: 100, g: 100, b: 255 },
        };
        DrawRect {
            x: self.pos_x - (VEHICLE_WIDTH / 2) as i32,
            y: self.pos_y - (VEHICLE_HEIGHT / 2) as i32,
            width: VEHICLE_WIDTH,
            height: VEHICLE_HEIGHT,
            color,
        }
    }

    /// Whether the vehicle is within the window or no more than
    /// `CULL_MARGIN` outside it.
    pub fn in_bounds(&self) -> (inside: bool)
        ensures
            inside == self@.in_bounds(),
    {
        self.pos_x >= -CULL_MARGIN && self.pos_x <= WINDOW_WIDTH + CULL_MARGIN && self.pos_y
            >= -CULL_MARGIN && self.pos_y <= WINDOW_HEIGHT + CULL_MARGIN
    }
}

} // verus!
