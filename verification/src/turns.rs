//! Turn policy: which turns a lane permits, and where each turn leads.
//!
//! Only the edge lanes of the inbound half may turn: the lane nearest the
//! driver's left permits a left turn, the lane nearest the driver's right a
//! right turn, and every inbound lane permits going straight. A turn leads to
//! the outbound half of the new heading, to the lane on the side of the turn.

use vstd::prelude::*;
use crate::constants::{INBOUND_START, LANES_PER_SIDE, LANE_WIDTH, OUTBOUND_START};
use crate::lanes::{is_inbound, is_outbound, lane_line, valid_lane, Direction};
use crate::random::random_below;
use crate::vehicles::TurnDirection;
use rand::rngs::StdRng;

verus! {

/// Where, counted from the first lane of a half, a driver heading in
/// `direction` finds the lane that belongs to `turn`: the lane nearest the
/// left for a left turn, the middle lane for going straight, the lane nearest
/// the right for a right turn. Lane numbers grow towards the driver's right
/// when heading north or east, and towards the driver's left when heading
/// south or west.
pub open spec fn turn_slot(direction: Direction, turn: TurnDirection) -> int {
    let grows_rightwards = direction == Direction::North || direction == Direction::East;
    match turn {
        TurnDirection::Straight => LANES_PER_SIDE / 2,
        TurnDirection::Left => if grows_rightwards {
            0
        } else {
            LANES_PER_SIDE - 1
        },
        TurnDirection::Right => if grows_rightwards {
            LANES_PER_SIDE - 1
        } else {
            0
        },
    }
}

/// Whether a vehicle approaching in `direction` on `lane` may take `turn`.
/// No turn is legal from a lane outside the inbound half.
pub open spec fn turn_is_legal(direction: Direction, lane: int, turn: TurnDirection) -> bool {
    is_inbound(lane) && (turn == TurnDirection::Straight || lane == INBOUND_START + turn_slot(
        direction,
        turn,
    ))
}

/// The set of turns that `lane` permits to a vehicle approaching in
/// `direction`.
pub open spec fn legal_turn_set(direction: Direction, lane: int) -> Set<TurnDirection> {
    Set::new(|turn: TurnDirection| turn_is_legal(direction, lane, turn))
}

/// `turn` alone if it is legal, nothing otherwise.
pub open spec fn turn_if_legal(direction: Direction, lane: int, turn: TurnDirection) -> Seq<
    TurnDirection,
> {
    if turn_is_legal(direction, lane, turn) {
        seq![turn]
    } else {
        Seq::empty()
    }
}

/// The legal turns in the order left, straight, right.
pub open spec fn legal_turn_seq(direction: Direction, lane: int) -> Seq<TurnDirection> {
    turn_if_legal(direction, lane, TurnDirection::Left) + turn_if_legal(
        direction,
        lane,
        TurnDirection::Straight,
    ) + turn_if_legal(direction, lane, TurnDirection::Right)
}

/// The heading after `turn`: unchanged when going straight, a quarter turn
/// counter-clockwise for a left turn, a quarter turn clockwise for a right
/// turn.
pub open spec fn target_direction(direction: Direction, turn: TurnDirection) -> Direction {
    match turn {
        TurnDirection::Straight => direction,
        TurnDirection::Left => match direction {
            Direction::North => Direction::West,
            Direction::West => Direction::South,
            Direction::South => Direction::East,
            Direction::East => Direction::North,
        },
        TurnDirection::Right => match direction {
            Direction::North => Direction::East,
            Direction::East => Direction::South,
            Direction::South => Direction::West,
            Direction::West => Direction::North,
        },
    }
}

/// The lane after `turn`: the lane of the outbound half of the new heading
/// that lies on the side of the turn.
pub open spec fn target_lane(direction: Direction, turn: TurnDirection) -> int {
    OUTBOUND_START + turn_slot(target_direction(direction, turn), turn)
}

/// The sideways shift that goes with a turn, as `(dx, dy)`: one lane width
/// towards the heading the turn leads to, and nothing when going straight.
pub open spec fn turn_offset(direction: Direction, turn: TurnDirection) -> (int, int) {
    if turn == TurnDirection::Straight {
        (0, 0)
    } else {
        let step = target_direction(direction, turn).unit_step();
        (step.0 * LANE_WIDTH, step.1 * LANE_WIDTH)
    }
}

/// Every inbound lane permits at least one turn, going straight among them,
/// and every turn a lane permits leads somewhere: to an outbound lane of the
/// road.
pub proof fn lemma_legal_turns_have_targets(direction: Direction, lane: int)
    requires
        is_inbound(lane),
    ensures
        exists|turn: TurnDirection| legal_turn_set(direction, lane).contains(turn),
        legal_turn_set(direction, lane).contains(TurnDirection::Straight),
        legal_turn_seq(direction, lane).len() > 0,
        forall|turn: TurnDirection| #[trigger]
            legal_turn_set(direction, lane).contains(turn) ==> is_outbound(
                target_lane(direction, turn),
            ) && valid_lane(target_lane(direction, turn)),
{
    assert(legal_turn_set(direction, lane).contains(TurnDirection::Straight));
}

/// Lane discipline: the inbound lane nearest the driver's left permits
/// exactly a left turn and going straight, the one nearest the driver's right
/// exactly going straight and a right turn, and the lanes between them
/// nothing but going straight.
pub proof fn lemma_only_edge_lanes_turn(direction: Direction, lane: int)
    requires
        is_inbound(lane),
    ensures
        lane == INBOUND_START + turn_slot(direction, TurnDirection::Left) ==> legal_turn_set(
            direction,
            lane,
        ) =~= set![TurnDirection::Left, TurnDirection::Straight],
        lane == INBOUND_START + turn_slot(direction, TurnDirection::Right) ==> legal_turn_set(
            direction,
            lane,
        ) =~= set![TurnDirection::Straight, TurnDirection::Right],
        lane != INBOUND_START + turn_slot(direction, TurnDirection::Left) && lane != INBOUND_START
            + turn_slot(direction, TurnDirection::Right) ==> legal_turn_set(direction, lane)
            =~= set![TurnDirection::Straight],
{
}

/// Policy and geometry agree on what "left" and "right" mean: of all inbound
/// lanes, the one that permits a turn lies furthest towards the side the
/// turn shifts a vehicle to.
pub proof fn lemma_turning_lane_is_on_the_side_of_the_turn(
    direction: Direction,
    lane: int,
    other: int,
    turn: TurnDirection,
)
    requires
        turn != TurnDirection::Straight,
        turn_is_legal(direction, lane, turn),
        is_inbound(other),
    ensures
        turn_offset(direction, turn).0 < 0 || turn_offset(direction, turn).1 < 0 ==> lane_line(
            direction,
            lane,
        ) <= lane_line(direction, other),
        turn_offset(direction, turn).0 > 0 || turn_offset(direction, turn).1 > 0 ==> lane_line(
            direction,
            lane,
        ) >= lane_line(direction, other),
        turn_offset(direction, turn) != (0int, 0int),
        direction.is_vertical() ==> turn_offset(direction, turn).1 == 0,
        !direction.is_vertical() ==> turn_offset(direction, turn).0 == 0,
{
}

/// The turns that `lane` permits to a vehicle approaching in `direction`, in
/// the order left, straight, right. The list is empty exactly when `lane` is
/// not an inbound lane.
pub fn legal_turns(direction: Direction, lane: i32) -> (turns: Vec<TurnDirection>)
    ensures
        turns@ == legal_turn_seq(direction, lane as int),
        turns@.no_duplicates(),
        forall|turn: TurnDirection|
            turns@.contains(turn) <==> legal_turn_set(direction, lane as int).contains(turn),
        is_inbound(lane as int) <==> turns@.len() > 0,
        turns@.len() <= 3,
{
    let mut turns: Vec<TurnDirection> = Vec::new();
    if lane < INBOUND_START || lane >= OUTBOUND_START {
        return turns;
    }
    let grows_rightwards = match direction {
        Direction::North | Direction::East => true,
        Direction::South | Direction::West => false,
    };
    let left_lane: i32 = if grows_rightwards {
        INBOUND_START
    } else {
        OUTBOUND_START - 1
    };
    let right_lane: i32 = if grows_rightwards {
        OUTBOUND_START - 1
    } else {
        INBOUND_START
    };
    if lane == left_lane {
        turns.push(TurnDirection::Left);
    }
    turns.push(TurnDirection::Straight);
    if lane == right_lane {
        turns.push(TurnDirection::Right);
    }
    assert forall|turn: TurnDirection|
        turns@.contains(turn) <==> legal_turn_set(direction, lane as int).contains(turn) by {
        if turn_is_legal(direction, lane as int, turn) {
            let at: int = if turn == TurnDirection::Left {
                0
            } else if turn == TurnDirection::Straight {
                turn_if_legal(direction, lane as int, TurnDirection::Left).len() as int
            } else {
                turns@.len() - 1
            };
            assert(turns@[at] == turn);
        }
    }
    turns
}

/// The legal turn that the draw `draw` selects: the `draw`-th of the legal
/// turns in the order left, straight, right. Distinct draws select distinct
/// turns and every legal turn is selected by one draw, so a draw that is
/// uniform below the number of legal turns selects each of them with equal
/// probability.
pub fn pick_turn(direction: Direction, lane: i32, draw: i32) -> (turn: TurnDirection)
    requires
        0 <= draw < legal_turn_seq(direction, lane as int).len(),
    ensures
        turn == legal_turn_seq(direction, lane as int)[draw as int],
        turn_is_legal(direction, lane as int, turn),
{
    let turns = legal_turns(direction, lane);
    turns[draw as usize]
}

/// A turn for a vehicle approaching in `direction` on the inbound lane
/// `lane`, drawn uniformly from the turns the lane permits.
pub fn choose_turn(direction: Direction, lane: i32, rng: &mut StdRng) -> (turn: TurnDirection)
    requires
        is_inbound(lane as int),
    ensures
        turn_is_legal(direction, lane as int, turn),
        legal_turn_set(direction, lane as int).contains(turn),
{
    let count = legal_turns(direction, lane).len();
    let draw = random_below(rng, count as i32);
    pick_turn(direction, lane, draw)
}

/// Where a turn leads: the heading and the lane of a vehicle that approached
/// in `direction` and takes `turn`. The lane is in the outbound half.
pub fn target(direction: Direction, turn: TurnDirection) -> (heading_and_lane: (Direction, i32))
    ensures
        heading_and_lane.0 == target_direction(direction, turn),
        heading_and_lane.1 == target_lane(direction, turn),
        is_outbound(heading_and_lane.1 as int),
{
    match (direction, turn) {
        (Direction::North, TurnDirection::Left) => (Direction::West, 5),
        (Direction::North, TurnDirection::Straight) => (Direction::North, 4),
        (Direction::North, TurnDirection::Right) => (Direction::East, 5),
        (Direction::South, TurnDirection::Left) => (Direction::East, 3),
        (Direction::South, TurnDirection::Straight) => (Direction::South, 4),
        (Direction::South, TurnDirection::Right) => (Direction::West, 3),
        (Direction::East, TurnDirection::Left) => (Direction::North, 3),
        (Direction::East, TurnDirection::Straight) => (Direction::East, 4),
        (Direction::East, TurnDirection::Right) => (Direction::South, 3),
        (Direction::West, TurnDirection::Left) => (Direction::South, 5),
        (Direction::West, TurnDirection::Straight) => (Direction::West, 4),
        (Direction::West, TurnDirection::Right) => (Direction::North, 5),
    }
}

} // verus!
