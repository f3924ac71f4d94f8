use road_intersection::constants::{LANES_PER_SIDE, LANE_WIDTH, OUTBOUND_START, TOTAL_LANES};
use road_intersection::lanes::Direction;
use road_intersection::turns::{legal_turns, pick_turn, target};
use road_intersection::vehicles::{TurnDirection, Vehicle};

const DIRECTIONS: [Direction; 4] =
    [Direction::North, Direction::South, Direction::East, Direction::West];

const TURNS: [TurnDirection; 3] =
    [TurnDirection::Left, TurnDirection::Straight, TurnDirection::Right];

fn committed(direction: Direction, turn_direction: TurnDirection) -> Vehicle {
    Vehicle { pos_x: 0, pos_y: 0, direction, lane: 1, turn_direction, turning: false }
}

#[test]
fn legal_turns_heading_north() {
    assert_eq!(
        legal_turns(Direction::North, 0),
        vec![TurnDirection::Left, TurnDirection::Straight]
    );
    assert_eq!(legal_turns(Direction::North, 1), vec![TurnDirection::Straight]);
    assert_eq!(
        legal_turns(Direction::North, 2),
        vec![TurnDirection::Straight, TurnDirection::Right]
    );
}

#[test]
fn legal_turns_heading_east() {
    assert_eq!(
        legal_turns(Direction::East, 0),
        vec![TurnDirection::Left, TurnDirection::Straight]
    );
    assert_eq!(legal_turns(Direction::East, 1), vec![TurnDirection::Straight]);
    assert_eq!(
        legal_turns(Direction::East, 2),
        vec![TurnDirection::Straight, TurnDirection::Right]
    );
}

#[test]
fn legal_turns_heading_south() {
    assert_eq!(
        legal_turns(Direction::South, 0),
        vec![TurnDirection::Straight, TurnDirection::Right]
    );
    assert_eq!(legal_turns(Direction::South, 1), vec![TurnDirection::Straight]);
    assert_eq!(
        legal_turns(Direction::South, 2),
        vec![TurnDirection::Left, TurnDirection::Straight]
    );
}

#[test]
fn legal_turns_heading_west() {
    assert_eq!(
        legal_turns(Direction::West, 0),
        vec![TurnDirection::Straight, TurnDirection::Right]
    );
    assert_eq!(legal_turns(Direction::West, 1), vec![TurnDirection::Straight]);
    assert_eq!(
        legal_turns(Direction::West, 2),
        vec![TurnDirection::Left, TurnDirection::Straight]
    );
}

#[test]
fn no_turn_is_legal_outside_the_inbound_half() {
    for direction in DIRECTIONS {
        for lane in [-1, OUTBOUND_START, 4, 5, TOTAL_LANES, i32::MIN, i32::MAX] {
            assert!(legal_turns(direction, lane).is_empty());
        }
    }
}

#[test]
fn every_inbound_lane_permits_a_turn_with_a_target() {
    for direction in DIRECTIONS {
        for lane in 0..LANES_PER_SIDE {
            let turns = legal_turns(direction, lane);
            assert!(!turns.is_empty());
            assert!(turns.contains(&TurnDirection::Straight));
            for turn in turns {
                let (_, target_lane) = target(direction, turn);
                assert!(OUTBOUND_START <= target_lane && target_lane < TOTAL_LANES);
            }
        }
    }
}

#[test]
fn pick_turn_walks_the_legal_turns_in_order() {
    assert_eq!(pick_turn(Direction::North, 0, 0), TurnDirection::Left);
    assert_eq!(pick_turn(Direction::North, 0, 1), TurnDirection::Straight);
    assert_eq!(pick_turn(Direction::North, 1, 0), TurnDirection::Straight);
    assert_eq!(pick_turn(Direction::North, 2, 0), TurnDirection::Straight);
    assert_eq!(pick_turn(Direction::North, 2, 1), TurnDirection::Right);
    assert_eq!(pick_turn(Direction::West, 0, 1), TurnDirection::Right);
    assert_eq!(pick_turn(Direction::West, 2, 0), TurnDirection::Left);
    for direction in DIRECTIONS {
        for lane in 0..LANES_PER_SIDE {
            let turns = legal_turns(direction, lane);
            for (draw, turn) in turns.iter().enumerate() {
                assert_eq!(pick_turn(direction, lane, draw as i32), *turn);
            }
        }
    }
}

#[test]
fn target_table_has_all_twelve_entries() {
    assert_eq!(target(Direction::North, TurnDirection::Left), (Direction::West, 5));
    assert_eq!(target(Direction::North, TurnDirection::Straight), (Direction::North, 4));
    assert_eq!(target(Direction::North, TurnDirection::Right), (Direction::East, 5));
    assert_eq!(target(Direction::South, TurnDirection::Left), (Direction::East, 3));
    assert_eq!(target(Direction::South, TurnDirection::Straight), (Direction::South, 4));
    assert_eq!(target(Direction::South, TurnDirection::Right), (Direction::West, 3));
    assert_eq!(target(Direction::East, TurnDirection::Left), (Direction::North, 3));
    assert_eq!(target(Direction::East, TurnDirection::Straight), (Direction::East, 4));
    assert_eq!(target(Direction::East, TurnDirection::Right), (Direction::South, 3));
    assert_eq!(target(Direction::West, TurnDirection::Left), (Direction::South, 5));
    assert_eq!(target(Direction::West, TurnDirection::Straight), (Direction::West, 4));
    assert_eq!(target(Direction::West, TurnDirection::Right), (Direction::North, 5));
}

#[test]
fn target_lane_is_the_outbound_twin_of_the_lane_for_that_turn() {
    for direction in DIRECTIONS {
        for turn in TURNS {
            let (heading, lane) = target(direction, turn);
            let twin = lane - OUTBOUND_START;
            if turn == TurnDirection::Straight {
                assert_eq!(heading, direction);
                assert_eq!(twin, LANES_PER_SIDE / 2);
            } else {
                assert_ne!(heading, direction);
                assert!(legal_turns(heading, twin).contains(&turn));
            }
        }
    }
}

#[test]
fn left_and_right_turns_undo_each_other() {
    for direction in DIRECTIONS {
        let (left, _) = target(direction, TurnDirection::Left);
        let (right, _) = target(direction, TurnDirection::Right);
        assert_eq!(target(left, TurnDirection::Right).0, direction);
        assert_eq!(target(right, TurnDirection::Left).0, direction);
    }
}

#[test]
fn vehicle_target_agrees_with_the_table() {
    for direction in DIRECTIONS {
        for turn in TURNS {
            let vehicle = committed(direction, turn);
            let (heading, lane) = target(direction, turn);
            assert_eq!(vehicle.get_new_direction(), heading);
            assert_eq!(vehicle.get_target_lane(), lane);
        }
    }
}

#[test]
fn new_direction_for_each_turn() {
    assert_eq!(
        committed(Direction::North, TurnDirection::Left).get_new_direction(),
        Direction::West
    );
    assert_eq!(
        committed(Direction::North, TurnDirection::Right).get_new_direction(),
        Direction::East
    );
    assert_eq!(
        committed(Direction::South, TurnDirection::Left).get_new_direction(),
        Direction::East
    );
    assert_eq!(
        committed(Direction::South, TurnDirection::Right).get_new_direction(),
        Direction::West
    );
    assert_eq!(
        committed(Direction::East, TurnDirection::Left).get_new_direction(),
        Direction::North
    );
    assert_eq!(
        committed(Direction::East, TurnDirection::Right).get_new_direction(),
        Direction::South
    );
    assert_eq!(
        committed(Direction::West, TurnDirection::Left).get_new_direction(),
        Direction::South
    );
    assert_eq!(
        committed(Direction::West, TurnDirection::Right).get_new_direction(),
        Direction::North
    );
    for direction in DIRECTIONS {
        assert_eq!(committed(direction, TurnDirection::Straight).get_new_direction(), direction);
    }
}

#[test]
fn turn_offset_is_one_lane_towards_the_turn() {
    let lane: i32 = LANE_WIDTH;
    assert_eq!(committed(Direction::North, TurnDirection::Left).get_turn_offset(), (-lane, 0));
    assert_eq!(committed(Direction::North, TurnDirection::Right).get_turn_offset(), (lane, 0));
    assert_eq!(committed(Direction::South, TurnDirection::Left).get_turn_offset(), (lane, 0));
    assert_eq!(committed(Direction::South, TurnDirection::Right).get_turn_offset(), (-lane, 0));
    assert_eq!(committed(Direction::East, TurnDirection::Left).get_turn_offset(), (0, -lane));
    assert_eq!(committed(Direction::East, TurnDirection::Right).get_turn_offset(), (0, lane));
    assert_eq!(committed(Direction::West, TurnDirection::Left).get_turn_offset(), (0, lane));
    assert_eq!(committed(Direction::West, TurnDirection::Right).get_turn_offset(), (0, -lane));
    for direction in DIRECTIONS {
        assert_eq!(committed(direction, TurnDirection::Straight).get_turn_offset(), (0, 0));
    }
}

#[test]
fn turning_lane_lies_on_the_side_of_the_turn() {
    for direction in DIRECTIONS {
        for turn in [TurnDirection::Left, TurnDirection::Right] {
            let (dx, dy) = committed(direction, turn).get_turn_offset();
            let side = dx + dy;
            assert_eq!(side.abs(), LANE_WIDTH);
            let line = |lane: i32| {
                let start = Vehicle::get_start_position(direction, lane);
                match direction {
                    Direction::North | Direction::South => {
                        assert_eq!(dy, 0);
                        start.0
                    }
                    Direction::East | Direction::West => {
                        assert_eq!(dx, 0);
                        start.1
                    }
                }
            };
            let mut turning_lanes: u32 = 0;
            for lane in 0..LANES_PER_SIDE {
                if legal_turns(direction, lane).contains(&turn) {
                    turning_lanes += 1;
                    for other in 0..LANES_PER_SIDE {
                        assert!((line(lane) - line(other)) * side >= 0);
                    }
                }
            }
            assert_eq!(turning_lanes, 1);
        }
    }
}
