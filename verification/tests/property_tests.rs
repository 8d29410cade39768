//! Concrete checks of the library's stated properties: turn cycles, turn
//! inverses, advance displacement, unknown-character no-ops, undo round
//! trips, cross-variant agreement, and the endpoint compute functions.

use robot_patterns::controller;
use robot_patterns::controller::MoveInstruction;
use robot_patterns::solutions::command_pattern;
use robot_patterns::solutions::no_pattern::{Direction, Robot};
use robot_patterns::solutions::state_pattern;
use robot_patterns::solutions::type_state_pattern::{self, RobotWithFace};

#[test]
fn turn_cycle_returns_to_start() {
    let facings = [Direction::North, Direction::East, Direction::South, Direction::West];
    for facing in facings {
        let mut robot = Robot::new(3, -8, facing);
        robot.execute_all("RRRR");
        assert_eq!(robot.x, 3);
        assert_eq!(robot.y, -8);
        assert_eq!(robot.facing, facing);
        robot.execute_all("LLLL");
        assert_eq!(robot.x, 3);
        assert_eq!(robot.y, -8);
        assert_eq!(robot.facing, facing);
    }
}

#[test]
fn turn_then_opposite_turn_is_identity() {
    let facings = [Direction::North, Direction::East, Direction::South, Direction::West];
    for facing in facings {
        let mut robot = Robot::new(0, 0, facing);
        robot.execute_all("RL");
        assert_eq!(robot.facing, facing);
        robot.execute_all("LR");
        assert_eq!(robot.facing, facing);
    }
}

#[test]
fn advance_moves_one_unit_along_facing() {
    let mut robot = Robot::new(10, 20, Direction::North);
    robot.advance();
    assert_eq!((robot.x, robot.y), (10, 21));

    let mut robot = Robot::new(10, 20, Direction::East);
    robot.advance();
    assert_eq!((robot.x, robot.y), (11, 20));

    let mut robot = Robot::new(10, 20, Direction::South);
    robot.advance();
    assert_eq!((robot.x, robot.y), (10, 19));

    let mut robot = Robot::new(10, 20, Direction::West);
    robot.advance();
    assert_eq!((robot.x, robot.y), (9, 20));
}

#[test]
fn unknown_characters_are_ignored() {
    let mut plain = Robot::new(7, 3, Direction::North);
    plain.execute_all("RAALA");

    let mut noisy = Robot::new(7, 3, Direction::North);
    noisy.execute_all("xR A?A*L!A#");

    assert_eq!(noisy.x, plain.x);
    assert_eq!(noisy.y, plain.y);
    assert_eq!(noisy.facing, plain.facing);
    assert_eq!((plain.x, plain.y), (9, 4));
    assert_eq!(plain.facing, Direction::North);
}

#[test]
fn empty_instructions_change_nothing() {
    let mut robot = Robot::new(-4, 6, Direction::West);
    robot.execute_all("");
    assert_eq!((robot.x, robot.y), (-4, 6));
    assert_eq!(robot.facing, Direction::West);
}

#[test]
fn command_undo_restores_state_for_each_operation() {
    for instruction in ['L', 'R', 'A'] {
        let mut controller = command_pattern::RobotController::new(2, 5, command_pattern::Direction::East);
        controller.process_instruction(instruction);
        controller.undo_last();
        let (x, y, facing) = controller.position();
        assert_eq!((x, y), (2, 5));
        assert_eq!(facing, command_pattern::Direction::East);
    }
}

#[test]
fn undo_with_empty_history_changes_nothing() {
    let mut controller = command_pattern::RobotController::new(1, 1, command_pattern::Direction::South);
    controller.undo_last();
    let (x, y, facing) = controller.position();
    assert_eq!((x, y), (1, 1));
    assert_eq!(facing, command_pattern::Direction::South);
}

#[test]
fn undo_pops_only_the_last_command() {
    let mut controller = command_pattern::RobotController::new(0, 0, command_pattern::Direction::North);
    controller.process_instructions("AA");
    controller.undo_last();
    let (x, y, facing) = controller.position();
    assert_eq!((x, y), (0, 1));
    assert_eq!(facing, command_pattern::Direction::North);
    assert_eq!(controller.history.len(), 1);
}

#[test]
fn unknown_character_enters_no_history() {
    let mut controller = command_pattern::RobotController::new(0, 0, command_pattern::Direction::North);
    controller.process_instruction('?');
    assert_eq!(controller.history.len(), 0);
    let (x, y, facing) = controller.position();
    assert_eq!((x, y), (0, 0));
    assert_eq!(facing, command_pattern::Direction::North);
}

#[test]
fn all_variants_agree_on_one_sequence() {
    let instructions = "RAALAxLLAARRry";

    let mut direct = Robot::new(7, 3, Direction::North);
    direct.execute_all(instructions);

    let mut commanded =
        command_pattern::RobotController::new(7, 3, command_pattern::Direction::North);
    commanded.process_instructions(instructions);

    let mut stateful = state_pattern::Robot::new(
        7,
        3,
        state_pattern::Facing::North(state_pattern::North),
    );
    stateful.execute_all(instructions);

    let mut typed = RobotWithFace::North(type_state_pattern::Robot::new(7, 3));
    typed.execute_all(instructions);

    assert_eq!((direct.x, direct.y), (commanded.robot.x, commanded.robot.y));
    assert_eq!((direct.x, direct.y), (stateful.x, stateful.y));
    let typed_position = match typed {
        RobotWithFace::North(r) => {
            assert_eq!(direct.facing, Direction::North);
            r.position
        }
        RobotWithFace::East(r) => {
            assert_eq!(direct.facing, Direction::East);
            r.position
        }
        RobotWithFace::South(r) => {
            assert_eq!(direct.facing, Direction::South);
            r.position
        }
        RobotWithFace::West(r) => {
            assert_eq!(direct.facing, Direction::West);
            r.position
        }
    };
    assert_eq!((direct.x, direct.y), (typed_position.x, typed_position.y));
}

#[test]
fn typed_wrapper_constructs_from_direction_names() {
    let north = RobotWithFace::_new(1, 2, "North");
    assert!(matches!(north, RobotWithFace::North(_)));
    let east = RobotWithFace::_new(1, 2, "East");
    assert!(matches!(east, RobotWithFace::East(_)));
    let south = RobotWithFace::_new(1, 2, "South");
    assert!(matches!(south, RobotWithFace::South(_)));
    let west = RobotWithFace::_new(1, 2, "West");
    assert!(matches!(west, RobotWithFace::West(_)));
    if let RobotWithFace::North(robot) = north {
        assert_eq!((robot.position.x, robot.position.y), (1, 2));
        assert!(robot.is_facing::<type_state_pattern::North>());
        assert!(!robot.is_facing::<type_state_pattern::East>());
        assert!(!robot.is_facing::<type_state_pattern::South>());
        assert!(!robot.is_facing::<type_state_pattern::West>());
    }
}

#[test]
fn typed_wrapper_turns_and_advances() {
    let mut robot = RobotWithFace::_new(0, 0, "North");
    robot.turn_right();
    assert!(matches!(robot, RobotWithFace::East(_)));
    robot.advance();
    if let RobotWithFace::East(r) = robot {
        assert_eq!((r.position.x, r.position.y), (1, 0));
    } else {
        panic!("expected an East robot");
    }
    robot.turn_left();
    assert!(matches!(robot, RobotWithFace::North(_)));
}

#[test]
fn state_pattern_swaps_direction_objects() {
    let mut robot =
        state_pattern::Robot::new(5, 5, state_pattern::Facing::West(state_pattern::West));
    robot.turn_left();
    assert_eq!(robot.facing, state_pattern::Facing::South(state_pattern::South));
    robot.advance();
    assert_eq!((robot.x, robot.y), (5, 4));
    robot.turn_right();
    assert_eq!(robot.facing, state_pattern::Facing::West(state_pattern::West));
}

#[test]
fn move_endpoint_applies_instructions() {
    let mut robot = Robot::new(0, 0, Direction::North);
    let req = MoveInstruction { instructions: String::from("RAALA") };
    let ok = controller::move_robot(&mut robot, &req);
    assert!(ok);
    assert_eq!((robot.x, robot.y), (2, 1));
    assert_eq!(robot.facing, Direction::North);
}

#[test]
fn move_endpoint_rejects_runs_that_leave_machine_coordinates() {
    let mut robot = Robot::new(i32::MAX, 0, Direction::East);
    let req = MoveInstruction { instructions: String::from("A") };
    let ok = controller::move_robot(&mut robot, &req);
    assert!(!ok);
    assert_eq!((robot.x, robot.y), (i32::MAX, 0));
    assert_eq!(robot.facing, Direction::East);
}

#[test]
fn reposition_endpoint_overwrites_state() {
    let mut robot = Robot::new(0, 0, Direction::North);
    let target = Robot::new(-3, 9, Direction::South);
    controller::reposition_robot(&mut robot, &target);
    assert_eq!((robot.x, robot.y), (-3, 9));
    assert_eq!(robot.facing, Direction::South);
}

#[test]
fn reset_endpoint_returns_to_origin_facing_north() {
    let mut robot = Robot::new(11, -7, Direction::East);
    controller::reset_robot(&mut robot);
    assert_eq!((robot.x, robot.y), (0, 0));
    assert_eq!(robot.facing, Direction::North);
}

#[test]
fn position_endpoint_reports_current_state() {
    let robot = Robot::new(4, -2, Direction::West);
    let seen = controller::robot_position(&robot);
    assert_eq!((seen.x, seen.y), (4, -2));
    assert_eq!(seen.facing, Direction::West);
}
