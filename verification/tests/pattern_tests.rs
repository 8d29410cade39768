//! The reference scenario, run through each pattern variant: starting at
//! (7, 3) facing North, "R A A L A" ends at (9, 4) facing North.

use robot_patterns::solutions::command_pattern;
use robot_patterns::solutions::no_pattern;
use robot_patterns::solutions::state_pattern;
use robot_patterns::solutions::type_state_pattern;

#[test]
fn main_test_robot() {
    let mut robot = no_pattern::Robot::new(7, 3, no_pattern::Direction::North);
    robot.execute('R');
    assert_eq!(robot.facing, no_pattern::Direction::East);
    robot.execute('A');
    assert_eq!(robot.x, 8);
    robot.execute('A');
    assert_eq!(robot.x, 9);
    robot.execute('L');
    assert_eq!(robot.facing, no_pattern::Direction::North);
    robot.execute('A');
    assert_eq!(robot.y, 4);
}

#[test]
fn no_pattern_test_robot() {
    let mut robot = no_pattern::Robot::new(7, 3, no_pattern::Direction::North);
    robot.execute('R');
    assert_eq!(robot.facing, no_pattern::Direction::East);
    robot.execute('A');
    assert_eq!(robot.x, 8);
    robot.execute('A');
    assert_eq!(robot.x, 9);
    robot.execute('L');
    assert_eq!(robot.facing, no_pattern::Direction::North);
    robot.execute('A');
    assert_eq!(robot.y, 4);
}

#[test]
fn command_pattern_test_robot() {
    let mut robot_controller =
        command_pattern::RobotController::new(7, 3, command_pattern::Direction::North);
    robot_controller.process_instruction('R');
    assert_eq!(robot_controller.robot.facing, command_pattern::Direction::East);
    robot_controller.process_instruction('A');
    assert_eq!(robot_controller.robot.x, 8);
    robot_controller.process_instruction('A');
    assert_eq!(robot_controller.robot.x, 9);
    robot_controller.process_instruction('L');
    assert_eq!(robot_controller.robot.facing, command_pattern::Direction::North);
    robot_controller.process_instruction('A');
    assert_eq!(robot_controller.robot.y, 4);
}

#[test]
fn state_pattern_test_robot() {
    let mut robot = state_pattern::Robot::new(
        7,
        3,
        state_pattern::Facing::North(state_pattern::North),
    );
    robot.execute('R');
    assert_eq!(robot.facing, state_pattern::Facing::East(state_pattern::East));
    robot.execute('A');
    assert_eq!(robot.x, 8);
    robot.execute('A');
    assert_eq!(robot.x, 9);
    robot.execute('L');
    assert_eq!(robot.facing, state_pattern::Facing::North(state_pattern::North));
    robot.execute('A');
    assert_eq!(robot.y, 4);
}

#[test]
fn type_state_pattern_test_robot() {
    let robot = type_state_pattern::Robot::<type_state_pattern::North>::new(7, 3);
    let robot = robot.turn_right();
    assert!(robot.is_facing::<type_state_pattern::East>());
    let robot = robot.advance();
    assert_eq!(robot.position.x, 8);
    let robot = robot.advance();
    assert_eq!(robot.position.x, 9);
    let robot = robot.turn_left();
    assert!(robot.is_facing::<type_state_pattern::North>());
    let robot = robot.advance();
    assert_eq!(robot.position.y, 4);
}
