//! The compute halves of the four robot endpoints. The HTTP layer
//! deserializes a request, locks the shared robot, calls one of these, and
//! serializes the result; everything it delegates here is verified.

use vstd::prelude::*;
use vstd::string::StrSliceExecFns;

use crate::model::{GridState, Heading, in_bounds, lemma_run_step, run, run_in_bounds};
use crate::solutions::no_pattern::{Direction, Robot};

verus! {

/// One batch of movement instructions for the robot.
pub struct MoveInstruction {
    pub instructions: String,
}

/// Whether applying the instructions to the robot keeps every intermediate
/// position within machine coordinates, decided by simulating the run in
/// wider arithmetic.
fn check_run_in_bounds(robot: &Robot, instructions: &str) -> (ok: bool)
    ensures
        ok <==> run_in_bounds(robot@, instructions@),
{
    let ghost g0 = robot@;
    let ghost s = instructions@;
    let n = instructions.unicode_len();
    let mut x: i64 = robot.x as i64;
    let mut y: i64 = robot.y as i64;
    let mut facing = robot.facing;
    let mut i: usize = 0;
    proof {
        assert(s.take(0) =~= Seq::<char>::empty());
    }
    while i < n
        invariant
            n == s.len(),
            s == instructions@,
            g0 == robot@,
            i <= n,
            x as int == run(g0, s.take(i as int)).x,
            y as int == run(g0, s.take(i as int)).y,
            facing@ == run(g0, s.take(i as int)).facing,
            forall|j: int| 0 <= j <= i ==> in_bounds(#[trigger] run(g0, s.take(j))),
        decreases n - i,
    {
        let c = instructions.get_char(i);
        proof {
            lemma_run_step(g0, s, i as int);
        }
        if c == 'L' {
            facing = match facing {
                Direction::North => Direction::West,
                Direction::East => Direction::North,
                Direction::South => Direction::East,
                Direction::West => Direction::South,
            };
        } else if c == 'R' {
            facing = match facing {
                Direction::North => Direction::East,
                Direction::East => Direction::South,
                Direction::South => Direction::West,
                Direction::West => Direction::North,
            };
        } else if c == 'A' {
            match facing {
                Direction::North => y = y + 1,
                Direction::East => x = x + 1,
                Direction::South => y = y - 1,
                Direction::West => x = x - 1,
            }
            if x < (i32::MIN as i64) || x > (i32::MAX as i64) || y < (i32::MIN as i64) || y > (
            i32::MAX as i64) {
                proof {
                    assert(!in_bounds(run(g0, s.take(i + 1))));
                }
                return false;
            }
        }
        i = i + 1;
    }
    proof {
        assert(s.take(n as int) =~= s);
    }
    true
}

/// Apply a batch of instructions to the robot, left to right, skipping
/// unknown characters. The batch is applied only when every intermediate
/// position fits in machine coordinates; otherwise nothing changes and the
/// result says so.
pub fn move_robot(robot: &mut Robot, req: &MoveInstruction) -> (ok: bool)
    ensures
        ok <==> run_in_bounds(old(robot)@, req.instructions@),
        ok ==> final(robot)@ == run(old(robot)@, req.instructions@),
        !ok ==> final(robot)@ == old(robot)@,
{
    if check_run_in_bounds(robot, req.instructions.as_str()) {
        robot.execute_all(req.instructions.as_str());
        true
    } else {
        false
    }
}

/// Overwrite the robot's state wholesale with the requested one.
pub fn reposition_robot(robot: &mut Robot, req: &Robot)
    ensures
        final(robot)@ == req@,
{
    robot.x = req.x;
    robot.y = req.y;
    robot.facing = req.facing;
}

/// Reset the robot to the origin, facing North.
pub fn reset_robot(robot: &mut Robot)
    ensures
        final(robot)@ == (GridState { x: 0, y: 0, facing: Heading::North }),
{
    *robot = Robot { x: 0, y: 0, facing: Direction::North };
}

/// The robot's current state, as a value the boundary can serialize.
pub fn robot_position(robot: &Robot) -> (r: Robot)
    ensures
        r@ == robot@,
{
    *robot
}

} // verus!
