//! The command-pattern variant: each instruction becomes a command object
//! with an `execute` and an `undo`, and an invoker keeps the history of
//! executed commands so the most recent one can be undone.

use vstd::prelude::*;
use vstd::string::StrSliceExecFns;

use crate::model::{GridState, Heading, in_bounds};

verus! {

/// The facing of the robot, as a plain enumerated value.
#[derive(Clone, Copy, Debug, PartialEq, Eq, Structural)]
pub enum Direction {
    North,
    East,
    South,
    West,
}

impl View for Direction {
    type V = Heading;

    open spec fn view(&self) -> Heading {
        match *self {
            Direction::North => Heading::North,
            Direction::East => Heading::East,
            Direction::South => Heading::South,
            Direction::West => Heading::West,
        }
    }
}

/// This variant's own left-turn table.
pub open spec fn cmd_heading_left(h: Heading) -> Heading {
    match h {
        Heading::North => Heading::West,
        Heading::East => Heading::North,
        Heading::South => Heading::East,
        Heading::West => Heading::South,
    }
}

/// This variant's own right-turn table.
pub open spec fn cmd_heading_right(h: Heading) -> Heading {
    match h {
        Heading::North => Heading::East,
        Heading::East => Heading::South,
        Heading::South => Heading::West,
        Heading::West => Heading::North,
    }
}

/// This variant's own x displacement of one advance.
pub open spec fn cmd_delta_x(h: Heading) -> int {
    match h {
        Heading::North => 0,
        Heading::East => 1,
        Heading::South => 0,
        Heading::West => -1,
    }
}

/// This variant's own y displacement of one advance.
pub open spec fn cmd_delta_y(h: Heading) -> int {
    match h {
        Heading::North => 1,
        Heading::East => 0,
        Heading::South => -1,
        Heading::West => 0,
    }
}

/// The state after this variant's left turn.
pub open spec fn cmd_turned_left(g: GridState) -> GridState {
    GridState { facing: cmd_heading_left(g.facing), ..g }
}

/// The state after this variant's right turn.
pub open spec fn cmd_turned_right(g: GridState) -> GridState {
    GridState { facing: cmd_heading_right(g.facing), ..g }
}

/// The state after this variant's advance.
pub open spec fn cmd_advanced(g: GridState) -> GridState {
    GridState { x: g.x + cmd_delta_x(g.facing), y: g.y + cmd_delta_y(g.facing), ..g }
}

/// The meaning of one instruction character in this variant; characters
/// outside 'L', 'R', 'A' leave the state unchanged.
pub open spec fn cmd_stepped(g: GridState, c: char) -> GridState {
    if c == 'L' {
        cmd_turned_left(g)
    } else if c == 'R' {
        cmd_turned_right(g)
    } else if c == 'A' {
        cmd_advanced(g)
    } else {
        g
    }
}

/// The state after this variant interprets a whole instruction sequence.
pub open spec fn cmd_run(g: GridState, s: Seq<char>) -> GridState
    decreases s.len(),
{
    if s.len() == 0 {
        g
    } else {
        cmd_stepped(cmd_run(g, s.drop_last()), s.last())
    }
}

/// Whether every intermediate state of this variant's run fits in machine
/// coordinates.
pub open spec fn cmd_run_in_bounds(g: GridState, s: Seq<char>) -> bool {
    forall|i: int| 0 <= i <= s.len() ==> in_bounds(#[trigger] cmd_run(g, s.take(i)))
}

/// The robot (the command receiver).
#[derive(Clone, Copy, Debug)]
pub struct Robot {
    pub x: i32,
    pub y: i32,
    pub facing: Direction,
}

impl View for Robot {
    type V = GridState;

    open spec fn view(&self) -> GridState {
        GridState { x: self.x as int, y: self.y as int, facing: self.facing@ }
    }
}

impl Robot {
    pub fn new(x: i32, y: i32, facing: Direction) -> (r: Robot)
        ensures
            r@ == (GridState { x: x as int, y: y as int, facing: facing@ }),
    {
        Robot { x, y, facing }
    }

    fn turn_left(&mut self)
        ensures
            final(self)@ == cmd_turned_left(old(self)@),
    {
        self.facing = match self.facing {
            Direction::North => Direction::West,
            Direction::East => Direction::North,
            Direction::South => Direction::East,
            Direction::West => Direction::South,
        }
    }

    fn turn_right(&mut self)
        ensures
            final(self)@ == cmd_turned_right(old(self)@),
    {
        self.facing = match self.facing {
            Direction::North => Direction::East,
            Direction::East => Direction::South,
            Direction::South => Direction::West,
            Direction::West => Direction::North,
        }
    }

    fn advance(&mut self)
        requires
            in_bounds(cmd_advanced(old(self)@)),
        ensures
            final(self)@ == cmd_advanced(old(self)@),
    {
        match self.facing {
            Direction::North => self.y = self.y + 1,
            Direction::East => self.x = self.x + 1,
            Direction::South => self.y = self.y - 1,
            Direction::West => self.x = self.x - 1,
        }
    }
}

/// One undoable operation on the robot. `applied` and `undone` say which
/// state `execute` and `undo` produce.
pub trait Command: Sized {
    spec fn applied(&self, g: GridState) -> GridState;

    spec fn undone(&self, g: GridState) -> GridState;

    fn execute(&self, robot: &mut Robot)
        requires
            in_bounds(self.applied(old(robot)@)),
        ensures
            final(robot)@ == self.applied(old(robot)@),
    ;

    fn undo(&self, robot: &mut Robot)
        requires
            in_bounds(self.undone(old(robot)@)),
        ensures
            final(robot)@ == self.undone(old(robot)@),
    ;
}

/// The command for one left turn.
#[derive(Clone, Copy, Debug)]
pub struct TurnLeftCommand;

/// The command for one right turn.
#[derive(Clone, Copy, Debug)]
pub struct TurnRightCommand;

/// The command for one advance.
#[derive(Clone, Copy, Debug)]
pub struct AdvanceCommand;

impl Command for TurnLeftCommand {
    open spec fn applied(&self, g: GridState) -> GridState {
        cmd_turned_left(g)
    }

    open spec fn undone(&self, g: GridState) -> GridState {
        cmd_turned_right(g)
    }

    fn execute(&self, robot: &mut Robot) {
        robot.turn_left();
    }

    fn undo(&self, robot: &mut Robot) {
        robot.turn_right();  // opposite of turn_left
    }
}

impl Command for TurnRightCommand {
    open spec fn applied(&self, g: GridState) -> GridState {
        cmd_turned_right(g)
    }

    open spec fn undone(&self, g: GridState) -> GridState {
        cmd_turned_left(g)
    }

    fn execute(&self, robot: &mut Robot) {
        robot.turn_right();
    }

    fn undo(&self, robot: &mut Robot) {
        robot.turn_left();  // opposite of turn_right
    }
}

impl Command for AdvanceCommand {
    open spec fn applied(&self, g: GridState) -> GridState {
        cmd_advanced(g)
    }

    /// Advance is undone by rotating 180 degrees, stepping forward, and
    /// rotating 180 degrees back, so the undo stays expressible in the same
    /// primitive operations as `execute`.
    open spec fn undone(&self, g: GridState) -> GridState {
        cmd_turned_right(cmd_turned_right(cmd_advanced(cmd_turned_right(cmd_turned_right(g)))))
    }

    fn execute(&self, robot: &mut Robot) {
        robot.advance();
    }

    fn undo(&self, robot: &mut Robot) {
        robot.turn_right();
        robot.turn_right();
        robot.advance();
        robot.turn_right();
        robot.turn_right();
    }
}

/// A runtime value holding any one of the three commands, so the history
/// can store them uniformly.
#[derive(Clone, Copy, Debug)]
pub enum RobotCommand {
    TurnLeft(TurnLeftCommand),
    TurnRight(TurnRightCommand),
    Advance(AdvanceCommand),
}

impl Command for RobotCommand {
    open spec fn applied(&self, g: GridState) -> GridState {
        match *self {
            RobotCommand::TurnLeft(c) => c.applied(g),
            RobotCommand::TurnRight(c) => c.applied(g),
            RobotCommand::Advance(c) => c.applied(g),
        }
    }

    open spec fn undone(&self, g: GridState) -> GridState {
        match *self {
            RobotCommand::TurnLeft(c) => c.undone(g),
            RobotCommand::TurnRight(c) => c.undone(g),
            RobotCommand::Advance(c) => c.undone(g),
        }
    }

    fn execute(&self, robot: &mut Robot) {
        match self {
            RobotCommand::TurnLeft(c) => c.execute(robot),
            RobotCommand::TurnRight(c) => c.execute(robot),
            RobotCommand::Advance(c) => c.execute(robot),
        }
    }

    fn undo(&self, robot: &mut Robot) {
        match self {
            RobotCommand::TurnLeft(c) => c.undo(robot),
            RobotCommand::TurnRight(c) => c.undo(robot),
            RobotCommand::Advance(c) => c.undo(robot),
        }
    }
}

/// Undoing a command directly after executing it restores the exact prior
/// state, for each of the three operation kinds.
pub proof fn lemma_undo_round_trip(g: GridState, command: RobotCommand)
    ensures
        command.undone(command.applied(g)) == g,
{
}

/// The commands that one instruction character pushes onto the history:
/// one command for 'L', 'R' or 'A', none for any other character.
pub open spec fn commands_of_char(c: char) -> Seq<RobotCommand> {
    if c == 'L' {
        seq![RobotCommand::TurnLeft(TurnLeftCommand)]
    } else if c == 'R' {
        seq![RobotCommand::TurnRight(TurnRightCommand)]
    } else if c == 'A' {
        seq![RobotCommand::Advance(AdvanceCommand)]
    } else {
        Seq::empty()
    }
}

/// The commands that a whole instruction sequence pushes onto the history.
pub open spec fn commands_of(s: Seq<char>) -> Seq<RobotCommand>
    decreases s.len(),
{
    if s.len() == 0 {
        Seq::empty()
    } else {
        commands_of(s.drop_last()) + commands_of_char(s.last())
    }
}

/// The command invoker: executes commands against the robot and keeps the
/// history so the most recent command can be undone.
pub struct RobotController {
    pub history: Vec<RobotCommand>,
    pub robot: Robot,
}

impl RobotController {
    pub fn new(x: i32, y: i32, facing: Direction) -> (c: Self)
        ensures
            c.robot@ == (GridState { x: x as int, y: y as int, facing: facing@ }),
            c.history@ == Seq::<RobotCommand>::empty(),
    {
        Self { history: Vec::new(), robot: Robot::new(x, y, facing) }
    }

    /// Run one command against the robot and record it in the history.
    pub fn execute(&mut self, command: RobotCommand)
        requires
            in_bounds(command.applied(old(self).robot@)),
        ensures
            final(self).robot@ == command.applied(old(self).robot@),
            final(self).history@ == old(self).history@.push(command),
    {
        command.execute(&mut self.robot);
        self.history.push(command);
    }

    /// Undo the most recently executed command, if any: the history loses
    /// its last entry and the robot returns to the state it had before that
    /// command ran.
    pub fn undo_last(&mut self)
        requires
            old(self).history@.len() > 0 ==> in_bounds(
                old(self).history@.last().undone(old(self).robot@),
            ),
        ensures
            old(self).history@.len() == 0 ==> final(self).robot@ == old(self).robot@
                && final(self).history@ == old(self).history@,
            old(self).history@.len() > 0 ==> final(self).robot@ == old(self).history@.last().undone(
                old(self).robot@,
            ) && final(self).history@ == old(self).history@.drop_last(),
    {
        if let Some(command) = self.history.pop() {
            command.undo(&mut self.robot);
        }
    }

    /// Translate one instruction character into a command and execute it;
    /// characters outside 'L', 'R', 'A' are ignored and enter no history.
    pub fn process_instruction(&mut self, instruction: char)
        requires
            in_bounds(cmd_stepped(old(self).robot@, instruction)),
        ensures
            final(self).robot@ == cmd_stepped(old(self).robot@, instruction),
            final(self).history@ == old(self).history@ + commands_of_char(instruction),
    {
        match instruction {
            'L' => self.execute(RobotCommand::TurnLeft(TurnLeftCommand)),
            'R' => self.execute(RobotCommand::TurnRight(TurnRightCommand)),
            'A' => self.execute(RobotCommand::Advance(AdvanceCommand)),
            _ => (),
        }
        proof {
            assert(self.history@ =~= old(self).history@ + commands_of_char(instruction));
        }
    }

    /// Interpret a whole instruction string, left to right, recording each
    /// executed command in the history.
    pub fn process_instructions(&mut self, instructions: &str)
        requires
            cmd_run_in_bounds(old(self).robot@, instructions@),
        ensures
            final(self).robot@ == cmd_run(old(self).robot@, instructions@),
            final(self).history@ == old(self).history@ + commands_of(instructions@),
    {
        let ghost g0 = self.robot@;
        let ghost h0 = self.history@;
        let n = instructions.unicode_len();
        let mut i: usize = 0;
        while i < n
            invariant
                n == instructions@.len(),
                i <= n,
                self.robot@ == cmd_run(g0, instructions@.take(i as int)),
                self.history@ == h0 + commands_of(instructions@.take(i as int)),
                cmd_run_in_bounds(g0, instructions@),
            decreases n - i,
        {
            let c = instructions.get_char(i);
            proof {
                lemma_cmd_run_step(g0, instructions@, i as int);
                lemma_commands_of_step(instructions@, i as int);
                assert(in_bounds(cmd_run(g0, instructions@.take(i + 1))));
            }
            self.process_instruction(c);
            proof {
                assert(self.history@ =~= h0 + commands_of(instructions@.take(i + 1)));
            }
            i = i + 1;
        }
        proof {
            assert(instructions@.take(n as int) =~= instructions@);
        }
    }

    /// The robot's current position and facing.
    pub fn position(&self) -> (p: (i32, i32, Direction))
        ensures
            p.0 == self.robot.x,
            p.1 == self.robot.y,
            p.2 == self.robot.facing,
    {
        (self.robot.x, self.robot.y, self.robot.facing)
    }
}

/// Running one more instruction extends this variant's run by one step.
pub proof fn lemma_cmd_run_step(g: GridState, s: Seq<char>, i: int)
    requires
        0 <= i < s.len(),
    ensures
        cmd_run(g, s.take(i + 1)) == cmd_stepped(cmd_run(g, s.take(i)), s[i]),
{
    assert(s.take(i + 1).drop_last() =~= s.take(i));
    assert(s.take(i + 1).last() == s[i]);
}

/// One more instruction extends the pushed history by that character's
/// commands.
pub proof fn lemma_commands_of_step(s: Seq<char>, i: int)
    requires
        0 <= i < s.len(),
    ensures
        commands_of(s.take(i + 1)) == commands_of(s.take(i)) + commands_of_char(s[i]),
{
    assert(s.take(i + 1).drop_last() =~= s.take(i));
    assert(s.take(i + 1).last() == s[i]);
}

} // verus!
