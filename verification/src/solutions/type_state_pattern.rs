//! The type-state variant: the facing is a marker type carried in the
//! robot's type, so every turn is a type change and an operation undefined
//! for some direction cannot even be written. The closed `RobotWithFace`
//! enum wraps the four typed robots behind one runtime type for boundaries
//! that need a single, non-generic value.

use vstd::prelude::*;
use vstd::string::StrSliceExecFns;

use crate::model::{GridState, Heading, in_bounds};

verus! {

/// This variant's own left-turn table.
pub open spec fn ts_heading_left(h: Heading) -> Heading {
    match h {
        Heading::North => Heading::West,
        Heading::East => Heading::North,
        Heading::South => Heading::East,
        Heading::West => Heading::South,
    }
}

/// This variant's own right-turn table.
pub open spec fn ts_heading_right(h: Heading) -> Heading {
    match h {
        Heading::North => Heading::East,
        Heading::East => Heading::South,
        Heading::South => Heading::West,
        Heading::West => Heading::North,
    }
}

/// This variant's own x displacement of one advance.
pub open spec fn ts_delta_x(h: Heading) -> int {
    match h {
        Heading::North => 0,
        Heading::East => 1,
        Heading::South => 0,
        Heading::West => -1,
    }
}

/// This variant's own y displacement of one advance.
pub open spec fn ts_delta_y(h: Heading) -> int {
    match h {
        Heading::North => 1,
        Heading::East => 0,
        Heading::South => -1,
        Heading::West => 0,
    }
}

/// The state after this variant's left turn.
pub open spec fn ts_turned_left(g: GridState) -> GridState {
    GridState { facing: ts_heading_left(g.facing), ..g }
}

/// The state after this variant's right turn.
pub open spec fn ts_turned_right(g: GridState) -> GridState {
    GridState { facing: ts_heading_right(g.facing), ..g }
}

/// The state after this variant's advance.
pub open spec fn ts_advanced(g: GridState) -> GridState {
    GridState { x: g.x + ts_delta_x(g.facing), y: g.y + ts_delta_y(g.facing), ..g }
}

/// The meaning of one instruction character in this variant; characters
/// outside 'L', 'R', 'A' leave the state unchanged.
pub open spec fn ts_stepped(g: GridState, c: char) -> GridState {
    if c == 'L' {
        ts_turned_left(g)
    } else if c == 'R' {
        ts_turned_right(g)
    } else if c == 'A' {
        ts_advanced(g)
    } else {
        g
    }
}

/// The state after this variant interprets a whole instruction sequence.
pub open spec fn ts_run(g: GridState, s: Seq<char>) -> GridState
    decreases s.len(),
{
    if s.len() == 0 {
        g
    } else {
        ts_stepped(ts_run(g, s.drop_last()), s.last())
    }
}

/// Whether every intermediate state of this variant's run fits in machine
/// coordinates.
pub open spec fn ts_run_in_bounds(g: GridState, s: Seq<char>) -> bool {
    forall|i: int| 0 <= i <= s.len() ==> in_bounds(#[trigger] ts_run(g, s.take(i)))
}

/// The robot's position on the grid.
#[derive(Clone, Copy, Debug, PartialEq, Eq, Structural)]
pub struct Position {
    pub x: i32,
    pub y: i32,
}

/// A direction marker type; its heading is compile-time information.
pub trait Face: Sized {
    spec fn heading() -> Heading;

    fn heading_value() -> (h: Heading)
        ensures
            h == Self::heading(),
    ;
}

/// The marker for facing North.
#[derive(Clone, Copy, Debug)]
pub struct North;

/// The marker for facing East.
#[derive(Clone, Copy, Debug)]
pub struct East;

/// The marker for facing South.
#[derive(Clone, Copy, Debug)]
pub struct South;

/// The marker for facing West.
#[derive(Clone, Copy, Debug)]
pub struct West;

impl Face for North {
    open spec fn heading() -> Heading {
        Heading::North
    }

    fn heading_value() -> Heading {
        Heading::North
    }
}

impl Face for East {
    open spec fn heading() -> Heading {
        Heading::East
    }

    fn heading_value() -> Heading {
        Heading::East
    }
}

impl Face for South {
    open spec fn heading() -> Heading {
        Heading::South
    }

    fn heading_value() -> Heading {
        Heading::South
    }
}

impl Face for West {
    open spec fn heading() -> Heading {
        Heading::West
    }

    fn heading_value() -> Heading {
        Heading::West
    }
}

/// A robot facing North, as a type.
pub type NorthRobot = Robot<North>;

/// A robot facing East, as a type.
pub type EastRobot = Robot<East>;

/// A robot facing South, as a type.
pub type SouthRobot = Robot<South>;

/// A robot facing West, as a type.
pub type WestRobot = Robot<West>;

/// A robot whose facing is the marker type it is parameterized by.
#[derive(Copy, Debug)]
pub struct Robot<S: Face> {
    pub position: Position,
    pub facing: core::marker::PhantomData<S>,
}

impl<S: Face> Clone for Robot<S> {
    fn clone(&self) -> (r: Self)
        ensures
            r == *self,
    {
        Robot { position: self.position, facing: core::marker::PhantomData }
    }
}

impl<S: Face> View for Robot<S> {
    type V = GridState;

    open spec fn view(&self) -> GridState {
        GridState { x: self.position.x as int, y: self.position.y as int, facing: S::heading() }
    }
}

impl<S: Face> Robot<S> {
    pub fn new(x: i32, y: i32) -> (r: Robot<S>)
        ensures
            r@ == (GridState { x: x as int, y: y as int, facing: S::heading() }),
    {
        Robot { position: Position { x, y }, facing: core::marker::PhantomData }
    }

    /// Whether this robot's compile-time facing is the one named by `U`.
    pub fn is_facing<U: Face>(&self) -> (b: bool)
        ensures
            b == (S::heading() == U::heading()),
    {
        let own: Heading = S::heading_value();
        let other: Heading = U::heading_value();
        own == other
    }
}

impl Robot<North> {
    pub fn turn_left(self) -> (r: Robot<West>)
        ensures
            r@ == ts_turned_left(self@),
    {
        Robot { position: self.position, facing: core::marker::PhantomData }
    }

    pub fn turn_right(self) -> (r: Robot<East>)
        ensures
            r@ == ts_turned_right(self@),
    {
        Robot { position: self.position, facing: core::marker::PhantomData }
    }

    pub fn advance(self) -> (r: Self)
        requires
            in_bounds(ts_advanced(self@)),
        ensures
            r@ == ts_advanced(self@),
    {
        let mut moved = self;
        moved.position.y = moved.position.y + 1;
        moved
    }
}

impl Robot<East> {
    pub fn turn_left(self) -> (r: Robot<North>)
        ensures
            r@ == ts_turned_left(self@),
    {
        Robot { position: self.position, facing: core::marker::PhantomData }
    }

    pub fn turn_right(self) -> (r: Robot<South>)
        ensures
            r@ == ts_turned_right(self@),
    {
        Robot { position: self.position, facing: core::marker::PhantomData }
    }

    pub fn advance(self) -> (r: Self)
        requires
            in_bounds(ts_advanced(self@)),
        ensures
            r@ == ts_advanced(self@),
    {
        let mut moved = self;
        moved.position.x = moved.position.x + 1;
        moved
    }
}

impl Robot<South> {
    pub fn turn_left(self) -> (r: Robot<East>)
        ensures
            r@ == ts_turned_left(self@),
    {
        Robot { position: self.position, facing: core::marker::PhantomData }
    }

    pub fn turn_right(self) -> (r: Robot<West>)
        ensures
            r@ == ts_turned_right(self@),
    {
        Robot { position: self.position, facing: core::marker::PhantomData }
    }

    pub fn advance(self) -> (r: Self)
        requires
            in_bounds(ts_advanced(self@)),
        ensures
            r@ == ts_advanced(self@),
    {
        let mut moved = self;
        moved.position.y = moved.position.y - 1;
        moved
    }
}

impl Robot<West> {
    pub fn turn_left(self) -> (r: Robot<South>)
        ensures
            r@ == ts_turned_left(self@),
    {
        Robot { position: self.position, facing: core::marker::PhantomData }
    }

    pub fn turn_right(self) -> (r: Robot<North>)
        ensures
            r@ == ts_turned_right(self@),
    {
        Robot { position: self.position, facing: core::marker::PhantomData }
    }

    pub fn advance(self) -> (r: Self)
        requires
            in_bounds(ts_advanced(self@)),
        ensures
            r@ == ts_advanced(self@),
    {
        let mut moved = self;
        moved.position.x = moved.position.x - 1;
        moved
    }
}

/// A single runtime type over the four typed robots, for boundaries that
/// need one non-generic value whose facing varies at run time.
#[derive(Clone, Copy, Debug)]
pub enum RobotWithFace {
    North(NorthRobot),
    East(EastRobot),
    South(SouthRobot),
    West(WestRobot),
}

impl View for RobotWithFace {
    type V = GridState;

    open spec fn view(&self) -> GridState {
        match *self {
            RobotWithFace::North(r) => r@,
            RobotWithFace::East(r) => r@,
            RobotWithFace::South(r) => r@,
            RobotWithFace::West(r) => r@,
        }
    }
}

impl RobotWithFace {
    /// Wrap a typed robot for the direction name given; only the four
    /// direction names are accepted.
    pub fn _new(x: i32, y: i32, facing: &str) -> (r: RobotWithFace)
        requires
            facing@ == "North"@ || facing@ == "East"@ || facing@ == "South"@ || facing@
                == "West"@,
        ensures
            facing@ == "North"@ ==> r@ == (GridState {
                x: x as int,
                y: y as int,
                facing: Heading::North,
            }),
            facing@ == "East"@ ==> r@ == (GridState {
                x: x as int,
                y: y as int,
                facing: Heading::East,
            }),
            facing@ == "South"@ ==> r@ == (GridState {
                x: x as int,
                y: y as int,
                facing: Heading::South,
            }),
            facing@ == "West"@ ==> r@ == (GridState {
                x: x as int,
                y: y as int,
                facing: Heading::West,
            }),
    {
        proof {
            reveal_strlit("North");
            reveal_strlit("East");
            reveal_strlit("South");
            reveal_strlit("West");
            assert("North"@[0] != "South"@[0]);
            assert("East"@[0] != "West"@[0]);
        }
        if str_is(facing, "North") {
            RobotWithFace::North(Robot::new(x, y))
        } else if str_is(facing, "East") {
            RobotWithFace::East(Robot::new(x, y))
        } else if str_is(facing, "South") {
            RobotWithFace::South(Robot::new(x, y))
        } else {
            RobotWithFace::West(Robot::new(x, y))
        }
    }

    /// Unwrap the typed robot, turn it left, and re-wrap it under the new
    /// facing's tag.
    pub fn turn_left(&mut self)
        ensures
            final(self)@ == ts_turned_left(old(self)@),
    {
        let cur = *self;
        match cur {
            RobotWithFace::North(robot) => *self = RobotWithFace::West(robot.turn_left()),
            RobotWithFace::East(robot) => *self = RobotWithFace::North(robot.turn_left()),
            RobotWithFace::South(robot) => *self = RobotWithFace::East(robot.turn_left()),
            RobotWithFace::West(robot) => *self = RobotWithFace::South(robot.turn_left()),
        }
    }

    /// Unwrap the typed robot, turn it right, and re-wrap it under the new
    /// facing's tag.
    pub fn turn_right(&mut self)
        ensures
            final(self)@ == ts_turned_right(old(self)@),
    {
        let cur = *self;
        match cur {
            RobotWithFace::North(robot) => *self = RobotWithFace::East(robot.turn_right()),
            RobotWithFace::East(robot) => *self = RobotWithFace::South(robot.turn_right()),
            RobotWithFace::South(robot) => *self = RobotWithFace::West(robot.turn_right()),
            RobotWithFace::West(robot) => *self = RobotWithFace::North(robot.turn_right()),
        }
    }

    /// Advance the typed robot one unit; the tag does not change.
    pub fn advance(&mut self)
        requires
            in_bounds(ts_advanced(old(self)@)),
        ensures
            final(self)@ == ts_advanced(old(self)@),
    {
        let cur = *self;
        match cur {
            RobotWithFace::North(robot) => *self = RobotWithFace::North(robot.advance()),
            RobotWithFace::East(robot) => *self = RobotWithFace::East(robot.advance()),
            RobotWithFace::South(robot) => *self = RobotWithFace::South(robot.advance()),
            RobotWithFace::West(robot) => *self = RobotWithFace::West(robot.advance()),
        }
    }

    /// Interpret one instruction character: 'L' and 'R' turn, 'A' advances,
    /// and any other character is a no-op.
    pub fn execute(&mut self, movement: char)
        requires
            in_bounds(ts_stepped(old(self)@, movement)),
        ensures
            final(self)@ == ts_stepped(old(self)@, movement),
    {
        match movement {
            'L' => self.turn_left(),
            'R' => self.turn_right(),
            'A' => self.advance(),
            _ => (),
        }
    }

    /// Interpret a whole instruction string, left to right, one character at
    /// a time.
    pub fn execute_all(&mut self, instructions: &str)
        requires
            ts_run_in_bounds(old(self)@, instructions@),
        ensures
            final(self)@ == ts_run(old(self)@, instructions@),
    {
        let ghost g0 = self@;
        let n = instructions.unicode_len();
        let mut i: usize = 0;
        while i < n
            invariant
                n == instructions@.len(),
                i <= n,
                self@ == ts_run(g0, instructions@.take(i as int)),
                ts_run_in_bounds(g0, instructions@),
            decreases n - i,
        {
            let c = instructions.get_char(i);
            proof {
                lemma_ts_run_step(g0, instructions@, i as int);
                assert(in_bounds(ts_run(g0, instructions@.take(i + 1))));
            }
            self.execute(c);
            i = i + 1;
        }
        proof {
            assert(instructions@.take(n as int) =~= instructions@);
        }
    }
}

/// Whether two strings hold the same characters.
fn str_is(s: &str, t: &str) -> (r: bool)
    ensures
        r <==> s@ == t@,
{
    let ns = s.unicode_len();
    let nt = t.unicode_len();
    if ns != nt {
        return false;
    }
    let mut i: usize = 0;
    while i < ns
        invariant
            ns == s@.len(),
            nt == t@.len(),
            ns == nt,
            i <= ns,
            forall|j: int| 0 <= j < i ==> s@[j] == t@[j],
        decreases ns - i,
    {
        if s.get_char(i) != t.get_char(i) {
            return false;
        }
        i = i + 1;
    }
    proof {
        assert(s@ =~= t@);
    }
    true
}

/// Running one more instruction extends this variant's run by one step.
pub proof fn lemma_ts_run_step(g: GridState, s: Seq<char>, i: int)
    requires
        0 <= i < s.len(),
    ensures
        ts_run(g, s.take(i + 1)) == ts_stepped(ts_run(g, s.take(i)), s[i]),
{
    assert(s.take(i + 1).drop_last() =~= s.take(i));
    assert(s.take(i + 1).last() == s[i]);
}

} // verus!
