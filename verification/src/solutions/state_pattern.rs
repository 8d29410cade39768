//! The state-pattern variant: each direction is its own type implementing a
//! common behavior trait, turns return the next direction object, and the
//! robot swaps its stored direction on every turn. The closed `Facing` enum
//! carries whichever direction object is current, since a heap-allocated
//! polymorphic object is not needed for a closed set of four states.

use vstd::prelude::*;
use vstd::string::StrSliceExecFns;

use crate::model::{GridState, Heading, in_bounds};

verus! {

/// This variant's own left-turn table.
pub open spec fn st_heading_left(h: Heading) -> Heading {
    match h {
        Heading::North => Heading::West,
        Heading::East => Heading::North,
        Heading::South => Heading::East,
        Heading::West => Heading::South,
    }
}

/// This variant's own right-turn table.
pub open spec fn st_heading_right(h: Heading) -> Heading {
    match h {
        Heading::North => Heading::East,
        Heading::East => Heading::South,
        Heading::South => Heading::West,
        Heading::West => Heading::North,
    }
}

/// This variant's own x displacement of one advance.
pub open spec fn st_delta_x(h: Heading) -> int {
    match h {
        Heading::North => 0,
        Heading::East => 1,
        Heading::South => 0,
        Heading::West => -1,
    }
}

/// This variant's own y displacement of one advance.
pub open spec fn st_delta_y(h: Heading) -> int {
    match h {
        Heading::North => 1,
        Heading::East => 0,
        Heading::South => -1,
        Heading::West => 0,
    }
}

/// The state after this variant's left turn.
pub open spec fn st_turned_left(g: GridState) -> GridState {
    GridState { facing: st_heading_left(g.facing), ..g }
}

/// The state after this variant's right turn.
pub open spec fn st_turned_right(g: GridState) -> GridState {
    GridState { facing: st_heading_right(g.facing), ..g }
}

/// The state after this variant's advance.
pub open spec fn st_advanced(g: GridState) -> GridState {
    GridState { x: g.x + st_delta_x(g.facing), y: g.y + st_delta_y(g.facing), ..g }
}

/// The meaning of one instruction character in this variant; characters
/// outside 'L', 'R', 'A' leave the state unchanged.
pub open spec fn st_stepped(g: GridState, c: char) -> GridState {
    if c == 'L' {
        st_turned_left(g)
    } else if c == 'R' {
        st_turned_right(g)
    } else if c == 'A' {
        st_advanced(g)
    } else {
        g
    }
}

/// The state after this variant interprets a whole instruction sequence.
pub open spec fn st_run(g: GridState, s: Seq<char>) -> GridState
    decreases s.len(),
{
    if s.len() == 0 {
        g
    } else {
        st_stepped(st_run(g, s.drop_last()), s.last())
    }
}

/// Whether every intermediate state of this variant's run fits in machine
/// coordinates.
pub open spec fn st_run_in_bounds(g: GridState, s: Seq<char>) -> bool {
    forall|i: int| 0 <= i <= s.len() ==> in_bounds(#[trigger] st_run(g, s.take(i)))
}

/// The heading carried by a `Facing` value, stated without going through
/// the `Direction` trait so the trait's own contracts can mention it.
pub open spec fn facing_heading(f: Facing) -> Heading {
    match f {
        Facing::North(_) => Heading::North,
        Facing::East(_) => Heading::East,
        Facing::South(_) => Heading::South,
        Facing::West(_) => Heading::West,
    }
}

/// The behavior every direction state provides: its identity as a heading,
/// the next state after each turn, and the displacement of one advance.
pub trait Direction: Sized {
    spec fn heading(&self) -> Heading;

    fn turn_right(&self) -> (d: Facing)
        ensures
            facing_heading(d) == st_heading_right(self.heading()),
    ;

    fn turn_left(&self) -> (d: Facing)
        ensures
            facing_heading(d) == st_heading_left(self.heading()),
    ;

    fn advance(&self, x: i32, y: i32) -> (p: (i32, i32))
        requires
            in_bounds(st_advanced(GridState { x: x as int, y: y as int, facing: self.heading() })),
        ensures
            p.0 == x + st_delta_x(self.heading()),
            p.1 == y + st_delta_y(self.heading()),
    ;
}

/// The North direction state.
#[derive(Clone, Copy, Debug, PartialEq, Eq, Structural)]
pub struct North;

/// The East direction state.
#[derive(Clone, Copy, Debug, PartialEq, Eq, Structural)]
pub struct East;

/// The South direction state.
#[derive(Clone, Copy, Debug, PartialEq, Eq, Structural)]
pub struct South;

/// The West direction state.
#[derive(Clone, Copy, Debug, PartialEq, Eq, Structural)]
pub struct West;

/// The direction object the robot currently holds: any one of the four
/// direction states.
#[derive(Clone, Copy, Debug, PartialEq, Eq, Structural)]
pub enum Facing {
    North(North),
    East(East),
    South(South),
    West(West),
}

impl Direction for North {
    open spec fn heading(&self) -> Heading {
        Heading::North
    }

    fn turn_right(&self) -> Facing {
        Facing::East(East)
    }

    fn turn_left(&self) -> Facing {
        Facing::West(West)
    }

    fn advance(&self, x: i32, y: i32) -> (i32, i32) {
        (x, y + 1)
    }
}

impl Direction for East {
    open spec fn heading(&self) -> Heading {
        Heading::East
    }

    fn turn_right(&self) -> Facing {
        Facing::South(South)
    }

    fn turn_left(&self) -> Facing {
        Facing::North(North)
    }

    fn advance(&self, x: i32, y: i32) -> (i32, i32) {
        (x + 1, y)
    }
}

impl Direction for South {
    open spec fn heading(&self) -> Heading {
        Heading::South
    }

    fn turn_right(&self) -> Facing {
        Facing::West(West)
    }

    fn turn_left(&self) -> Facing {
        Facing::East(East)
    }

    fn advance(&self, x: i32, y: i32) -> (i32, i32) {
        (x, y - 1)
    }
}

impl Direction for West {
    open spec fn heading(&self) -> Heading {
        Heading::West
    }

    fn turn_right(&self) -> Facing {
        Facing::North(North)
    }

    fn turn_left(&self) -> Facing {
        Facing::South(South)
    }

    fn advance(&self, x: i32, y: i32) -> (i32, i32) {
        (x - 1, y)
    }
}

impl Direction for Facing {
    open spec fn heading(&self) -> Heading {
        facing_heading(*self)
    }

    fn turn_right(&self) -> Facing {
        match self {
            Facing::North(d) => d.turn_right(),
            Facing::East(d) => d.turn_right(),
            Facing::South(d) => d.turn_right(),
            Facing::West(d) => d.turn_right(),
        }
    }

    fn turn_left(&self) -> Facing {
        match self {
            Facing::North(d) => d.turn_left(),
            Facing::East(d) => d.turn_left(),
            Facing::South(d) => d.turn_left(),
            Facing::West(d) => d.turn_left(),
        }
    }

    fn advance(&self, x: i32, y: i32) -> (i32, i32) {
        match self {
            Facing::North(d) => d.advance(x, y),
            Facing::East(d) => d.advance(x, y),
            Facing::South(d) => d.advance(x, y),
            Facing::West(d) => d.advance(x, y),
        }
    }
}

/// The robot: a position and the direction object that interprets turns and
/// advances for it.
#[derive(Clone, Copy, Debug)]
pub struct Robot {
    pub x: i32,
    pub y: i32,
    pub facing: Facing,
}

impl View for Robot {
    type V = GridState;

    open spec fn view(&self) -> GridState {
        GridState { x: self.x as int, y: self.y as int, facing: self.facing.heading() }
    }
}

impl Robot {
    pub fn new(x: i32, y: i32, direction: Facing) -> (r: Robot)
        ensures
            r@ == (GridState { x: x as int, y: y as int, facing: direction.heading() }),
    {
        Robot { x, y, facing: direction }
    }

    /// Interpret one instruction character: 'L' and 'R' turn, 'A' advances,
    /// and any other character is a no-op.
    pub fn execute(&mut self, movement: char)
        requires
            in_bounds(st_stepped(old(self)@, movement)),
        ensures
            final(self)@ == st_stepped(old(self)@, movement),
    {
        match movement {
            'L' => self.turn_left(),
            'R' => self.turn_right(),
            'A' => self.advance(),
            _ => (),
        }
    }

    /// Replace the stored direction object with the one for a right turn.
    pub fn turn_right(&mut self)
        ensures
            final(self)@ == st_turned_right(old(self)@),
    {
        let next = self.facing.turn_right();
        self.facing = next;
    }

    /// Replace the stored direction object with the one for a left turn.
    pub fn turn_left(&mut self)
        ensures
            final(self)@ == st_turned_left(old(self)@),
    {
        let next = self.facing.turn_left();
        self.facing = next;
    }

    /// Ask the direction object for the new position one advance away.
    pub fn advance(&mut self)
        requires
            in_bounds(st_advanced(old(self)@)),
        ensures
            final(self)@ == st_advanced(old(self)@),
    {
        let (new_x, new_y) = self.facing.advance(self.x, self.y);
        self.x = new_x;
        self.y = new_y;
    }

    /// Interpret a whole instruction string, left to right, one character at
    /// a time.
    pub fn execute_all(&mut self, instructions: &str)
        requires
            st_run_in_bounds(old(self)@, instructions@),
        ensures
            final(self)@ == st_run(old(self)@, instructions@),
    {
        let ghost g0 = self@;
        let n = instructions.unicode_len();
        let mut i: usize = 0;
        while i < n
            invariant
                n == instructions@.len(),
                i <= n,
                self@ == st_run(g0, instructions@.take(i as int)),
                st_run_in_bounds(g0, instructions@),
            decreases n - i,
        {
            let c = instructions.get_char(i);
            proof {
                lemma_st_run_step(g0, instructions@, i as int);
                assert(in_bounds(st_run(g0, instructions@.take(i + 1))));
            }
            self.execute(c);
            i = i + 1;
        }
        proof {
            assert(instructions@.take(n as int) =~= instructions@);
        }
    }
}

/// Running one more instruction extends this variant's run by one step.
pub proof fn lemma_st_run_step(g: GridState, s: Seq<char>, i: int)
    requires
        0 <= i < s.len(),
    ensures
        st_run(g, s.take(i + 1)) == st_stepped(st_run(g, s.take(i)), s[i]),
{
    assert(s.take(i + 1).drop_last() =~= s.take(i));
    assert(s.take(i + 1).last() == s[i]);
}

} // verus!
