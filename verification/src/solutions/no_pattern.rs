//! The direct-mutation variant: a plain enum for the facing and a four-way
//! match for every operation, mutating the robot in place.

use vstd::prelude::*;
use vstd::string::StrSliceExecFns;

use crate::model::{
    GridState, Heading, advanced, in_bounds, run, run_in_bounds, stepped, turned_left,
    turned_right, lemma_run_all, lemma_run_step,
};

verus! {

/// The facing of the robot, as a plain enumerated value.
#[derive(Clone, Copy, Debug, PartialEq, Eq, Structural)]
pub enum Direction {
    North,
    East,
    South,
    West,
}

impl View for Direction {
    type V = Heading;

    open spec fn view(&self) -> Heading {
        match *self {
            Direction::North => Heading::North,
            Direction::East => Heading::East,
            Direction::South => Heading::South,
            Direction::West => Heading::West,
        }
    }
}

/// The robot: a position and a facing, mutated in place.
#[derive(Clone, Copy, Debug)]
pub struct Robot {
    pub x: i32,
    pub y: i32,
    pub facing: Direction,
}

impl View for Robot {
    type V = GridState;

    open spec fn view(&self) -> GridState {
        GridState { x: self.x as int, y: self.y as int, facing: self.facing@ }
    }
}

impl Robot {
    pub fn new(x: i32, y: i32, facing: Direction) -> (r: Robot)
        ensures
            r@ == (GridState { x: x as int, y: y as int, facing: facing@ }),
    {
        Robot { x, y, facing }
    }

    /// Interpret one instruction character: 'L' and 'R' turn, 'A' advances,
    /// and any other character is a no-op.
    pub fn execute(&mut self, instruction: char)
        requires
            in_bounds(stepped(old(self)@, instruction)),
        ensures
            final(self)@ == stepped(old(self)@, instruction),
    {
        match instruction {
            'L' => self.turn_left(),
            'R' => self.turn_right(),
            'A' => self.advance(),
            _ => (),
        }
    }

    /// Turn 90 degrees counter-clockwise; the position is unchanged.
    pub fn turn_left(&mut self)
        ensures
            final(self)@ == turned_left(old(self)@),
    {
        self.facing = match self.facing {
            Direction::North => Direction::West,
            Direction::East => Direction::North,
            Direction::South => Direction::East,
            Direction::West => Direction::South,
        }
    }

    /// Turn 90 degrees clockwise; the position is unchanged.
    pub fn turn_right(&mut self)
        ensures
            final(self)@ == turned_right(old(self)@),
    {
        self.facing = match self.facing {
            Direction::North => Direction::East,
            Direction::East => Direction::South,
            Direction::South => Direction::West,
            Direction::West => Direction::North,
        }
    }

    /// Move one unit along the current facing; the facing is unchanged.
    pub fn advance(&mut self)
        requires
            in_bounds(advanced(old(self)@)),
        ensures
            final(self)@ == advanced(old(self)@),
    {
        let (nx, ny): (i32, i32) = match self.facing {
            Direction::North => (self.x, self.y + 1),
            Direction::East => (self.x + 1, self.y),
            Direction::South => (self.x, self.y - 1),
            Direction::West => (self.x - 1, self.y),
        };
        self.x = nx;
        self.y = ny;
    }

    /// Interpret a whole instruction string, left to right, one character at
    /// a time.
    pub fn execute_all(&mut self, instructions: &str)
        requires
            run_in_bounds(old(self)@, instructions@),
        ensures
            final(self)@ == run(old(self)@, instructions@),
    {
        let ghost g0 = self@;
        let n = instructions.unicode_len();
        let mut i: usize = 0;
        while i < n
            invariant
                n == instructions@.len(),
                i <= n,
                self@ == run(g0, instructions@.take(i as int)),
                run_in_bounds(g0, instructions@),
            decreases n - i,
        {
            let c = instructions.get_char(i);
            proof {
                lemma_run_step(g0, instructions@, i as int);
                assert(in_bounds(run(g0, instructions@.take(i + 1))));
            }
            self.execute(c);
            i = i + 1;
        }
        proof {
            lemma_run_all(g0, instructions@);
        }
    }
}

} // verus!
