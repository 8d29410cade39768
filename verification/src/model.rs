//! The mathematical model of the robot: a facing direction, a position on an
//! unbounded grid, and the meaning of each instruction character.
//!
//! Every executable variant states its contracts against this model (or
//! against a variant-specific mirror of it, proved equal in `equivalence`).

use vstd::prelude::*;

verus! {

/// A cardinal direction, the model-level representation of "facing".
#[derive(Clone, Copy, Debug, PartialEq, Eq, Structural)]
pub enum Heading {
    North,
    East,
    South,
    West,
}

/// The full observable state of a robot: position and facing, with
/// unbounded integer coordinates.
pub struct GridState {
    pub x: int,
    pub y: int,
    pub facing: Heading,
}

/// The facing after a left (counter-clockwise) turn.
pub open spec fn heading_left(h: Heading) -> Heading {
    match h {
        Heading::North => Heading::West,
        Heading::East => Heading::North,
        Heading::South => Heading::East,
        Heading::West => Heading::South,
    }
}

/// The facing after a right (clockwise) turn.
pub open spec fn heading_right(h: Heading) -> Heading {
    match h {
        Heading::North => Heading::East,
        Heading::East => Heading::South,
        Heading::South => Heading::West,
        Heading::West => Heading::North,
    }
}

/// The x displacement of one advance while facing `h`.
pub open spec fn delta_x(h: Heading) -> int {
    match h {
        Heading::North => 0,
        Heading::East => 1,
        Heading::South => 0,
        Heading::West => -1,
    }
}

/// The y displacement of one advance while facing `h`.
pub open spec fn delta_y(h: Heading) -> int {
    match h {
        Heading::North => 1,
        Heading::East => 0,
        Heading::South => -1,
        Heading::West => 0,
    }
}

/// The state after a left turn: facing changes, position does not.
pub open spec fn turned_left(g: GridState) -> GridState {
    GridState { facing: heading_left(g.facing), ..g }
}

/// The state after a right turn: facing changes, position does not.
pub open spec fn turned_right(g: GridState) -> GridState {
    GridState { facing: heading_right(g.facing), ..g }
}

/// The state after one advance: the position moves one unit along the
/// current facing, the facing does not change.
pub open spec fn advanced(g: GridState) -> GridState {
    GridState { x: g.x + delta_x(g.facing), y: g.y + delta_y(g.facing), ..g }
}

/// The meaning of one instruction character: 'L', 'R' and 'A' turn or
/// advance; every other character leaves the state unchanged.
pub open spec fn stepped(g: GridState, c: char) -> GridState {
    if c == 'L' {
        turned_left(g)
    } else if c == 'R' {
        turned_right(g)
    } else if c == 'A' {
        advanced(g)
    } else {
        g
    }
}

/// The state after interpreting a whole instruction sequence, left to right.
pub open spec fn run(g: GridState, s: Seq<char>) -> GridState
    decreases s.len(),
{
    if s.len() == 0 {
        g
    } else {
        stepped(run(g, s.drop_last()), s.last())
    }
}

/// Whether a model state fits in the machine coordinates of the executable
/// robots.
pub open spec fn in_bounds(g: GridState) -> bool {
    &&& i32::MIN <= g.x <= i32::MAX
    &&& i32::MIN <= g.y <= i32::MAX
}

/// Whether every intermediate state of a run (the initial state included)
/// fits in machine coordinates.
pub open spec fn run_in_bounds(g: GridState, s: Seq<char>) -> bool {
    forall|i: int| 0 <= i <= s.len() ==> in_bounds(#[trigger] run(g, s.take(i)))
}

/// Running one more instruction extends the run by one step.
pub proof fn lemma_run_step(g: GridState, s: Seq<char>, i: int)
    requires
        0 <= i < s.len(),
    ensures
        run(g, s.take(i + 1)) == stepped(run(g, s.take(i)), s[i]),
{
    assert(s.take(i + 1).drop_last() =~= s.take(i));
    assert(s.take(i + 1).last() == s[i]);
}

/// A run over a whole sequence is the run over any full-length prefix.
pub proof fn lemma_run_all(g: GridState, s: Seq<char>)
    ensures
        run(g, s.take(s.len() as int)) == run(g, s),
{
    assert(s.take(s.len() as int) =~= s);
}

/// Runs compose: interpreting two sequences in a row is interpreting their
/// concatenation.
pub proof fn lemma_run_append(g: GridState, a: Seq<char>, b: Seq<char>)
    ensures
        run(g, a + b) == run(run(g, a), b),
    decreases b.len(),
{
    if b.len() == 0 {
        assert(a + b =~= a);
    } else {
        lemma_run_append(g, a, b.drop_last());
        assert((a + b).drop_last() =~= a + b.drop_last());
        assert((a + b).last() == b.last());
    }
}

/// Interpreting the empty sequence leaves the state unchanged.
pub proof fn lemma_run_empty(g: GridState)
    ensures
        run(g, Seq::<char>::empty()) == g,
{
}

/// Interpreting a non-empty sequence is one step after the rest.
pub proof fn lemma_run_unfold(g: GridState, s: Seq<char>, c: char)
    requires
        s.len() > 0,
        s.last() == c,
    ensures
        run(g, s) == stepped(run(g, s.drop_last()), c),
{
}

/// Four right turns from any state return to the same facing and leave the
/// position unchanged; the same holds for four left turns.
pub proof fn lemma_turn_cycle(g: GridState)
    ensures
        run(g, seq!['R', 'R', 'R', 'R']) == g,
        run(g, seq!['L', 'L', 'L', 'L']) == g,
{
    lemma_run_empty(g);
    assert(seq!['R'].drop_last() =~= Seq::<char>::empty());
    assert(seq!['R', 'R'].drop_last() =~= seq!['R']);
    assert(seq!['R', 'R', 'R'].drop_last() =~= seq!['R', 'R']);
    assert(seq!['R', 'R', 'R', 'R'].drop_last() =~= seq!['R', 'R', 'R']);
    lemma_run_unfold(g, seq!['R'], 'R');
    lemma_run_unfold(g, seq!['R', 'R'], 'R');
    lemma_run_unfold(g, seq!['R', 'R', 'R'], 'R');
    lemma_run_unfold(g, seq!['R', 'R', 'R', 'R'], 'R');
    assert(seq!['L'].drop_last() =~= Seq::<char>::empty());
    assert(seq!['L', 'L'].drop_last() =~= seq!['L']);
    assert(seq!['L', 'L', 'L'].drop_last() =~= seq!['L', 'L']);
    assert(seq!['L', 'L', 'L', 'L'].drop_last() =~= seq!['L', 'L', 'L']);
    lemma_run_unfold(g, seq!['L'], 'L');
    lemma_run_unfold(g, seq!['L', 'L'], 'L');
    lemma_run_unfold(g, seq!['L', 'L', 'L'], 'L');
    lemma_run_unfold(g, seq!['L', 'L', 'L', 'L'], 'L');
}

/// A right turn followed by a left turn (or a left by a right) returns to
/// the original facing and leaves the position unchanged.
pub proof fn lemma_turn_inverse(g: GridState)
    ensures
        run(g, seq!['R', 'L']) == g,
        run(g, seq!['L', 'R']) == g,
{
    lemma_run_empty(g);
    assert(seq!['R'].drop_last() =~= Seq::<char>::empty());
    assert(seq!['L'].drop_last() =~= Seq::<char>::empty());
    assert(seq!['R', 'L'].drop_last() =~= seq!['R']);
    assert(seq!['L', 'R'].drop_last() =~= seq!['L']);
    lemma_run_unfold(g, seq!['R'], 'R');
    lemma_run_unfold(g, seq!['L'], 'L');
    lemma_run_unfold(g, seq!['R', 'L'], 'L');
    lemma_run_unfold(g, seq!['L', 'R'], 'R');
}

/// One advance displaces the position by exactly the unit vector of the
/// current facing and leaves the facing unchanged: +y for North, +x for
/// East, -y for South, -x for West.
pub proof fn lemma_advance_unit_displacement(g: GridState)
    ensures
        run(g, seq!['A']) == (GridState {
            x: g.x + delta_x(g.facing),
            y: g.y + delta_y(g.facing),
            facing: g.facing,
        }),
        g.facing == Heading::North ==> run(g, seq!['A']) == (GridState { y: g.y + 1, ..g }),
        g.facing == Heading::East ==> run(g, seq!['A']) == (GridState { x: g.x + 1, ..g }),
        g.facing == Heading::South ==> run(g, seq!['A']) == (GridState { y: g.y - 1, ..g }),
        g.facing == Heading::West ==> run(g, seq!['A']) == (GridState { x: g.x - 1, ..g }),
{
    lemma_run_empty(g);
    assert(seq!['A'].drop_last() =~= Seq::<char>::empty());
    lemma_run_unfold(g, seq!['A'], 'A');
}

/// A character outside 'L', 'R', 'A' is a no-op: inserting it anywhere in
/// the instructions does not change the result versus the instructions with
/// that character removed.
pub proof fn lemma_unknown_char_noop(g: GridState, before: Seq<char>, c: char, after: Seq<char>)
    requires
        c != 'L',
        c != 'R',
        c != 'A',
    ensures
        run(g, before + seq![c] + after) == run(g, before + after),
{
    lemma_run_append(g, before + seq![c], after);
    lemma_run_append(g, before, after);
    assert((before + seq![c]).drop_last() =~= before);
    assert((before + seq![c]).last() == c);
}

} // verus!
