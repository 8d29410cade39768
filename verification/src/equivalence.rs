//! The cross-variant invariant: the four pattern variants interpret every
//! instruction sequence identically. The direct-mutation variant states its
//! contracts against the model itself; the command, state and type-state
//! variants state theirs over transition-table mirrors of their own. The
//! lemmas here prove the three mirrors equal to the model, character by
//! character and over whole runs, which closes the claim for all four.

use vstd::prelude::*;

use crate::model::{GridState, in_bounds, run, run_in_bounds, stepped};
use crate::solutions::command_pattern::{cmd_run, cmd_run_in_bounds, cmd_stepped};
use crate::solutions::state_pattern::{st_run, st_run_in_bounds, st_stepped};
use crate::solutions::type_state_pattern::{ts_run, ts_run_in_bounds, ts_stepped};

verus! {

/// All four variants give one instruction character the same meaning.
pub proof fn lemma_stepped_agree(g: GridState, c: char)
    ensures
        cmd_stepped(g, c) == stepped(g, c),
        st_stepped(g, c) == stepped(g, c),
        ts_stepped(g, c) == stepped(g, c),
{
}

/// For every instruction sequence and every initial state, the four
/// variants compute identical final states.
pub proof fn lemma_variants_equivalent(g: GridState, s: Seq<char>)
    ensures
        cmd_run(g, s) == run(g, s),
        st_run(g, s) == run(g, s),
        ts_run(g, s) == run(g, s),
    decreases s.len(),
{
    if s.len() > 0 {
        lemma_variants_equivalent(g, s.drop_last());
        lemma_stepped_agree(run(g, s.drop_last()), s.last());
    }
}

/// The variants also agree on which runs stay within machine coordinates,
/// so a precondition stated for one holds for all.
pub proof fn lemma_run_in_bounds_agree(g: GridState, s: Seq<char>)
    ensures
        cmd_run_in_bounds(g, s) <==> run_in_bounds(g, s),
        st_run_in_bounds(g, s) <==> run_in_bounds(g, s),
        ts_run_in_bounds(g, s) <==> run_in_bounds(g, s),
{
    assert forall|i: int| 0 <= i <= s.len() implies {
        &&& #[trigger] cmd_run(g, s.take(i)) == run(g, s.take(i))
        &&& st_run(g, s.take(i)) == run(g, s.take(i))
        &&& ts_run(g, s.take(i)) == run(g, s.take(i))
    } by {
        lemma_variants_equivalent(g, s.take(i));
    }
    assert forall|i: int| 0 <= i <= s.len() && run_in_bounds(g, s) implies in_bounds(
        #[trigger] cmd_run(g, s.take(i)),
    ) by {
        lemma_variants_equivalent(g, s.take(i));
    }
    assert forall|i: int| 0 <= i <= s.len() && run_in_bounds(g, s) implies in_bounds(
        #[trigger] st_run(g, s.take(i)),
    ) by {
        lemma_variants_equivalent(g, s.take(i));
    }
    assert forall|i: int| 0 <= i <= s.len() && run_in_bounds(g, s) implies in_bounds(
        #[trigger] ts_run(g, s.take(i)),
    ) by {
        lemma_variants_equivalent(g, s.take(i));
    }
    if cmd_run_in_bounds(g, s) {
        assert forall|i: int| 0 <= i <= s.len() implies in_bounds(#[trigger] run(g, s.take(i))) by {
            lemma_variants_equivalent(g, s.take(i));
        }
    }
    if st_run_in_bounds(g, s) {
        assert forall|i: int| 0 <= i <= s.len() implies in_bounds(#[trigger] run(g, s.take(i))) by {
            lemma_variants_equivalent(g, s.take(i));
        }
    }
    if ts_run_in_bounds(g, s) {
        assert forall|i: int| 0 <= i <= s.len() implies in_bounds(#[trigger] run(g, s.take(i))) by {
            lemma_variants_equivalent(g, s.take(i));
        }
    }
}

} // verus!
