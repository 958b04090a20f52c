//! The linearized model of the cell.
//!
//! A cell's state is an `Option<T>`: `None` while empty, `Some(v)` once
//! populated with `v`. Every write is a single atomic decision point and every
//! read a single atomic load, so any concurrent history of the cell is some
//! interleaving of these transitions; this module states the transitions and
//! proves, for every such interleaving, the laws the cell promises: the first
//! write wins, losers get their payload back, and reads only ever see the one
//! stored value.

use vstd::prelude::*;

verus! {

/// The state after a write attempts to populate `state` with `value`:
/// an empty cell becomes populated, a populated cell is left untouched.
pub open spec fn set_next<T>(state: Option<T>, value: T) -> Option<T> {
    match state {
        None => Some(value),
        Some(w) => Some(w),
    }
}

/// What a write attempt reports: success on an empty cell, and on a populated
/// cell the caller's own payload handed back unchanged.
pub open spec fn set_outcome<T>(state: Option<T>, value: T) -> Result<(), T> {
    match state {
        None => Ok(()),
        Some(_) => Err(value),
    }
}

/// What a poll of the cell reports: the stored value, if any. A read has no
/// effect on the state, so no companion transition function exists.
pub open spec fn read_outcome<T>(state: Option<T>) -> Option<T> {
    state
}

/// The state after a sequence of write attempts, applied in order, starting
/// from `state`.
pub open spec fn run<T>(state: Option<T>, writes: Seq<T>) -> Option<T>
    decreases writes.len(),
{
    if writes.len() == 0 {
        state
    } else {
        run(set_next(state, writes[0]), writes.skip(1))
    }
}

/// The one step of the write path, as executable code: the exact transition
/// that the slot's atomic compare-and-set performs, returning the next state
/// together with what the writer is told.
pub fn apply_set<T>(state: Option<T>, value: T) -> (r: (Option<T>, Result<(), T>))
    ensures
        r.0 == set_next(state, value),
        r.1 == set_outcome(state, value),
{
    match state {
        None => (Some(value), Ok(())),
        Some(w) => (Some(w), Err(value)),
    }
}

/// Write-once: a populated cell is never changed by any later sequence of
/// write attempts.
pub proof fn lemma_populated_persists<T>(w: T, writes: Seq<T>)
    ensures
        run(Some(w), writes) == Some(w),
    decreases writes.len(),
{
    if writes.len() > 0 {
        lemma_populated_persists(w, writes.skip(1));
    }
}

/// The first write in any linearization populates the cell, and the cell holds
/// its payload ever after.
pub proof fn lemma_first_write_wins<T>(writes: Seq<T>)
    requires
        writes.len() > 0,
    ensures
        run(None::<T>, writes) == Some(writes[0]),
{
    lemma_populated_persists(writes[0], writes.skip(1));
}

/// Exactly one write succeeds: in any linearization of write attempts on an
/// initially empty cell, the first attempt is told success and every later
/// attempt is told failure, with its own payload handed back unchanged.
pub proof fn lemma_exactly_one_set_succeeds<T>(writes: Seq<T>, i: int)
    requires
        0 <= i < writes.len(),
    ensures
        i == 0 ==> set_outcome(run(None::<T>, writes.take(i)), writes[i]) == Ok::<(), T>(()),
        i > 0 ==> set_outcome(run(None::<T>, writes.take(i)), writes[i]) == Err::<(), T>(writes[i]),
{
    if i > 0 {
        assert(writes.take(i)[0] == writes[0]);
        lemma_first_write_wins(writes.take(i));
    }
}

/// Reads see only the winner: a poll of a cell that no write has reached yet
/// reports absence, and a poll after any non-empty linearization of writes
/// reports exactly the first writer's value, never another and never a mix.
pub proof fn lemma_read_sees_winner<T>(writes: Seq<T>)
    ensures
        writes.len() == 0 ==> read_outcome(run(None::<T>, writes)) is None,
        writes.len() > 0 ==> read_outcome(run(None::<T>, writes)) == Some(writes[0]),
{
    if writes.len() > 0 {
        lemma_first_write_wins(writes);
    }
}

/// Reads at any point of any linearization: a poll taken between any two
/// write attempts — not only once the history is over — reports either
/// absence, and that only before the very first attempt, or exactly the
/// first writer's value, never another writer's and never a mix.
pub proof fn lemma_read_anywhere<T>(writes: Seq<T>, i: int)
    requires
        0 <= i <= writes.len(),
    ensures
        i == 0 ==> read_outcome(run(None::<T>, writes.take(i))) is None,
        i > 0 ==> read_outcome(run(None::<T>, writes.take(i))) == Some(writes[0]),
{
    if i > 0 {
        assert(writes.take(i)[0] == writes[0]);
        lemma_first_write_wins(writes.take(i));
    }
}

/// The read side is idempotent and stable: once any writes have populated the
/// cell, a poll at any later point — after arbitrarily many further write
/// attempts, and however often it is repeated — reports the same value as a
/// poll now. Reads themselves leave the state untouched by construction.
pub proof fn lemma_reads_stable<T>(writes: Seq<T>, more: Seq<T>)
    requires
        writes.len() > 0,
    ensures
        read_outcome(run(None::<T>, writes + more)) == read_outcome(run(None::<T>, writes)),
{
    lemma_first_write_wins(writes);
    assert((writes + more)[0] == writes[0]);
    lemma_first_write_wins(writes + more);
}

} // verus!
