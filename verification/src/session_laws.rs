//! What holds of every session, whatever happened to it.

use crate::session::{SessionStep, SessionView};
use crate::session_types::{CellId, SessionError};
use crate::text::{decimal, law_decimal_is_injective};
use serde_json::Value;
use vstd::prelude::*;

verus! {

/// The step can be taken: an id is handed out while there is one, and a cell is registered under
/// an id that was handed out, if it could be started.
pub open spec fn step_is_possible<H>(session: SessionView<H>, step: SessionStep<H>) -> bool {
    match step {
        SessionStep::Allocate => session.has_free_id(),
        SessionStep::Register(cell_id, _) => session.was_allocated(cell_id) && session.can_start(
            cell_id,
        ),
        _ => true,
    }
}

/// The session after `steps`.
pub open spec fn after_all<H>(session: SessionView<H>, steps: Seq<SessionStep<H>>) -> SessionView<H>
    decreases steps.len(),
{
    if steps.len() == 0 {
        session
    } else {
        after_all(session, steps.drop_last()).after(steps.last())
    }
}

/// Each of `steps` can be taken when its turn comes.
pub open spec fn all_possible<H>(session: SessionView<H>, steps: Seq<SessionStep<H>>) -> bool
    decreases steps.len(),
{
    steps.len() == 0 || {
        &&& all_possible(session, steps.drop_last())
        &&& step_is_possible(after_all(session, steps.drop_last()), steps.last())
    }
}

/// Every cell that a session holds has an id that the session handed out.
pub proof fn law_cells_have_allocated_ids<H>(
    has_failure_handler: bool,
    steps: Seq<SessionStep<H>>,
    cell_id: Seq<char>,
)
    requires
        all_possible(SessionView::<H>::new(has_failure_handler), steps),
        after_all(SessionView::<H>::new(has_failure_handler), steps).cells.contains_key(cell_id),
    ensures
        after_all(SessionView::<H>::new(has_failure_handler), steps).was_allocated(cell_id),
    decreases steps.len(),
{
    if steps.len() > 0 {
        let before = after_all(SessionView::<H>::new(has_failure_handler), steps.drop_last());
        let after = after_all(SessionView::<H>::new(has_failure_handler), steps);
        if before.cells.contains_key(cell_id) {
            law_cells_have_allocated_ids(has_failure_handler, steps.drop_last(), cell_id);
        }
        assert(before.was_allocated(cell_id));
        let n = choose|n: nat| 1 <= n < before.next_cell_id && cell_id == #[trigger] decimal(n);
        assert(before.next_cell_id <= after.next_cell_id);
        assert(cell_id == decimal(n));
    }
}

/// An id that was handed out counts as such ever after.
pub proof fn law_allocated_ids_stay_allocated<H>(
    session: SessionView<H>,
    steps: Seq<SessionStep<H>>,
    cell_id: Seq<char>,
)
    requires
        session.was_allocated(cell_id),
        all_possible(session, steps),
    ensures
        after_all(session, steps).was_allocated(cell_id),
{
    let n = choose|n: nat| 1 <= n < session.next_cell_id && cell_id == #[trigger] decimal(n);
    lemma_ids_go_up(session, steps);
    assert(cell_id == decimal(n));
}

/// None of `steps` registers a cell under `cell_id`.
pub open spec fn never_registers<H>(steps: Seq<SessionStep<H>>, cell_id: Seq<char>) -> bool {
    forall|i: int|
        0 <= i < steps.len() ==> !(#[trigger] steps[i] is Register && steps[i]->Register_0
            == cell_id)
}

proof fn lemma_unregistered_id_stays_absent<H>(
    session: SessionView<H>,
    steps: Seq<SessionStep<H>>,
    cell_id: Seq<char>,
)
    requires
        !session.cells.contains_key(cell_id),
        never_registers(steps, cell_id),
    ensures
        !after_all(session, steps).cells.contains_key(cell_id),
    decreases steps.len(),
{
    if steps.len() > 0 {
        assert forall|i: int| 0 <= i < steps.drop_last().len() implies !(
        #[trigger] steps.drop_last()[i] is Register && steps.drop_last()[i]->Register_0
            == cell_id) by {
            assert(steps.drop_last()[i] == steps[i]);
        }
        lemma_unregistered_id_stays_absent(session, steps.drop_last(), cell_id);
        assert(steps.last() == steps[steps.len() - 1]);
    }
}

/// A cell whose id was handed out is never refused as a duplicate, however much happens between
/// its admission and its start, so long as it was not started yet.
pub proof fn law_new_cell_is_no_duplicate<H>(
    has_failure_handler: bool,
    steps: Seq<SessionStep<H>>,
    later: Seq<SessionStep<H>>,
)
    requires
        all_possible(SessionView::<H>::new(has_failure_handler), steps),
        never_registers(
            later,
            decimal(
                after_all(SessionView::<H>::new(has_failure_handler), steps).next_cell_id as nat,
            ),
        ),
    ensures
        ({
            let session = after_all(SessionView::<H>::new(has_failure_handler), steps);
            let cell_id = decimal(session.next_cell_id as nat);
            let at_start = after_all(session.after(SessionStep::Allocate), later);
            &&& !at_start.cells.contains_key(cell_id)
            &&& at_start.can_start(cell_id) == !at_start.shutting_down
        }),
{
    let session = after_all(SessionView::<H>::new(has_failure_handler), steps);
    let cell_id = decimal(session.next_cell_id as nat);
    if session.cells.contains_key(cell_id) {
        law_cells_have_allocated_ids(has_failure_handler, steps, cell_id);
        let n = choose|n: nat| 1 <= n < session.next_cell_id && cell_id == #[trigger] decimal(n);
        law_decimal_is_injective(n, session.next_cell_id as nat);
    }
    lemma_unregistered_id_stays_absent(session.after(SessionStep::Allocate), later, cell_id);
}

proof fn lemma_ids_go_up<H>(session: SessionView<H>, steps: Seq<SessionStep<H>>)
    requires
        all_possible(session, steps),
    ensures
        session.next_cell_id <= after_all(session, steps).next_cell_id,
    decreases steps.len(),
{
    if steps.len() > 0 {
        lemma_ids_go_up(session, steps.drop_last());
    }
}

/// No cell id is handed out twice: whatever happens after one was, the next one differs.
pub proof fn law_ids_are_not_reused<H>(session: SessionView<H>, steps: Seq<SessionStep<H>>)
    requires
        session.has_free_id(),
        all_possible(session.after(SessionStep::Allocate), steps),
    ensures
        decimal(session.next_cell_id as nat) != decimal(
            after_all(session.after(SessionStep::Allocate), steps).next_cell_id as nat,
        ),
{
    let later = after_all(session.after(SessionStep::Allocate), steps);
    lemma_ids_go_up(session.after(SessionStep::Allocate), steps);
    if decimal(session.next_cell_id as nat) == decimal(later.next_cell_id as nat) {
        law_decimal_is_injective(session.next_cell_id as nat, later.next_cell_id as nat);
    }
}

/// Once all cell ids are used up they stay so.
pub proof fn law_exhaustion_is_final<H>(session: SessionView<H>, steps: Seq<SessionStep<H>>)
    requires
        !session.has_free_id(),
        all_possible(session, steps),
    ensures
        !after_all(session, steps).has_free_id(),
{
    lemma_ids_go_up(session, steps);
}

/// Shutdown is final: it never ends, and no cell is added any more.
pub proof fn law_shutdown_is_final<H>(
    session: SessionView<H>,
    steps: Seq<SessionStep<H>>,
    cell_id: Seq<char>,
)
    requires
        session.shutting_down,
        all_possible(session, steps),
    ensures
        after_all(session, steps).shutting_down,
        !after_all(session, steps).can_start(cell_id),
        after_all(session, steps).cells.contains_key(cell_id) ==> session.cells.contains_key(
            cell_id,
        ) && after_all(session, steps).cells[cell_id] == session.cells[cell_id],
    decreases steps.len(),
{
    if steps.len() > 0 {
        law_shutdown_is_final(session, steps.drop_last(), cell_id);
    }
}

/// Stored values change by commits alone: a committed write is what a later cell finds, and what
/// was not written stays.
pub proof fn law_stored_values_change_by_commits_alone<H>(
    session: SessionView<H>,
    step: SessionStep<H>,
    key: Seq<char>,
)
    ensures
        ({
            let before = session.stored_values;
            let after = session.after(step).stored_values;
            if step is Commit && step->Commit_0.contains_key(key) {
                after.contains_key(key) && after[key] == step->Commit_0[key]
            } else {
                &&& after.contains_key(key) == before.contains_key(key)
                &&& before.contains_key(key) ==> after[key] == before[key]
            }
        }),
{
}

/// None of `steps` commits a write under `key`.
pub open spec fn never_writes<H>(steps: Seq<SessionStep<H>>, key: Seq<char>) -> bool {
    forall|i: int|
        0 <= i < steps.len() ==> !(#[trigger] steps[i] is Commit
            && steps[i]->Commit_0.contains_key(key))
}

proof fn lemma_unwritten_key_is_unchanged<H>(
    session: SessionView<H>,
    steps: Seq<SessionStep<H>>,
    key: Seq<char>,
)
    requires
        never_writes(steps, key),
    ensures
        after_all(session, steps).stored_values.contains_key(key)
            == session.stored_values.contains_key(key),
        session.stored_values.contains_key(key) ==> after_all(session, steps).stored_values[key]
            == session.stored_values[key],
    decreases steps.len(),
{
    if steps.len() > 0 {
        assert forall|i: int| 0 <= i < steps.drop_last().len() implies !(
        #[trigger] steps.drop_last()[i] is Commit
            && steps.drop_last()[i]->Commit_0.contains_key(key)) by {
            assert(steps.drop_last()[i] == steps[i]);
        }
        lemma_unwritten_key_is_unchanged(session, steps.drop_last(), key);
        assert(steps.last() == steps[steps.len() - 1]);
    }
}

/// A committed write is what every later cell finds, until a later commit writes the same key.
pub proof fn law_committed_write_stays<H>(
    session: SessionView<H>,
    writes: Map<Seq<char>, Value>,
    steps: Seq<SessionStep<H>>,
    key: Seq<char>,
)
    requires
        writes.contains_key(key),
        never_writes(steps, key),
    ensures
        ({
            let later = after_all(session.after(SessionStep::Commit(writes)), steps);
            later.stored_values.contains_key(key) && later.stored_values[key] == writes[key]
        }),
{
    lemma_unwritten_key_is_unchanged(session.after(SessionStep::Commit(writes)), steps, key);
}

/// A registered cell is held under its id with its own handle, and no other cell is affected, with
/// a failure handler or without.
pub proof fn law_registering_adds_one_cell<H>(
    session: SessionView<H>,
    cell_id: Seq<char>,
    handle: H,
    other: Seq<char>,
)
    requires
        step_is_possible(session, SessionStep::Register(cell_id, handle)),
    ensures
        ({
            let before = session.cells;
            let after = session.after(SessionStep::Register(cell_id, handle)).cells;
            &&& after.contains_key(cell_id)
            &&& after[cell_id] == handle
            &&& other != cell_id ==> after.contains_key(other) == before.contains_key(other)
            &&& other != cell_id && before.contains_key(other) ==> after[other] == before[other]
        }),
{
}

/// Each step changes one thing: the next id by handing one out, the cells by registering or closing
/// one, the stored values by a commit, and whether shutdown has begun by beginning it. Whether
/// there is a failure handler never changes.
pub proof fn law_each_step_changes_one_thing<H>(session: SessionView<H>, step: SessionStep<H>)
    requires
        step_is_possible(session, step),
    ensures
        session.after(step).next_cell_id == if step is Allocate {
            session.next_cell_id + 1
        } else {
            session.next_cell_id as int
        },
        !(step is Register || step is Close) ==> session.after(step).cells == session.cells,
        !(step is Commit) ==> session.after(step).stored_values == session.stored_values,
        session.after(step).shutting_down == (session.shutting_down || step is BeginShutdown),
        session.after(step).has_failure_handler == session.has_failure_handler,
{
}

/// Looking for a cell succeeds exactly where the session holds it, with the handle that it holds,
/// whatever the id reads.
pub proof fn law_lookup_finds_what_is_held<H>(
    session: SessionView<H>,
    cell_id: CellId,
    found: Result<&H, SessionError>,
)
    requires
        session.is_lookup(cell_id, found),
    ensures
        found is Ok <==> session.cells.contains_key(cell_id@),
        found is Ok ==> *found->Ok_0 == session.cells[cell_id@],
        found is Err ==> found->Err_0 == SessionError::MissingCell(cell_id),
{
}

/// A closed cell is gone, and no other cell is affected.
pub proof fn law_closing_removes_one_cell<H>(
    session: SessionView<H>,
    cell_id: Seq<char>,
    other: Seq<char>,
)
    ensures
        ({
            let before = session.cells;
            let after = session.after(SessionStep::Close(cell_id)).cells;
            &&& !after.contains_key(cell_id)
            &&& other != cell_id ==> after.contains_key(other) == before.contains_key(other)
            &&& other != cell_id && before.contains_key(other) ==> after[other] == before[other]
        }),
{
}

/// A registered cell stays, with its handle, until it closes.
pub proof fn law_cell_stays_until_it_closes<H>(
    session: SessionView<H>,
    step: SessionStep<H>,
    cell_id: Seq<char>,
)
    requires
        session.cells.contains_key(cell_id),
        step_is_possible(session, step),
        step != SessionStep::<H>::Close(cell_id),
    ensures
        session.after(step).cells.contains_key(cell_id),
        session.after(step).cells[cell_id] == session.cells[cell_id],
{
}

} // verus!
