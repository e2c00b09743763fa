//! What every call on a session comes to, and how one call bears on the next.

use crate::session::{begin_commit, CompletionVerdict, PendingCell, SessionRuntime};
use crate::session_types::{CellEvent, CellId, CompletionCommit, SessionError};
use crate::string_map::StringMap;
use crate::text::{decimal, law_decimal_is_injective};
use serde_json::Value;
use vstd::prelude::*;

verus! {

/// A new session has no cells and no values, hands out 1 as its first cell id, is not shutting
/// down, and has a failure handler exactly if it was given one.
pub proof fn law_new_session_is_empty<H>(
    has_failure_handler: bool,
    session: SessionRuntime<H>,
)
    requires
        call_ensures(
            SessionRuntime::<H>::new_with_task_failure_handler,
            (has_failure_handler,),
            session,
        ),
    ensures
        session@.stored_values == Map::<Seq<char>, Value>::empty(),
        session@.cells == Map::<Seq<char>, H>::empty(),
        session@.next_cell_id == 1,
        !session@.shutting_down,
        session@.has_failure_handler == has_failure_handler,
{
}

/// A session that is made without a failure handler is like one that is given none.
pub proof fn law_plain_session_has_no_failure_handler<H>(
    session: SessionRuntime<H>,
    given_none: SessionRuntime<H>,
)
    requires
        call_ensures(SessionRuntime::<H>::new, (), session),
        call_ensures(
            SessionRuntime::<H>::new_with_task_failure_handler,
            (false,),
            given_none,
        ),
    ensures
        session@ == given_none@,
        !session@.has_failure_handler,
{
}

/// While there are cell ids left, a session that is not shutting down admits a cell, under the next
/// number. Nothing else of the session changes.
pub proof fn law_cell_is_admitted_under_the_next_number<H>(
    session: &mut SessionRuntime<H>,
    admitted: Result<CellId, SessionError>,
)
    requires
        call_ensures(SessionRuntime::<H>::execute, (session,), admitted),
        !old(session)@.shutting_down,
        old(session)@.next_cell_id < u64::MAX,
    ensures
        admitted is Ok,
        admitted->Ok_0@ == decimal(old(session)@.next_cell_id as nat),
        final(session)@.next_cell_id == old(session)@.next_cell_id + 1,
        final(session)@.stored_values == old(session)@.stored_values,
        final(session)@.cells == old(session)@.cells,
        final(session)@.shutting_down == old(session)@.shutting_down,
        final(session)@.has_failure_handler == old(session)@.has_failure_handler,
{
}

/// A session that is shutting down, or has no cell ids left, admits no cell, says which of the two
/// it is, and does not change.
pub proof fn law_cell_is_refused_without_effect<H>(
    session: &mut SessionRuntime<H>,
    admitted: Result<CellId, SessionError>,
)
    requires
        call_ensures(SessionRuntime::<H>::execute, (session,), admitted),
        old(session)@.shutting_down || old(session)@.next_cell_id == u64::MAX,
    ensures
        admitted is Err,
        old(session)@.shutting_down ==> admitted->Err_0 is ShuttingDown,
        !old(session)@.shutting_down ==> admitted->Err_0 is CellIdSpaceExhausted,
        final(session)@.stored_values == old(session)@.stored_values,
        final(session)@.cells == old(session)@.cells,
        final(session)@.next_cell_id == old(session)@.next_cell_id,
        final(session)@.shutting_down == old(session)@.shutting_down,
        final(session)@.has_failure_handler == old(session)@.has_failure_handler,
{
}

/// Cell ids are handed out while there are some, whether or not the session is shutting down.
pub proof fn law_next_number_is_handed_out<H>(
    session: &mut SessionRuntime<H>,
    allocated: Result<CellId, SessionError>,
)
    requires
        call_ensures(SessionRuntime::<H>::allocate_cell_id, (session,), allocated),
    ensures
        match allocated {
            Ok(cell_id) => {
                &&& old(session)@.next_cell_id < u64::MAX
                &&& cell_id@ == decimal(old(session)@.next_cell_id as nat)
                &&& final(session)@.next_cell_id == old(session)@.next_cell_id + 1
            },
            Err(error) => {
                &&& old(session)@.next_cell_id == u64::MAX
                &&& error is CellIdSpaceExhausted
                &&& final(session)@.next_cell_id == old(session)@.next_cell_id
            },
        },
        final(session)@.stored_values == old(session)@.stored_values,
        final(session)@.cells == old(session)@.cells,
        final(session)@.shutting_down == old(session)@.shutting_down,
        final(session)@.has_failure_handler == old(session)@.has_failure_handler,
{
}

/// Two cells that are admitted one after the other get different ids.
pub proof fn law_admitted_cells_have_different_ids<H>(
    session: &mut SessionRuntime<H>,
    later: &mut SessionRuntime<H>,
    first: CellId,
    second: CellId,
)
    requires
        call_ensures(SessionRuntime::<H>::execute, (session,), Ok::<CellId, SessionError>(first)),
        call_ensures(SessionRuntime::<H>::execute, (later,), Ok::<CellId, SessionError>(second)),
        final(session)@.next_cell_id <= old(later)@.next_cell_id,
    ensures
        first@ != second@,
{
    if first@ == second@ {
        law_decimal_is_injective(
            old(session)@.next_cell_id as nat,
            old(later)@.next_cell_id as nat,
        );
    }
}

/// A cell can be started under any id that no cell has, unless the session is shutting down. It
/// finds the stored values as they are.
pub proof fn law_new_cell_finds_the_stored_values<H>(
    session: &SessionRuntime<H>,
    cell_id: CellId,
    pending: Result<PendingCell, SessionError>,
)
    requires
        call_ensures(SessionRuntime::<H>::start_cell, (session, cell_id), pending),
        !session@.shutting_down,
        !session@.cells.contains_key(cell_id@),
    ensures
        pending is Ok,
        pending->Ok_0.cell_id@ == cell_id@,
        pending->Ok_0.stored_values@ == session@.stored_values,
{
}

/// No cell is started while the session is shutting down, and none under an id that a cell has: the
/// error names that cell.
pub proof fn law_cell_is_not_started_twice<H>(
    session: &SessionRuntime<H>,
    cell_id: CellId,
    pending: Result<PendingCell, SessionError>,
)
    requires
        call_ensures(SessionRuntime::<H>::start_cell, (session, cell_id), pending),
        session@.shutting_down || session@.cells.contains_key(cell_id@),
    ensures
        match pending {
            Ok(_) => false,
            Err(error) => if session@.shutting_down {
                error is ShuttingDown
            } else {
                error == SessionError::DuplicateCell(cell_id)
            },
        },
{
}

/// A cell that was prepared is registered with its own handle if it can still be started, with a
/// failure handler or without. What else was prepared is handed on, and the cell's task is to be
/// watched exactly where there is a failure handler. Nothing else of the session changes.
pub proof fn law_prepared_cell_is_registered<H, T>(
    session: &mut SessionRuntime<H>,
    cell_id: CellId,
    handle: H,
    rest: T,
    started: Result<(T, bool), SessionError>,
)
    requires
        call_ensures(
            SessionRuntime::<H>::cell_prepared::<T>,
            (session, cell_id, Ok((handle, rest))),
            started,
        ),
        !old(session)@.shutting_down,
        !old(session)@.cells.contains_key(cell_id@),
    ensures
        started == Ok::<(T, bool), SessionError>((rest, old(session)@.has_failure_handler)),
        final(session)@.cells.contains_key(cell_id@),
        final(session)@.cells[cell_id@] == handle,
        forall|other: Seq<char>|
            other != cell_id@ ==> {
                &&& #[trigger] final(session)@.cells.contains_key(other)
                    == old(session)@.cells.contains_key(other)
                &&& old(session)@.cells.contains_key(other) ==> final(session)@.cells[other]
                    == old(session)@.cells[other]
            },
        final(session)@.stored_values == old(session)@.stored_values,
        final(session)@.next_cell_id == old(session)@.next_cell_id,
        final(session)@.shutting_down == old(session)@.shutting_down,
        final(session)@.has_failure_handler == old(session)@.has_failure_handler,
{
}

/// A cell that could not be prepared is not registered, and the reason is handed on.
pub proof fn law_unprepared_cell_is_not_registered<H, T>(
    session: &mut SessionRuntime<H>,
    cell_id: CellId,
    message: String,
    started: Result<(T, bool), SessionError>,
)
    requires
        call_ensures(
            SessionRuntime::<H>::cell_prepared::<T>,
            (session, cell_id, Err::<(H, T), String>(message)),
            started,
        ),
        !old(session)@.shutting_down,
        !old(session)@.cells.contains_key(cell_id@),
    ensures
        started == Err::<(T, bool), SessionError>(SessionError::Runtime(message)),
        final(session)@.stored_values == old(session)@.stored_values,
        final(session)@.cells == old(session)@.cells,
        final(session)@.next_cell_id == old(session)@.next_cell_id,
        final(session)@.shutting_down == old(session)@.shutting_down,
        final(session)@.has_failure_handler == old(session)@.has_failure_handler,
{
}

/// A prepared cell is refused, and the session left as it is, once shutdown has begun or another
/// cell has the id.
pub proof fn law_late_cell_is_not_registered<H, T>(
    session: &mut SessionRuntime<H>,
    cell_id: CellId,
    prepared: Result<(H, T), String>,
    started: Result<(T, bool), SessionError>,
)
    requires
        call_ensures(
            SessionRuntime::<H>::cell_prepared::<T>,
            (session, cell_id, prepared),
            started,
        ),
        old(session)@.shutting_down || old(session)@.cells.contains_key(cell_id@),
    ensures
        match started {
            Ok(_) => false,
            Err(error) => if old(session)@.shutting_down {
                error is ShuttingDown
            } else {
                error == SessionError::DuplicateCell(cell_id)
            },
        },
        final(session)@.stored_values == old(session)@.stored_values,
        final(session)@.cells == old(session)@.cells,
        final(session)@.next_cell_id == old(session)@.next_cell_id,
        final(session)@.shutting_down == old(session)@.shutting_down,
        final(session)@.has_failure_handler == old(session)@.has_failure_handler,
{
}

/// A cell can be observed exactly while the session holds it, by the handle that it holds, whatever
/// the id reads. Otherwise the error names it as missing.
pub proof fn law_held_cell_can_be_observed<H>(
    session: &SessionRuntime<H>,
    cell_id: CellId,
    found: Result<&H, SessionError>,
)
    requires
        call_ensures(SessionRuntime::<H>::begin_observe, (session, &cell_id), found),
    ensures
        found is Ok <==> session@.cells.contains_key(cell_id@),
        found is Ok ==> *found->Ok_0 == session@.cells[cell_id@],
        found is Err ==> found->Err_0 == SessionError::MissingCell(cell_id),
{
}

/// A cell can be ended exactly while the session holds it, by the handle that it holds, whatever
/// the id reads. Otherwise the error names it as missing.
pub proof fn law_held_cell_can_be_ended<H>(
    session: &SessionRuntime<H>,
    cell_id: CellId,
    found: Result<&H, SessionError>,
)
    requires
        call_ensures(SessionRuntime::<H>::terminate, (session, &cell_id), found),
    ensures
        found is Ok <==> session@.cells.contains_key(cell_id@),
        found is Ok ==> *found->Ok_0 == session@.cells[cell_id@],
        found is Err ==> found->Err_0 == SessionError::MissingCell(cell_id),
{
}

/// A cell that was started can be observed and ended at once, by the handle that it was started
/// with.
pub proof fn law_started_cell_is_found<H, T>(
    session: &mut SessionRuntime<H>,
    cell_id: CellId,
    handle: H,
    rest: T,
    started: (T, bool),
    observed: Result<&H, SessionError>,
    ended: Result<&H, SessionError>,
)
    requires
        call_ensures(
            SessionRuntime::<H>::cell_prepared::<T>,
            (session, cell_id, Ok((handle, rest))),
            Ok::<(T, bool), SessionError>(started),
        ),
        call_ensures(SessionRuntime::<H>::begin_observe, (&*final(session), &cell_id), observed),
        call_ensures(SessionRuntime::<H>::terminate, (&*final(session), &cell_id), ended),
    ensures
        observed is Ok,
        *observed->Ok_0 == handle,
        ended is Ok,
        *ended->Ok_0 == handle,
{
}

/// A cell that was started is not started again under the same id.
pub proof fn law_started_cell_keeps_its_id<H, T>(
    session: &mut SessionRuntime<H>,
    cell_id: CellId,
    handle: H,
    rest: T,
    started: (T, bool),
    pending: Result<PendingCell, SessionError>,
)
    requires
        call_ensures(
            SessionRuntime::<H>::cell_prepared::<T>,
            (session, cell_id, Ok((handle, rest))),
            Ok::<(T, bool), SessionError>(started),
        ),
        call_ensures(SessionRuntime::<H>::start_cell, (&*final(session), cell_id), pending),
    ensures
        pending is Err,
        pending->Err_0 == SessionError::DuplicateCell(cell_id),
{
}

/// Starting one cell changes nothing for another: it is found, or not, as before.
pub proof fn law_starting_a_cell_leaves_others_alone<H, T>(
    session: &mut SessionRuntime<H>,
    cell_id: CellId,
    prepared: Result<(H, T), String>,
    started: Result<(T, bool), SessionError>,
    other: CellId,
    before: Result<&H, SessionError>,
    after: Result<&H, SessionError>,
)
    requires
        call_ensures(
            SessionRuntime::<H>::cell_prepared::<T>,
            (session, cell_id, prepared),
            started,
        ),
        call_ensures(SessionRuntime::<H>::begin_observe, (&*old(session), &other), before),
        call_ensures(SessionRuntime::<H>::begin_observe, (&*final(session), &other), after),
        other@ != cell_id@,
    ensures
        before is Ok <==> after is Ok,
        before is Ok ==> *before->Ok_0 == *after->Ok_0,
{
}

/// A cell that closed is gone: it can be neither observed nor ended any more. The answer says
/// whether it was there.
pub proof fn law_closed_cell_is_not_found<H>(
    session: &mut SessionRuntime<H>,
    cell_id: CellId,
    removed: bool,
    observed: Result<&H, SessionError>,
    ended: Result<&H, SessionError>,
)
    requires
        call_ensures(SessionRuntime::<H>::closed, (session, &cell_id), removed),
        call_ensures(SessionRuntime::<H>::begin_observe, (&*final(session), &cell_id), observed),
        call_ensures(SessionRuntime::<H>::terminate, (&*final(session), &cell_id), ended),
    ensures
        removed == old(session)@.cells.contains_key(cell_id@),
        observed is Err,
        observed->Err_0 == SessionError::MissingCell(cell_id),
        ended is Err,
        ended->Err_0 == SessionError::MissingCell(cell_id),
{
}

/// Closing one cell changes nothing else: every other cell stays with its handle, and so do the
/// values, the next id, and whether the session is shutting down.
pub proof fn law_closing_leaves_the_rest_alone<H>(
    session: &mut SessionRuntime<H>,
    cell_id: CellId,
    removed: bool,
    other: Seq<char>,
)
    requires
        call_ensures(SessionRuntime::<H>::closed, (session, &cell_id), removed),
        other != cell_id@,
    ensures
        final(session)@.cells.contains_key(other) == old(session)@.cells.contains_key(other),
        old(session)@.cells.contains_key(other) ==> final(session)@.cells[other]
            == old(session)@.cells[other],
        final(session)@.stored_values == old(session)@.stored_values,
        final(session)@.next_cell_id == old(session)@.next_cell_id,
        final(session)@.shutting_down == old(session)@.shutting_down,
        final(session)@.has_failure_handler == old(session)@.has_failure_handler,
{
}

/// Shutdown has begun once it was begun, and nothing else changes: the cells that are there stay.
pub proof fn law_shutdown_begins<H>(
    session: &mut SessionRuntime<H>,
    begun: bool,
)
    requires
        call_ensures(SessionRuntime::<H>::begin_shutdown, (session,), ()),
        call_ensures(SessionRuntime::<H>::is_shutting_down, (&*final(session),), begun),
    ensures
        begun,
        final(session)@.shutting_down,
        final(session)@.stored_values == old(session)@.stored_values,
        final(session)@.cells == old(session)@.cells,
        final(session)@.next_cell_id == old(session)@.next_cell_id,
        final(session)@.has_failure_handler == old(session)@.has_failure_handler,
{
}

/// Whether shutdown has begun is told as it is.
pub proof fn law_shutdown_is_told<H>(
    session: &SessionRuntime<H>,
    begun: bool,
)
    requires
        call_ensures(SessionRuntime::<H>::is_shutting_down, (session,), begun),
    ensures
        begun == session@.shutting_down,
{
}

/// After shutdown has begun no cell is admitted or started.
pub proof fn law_nothing_starts_after_shutdown<H>(
    session: &mut SessionRuntime<H>,
    later: &mut SessionRuntime<H>,
    admitted: Result<CellId, SessionError>,
    cell_id: CellId,
    pending: Result<PendingCell, SessionError>,
)
    requires
        call_ensures(SessionRuntime::<H>::begin_shutdown, (session,), ()),
        *old(later) == *final(session),
        call_ensures(SessionRuntime::<H>::execute, (later,), admitted),
        call_ensures(SessionRuntime::<H>::start_cell, (&*final(session), cell_id), pending),
    ensures
        admitted is Err,
        admitted->Err_0 is ShuttingDown,
        pending is Err,
        pending->Err_0 is ShuttingDown,
{
}

/// A completion that the cell took stands. Each value that it leaves is stored, every other value
/// stays as it was, and nothing else of the session changes.
pub proof fn law_accepted_completion_leaves_its_values<H, P>(
    session: &mut SessionRuntime<H>,
    writes: StringMap<Value>,
    commit: CompletionCommit<P>,
    key: Seq<char>,
)
    requires
        call_ensures(
            SessionRuntime::<H>::commit_completion::<P>,
            (session, writes, CompletionVerdict::<P>::Accepted),
            commit,
        ),
    ensures
        commit is Committed,
        if writes@.contains_key(key) {
            &&& final(session)@.stored_values.contains_key(key)
            &&& final(session)@.stored_values[key] == writes@[key]
        } else {
            &&& final(session)@.stored_values.contains_key(key)
                == old(session)@.stored_values.contains_key(key)
            &&& old(session)@.stored_values.contains_key(key) ==> final(session)@.stored_values[key]
                == old(session)@.stored_values[key]
        },
        final(session)@.cells == old(session)@.cells,
        final(session)@.next_cell_id == old(session)@.next_cell_id,
        final(session)@.shutting_down == old(session)@.shutting_down,
        final(session)@.has_failure_handler == old(session)@.has_failure_handler,
{
}

/// A completion that the cell did not take is handed back, and leaves nothing behind.
pub proof fn law_refused_completion_leaves_nothing<H, P>(
    session: &mut SessionRuntime<H>,
    writes: StringMap<Value>,
    event: CellEvent<P>,
    commit: CompletionCommit<P>,
)
    requires
        call_ensures(
            SessionRuntime::<H>::commit_completion::<P>,
            (session, writes, CompletionVerdict::Refused(event)),
            commit,
        ),
    ensures
        commit == CompletionCommit::Rejected(event),
        final(session)@.stored_values == old(session)@.stored_values,
        final(session)@.cells == old(session)@.cells,
        final(session)@.next_cell_id == old(session)@.next_cell_id,
        final(session)@.shutting_down == old(session)@.shutting_down,
        final(session)@.has_failure_handler == old(session)@.has_failure_handler,
{
}

/// The values of a committed completion are what the next cell finds.
pub proof fn law_next_cell_finds_committed_values<H, P>(
    session: &mut SessionRuntime<H>,
    writes: StringMap<Value>,
    commit: CompletionCommit<P>,
    key: Seq<char>,
    cell_id: CellId,
    pending: PendingCell,
)
    requires
        call_ensures(
            SessionRuntime::<H>::commit_completion::<P>,
            (session, writes, CompletionVerdict::<P>::Accepted),
            commit,
        ),
        writes@.contains_key(key),
        call_ensures(
            SessionRuntime::<H>::start_cell,
            (&*final(session), cell_id),
            Ok::<PendingCell, SessionError>(pending),
        ),
    ensures
        pending.stored_values@.contains_key(key),
        pending.stored_values@[key] == writes@[key],
{
}

/// The completion of a cancelled cell is rejected with its own event, and that of any other cell
/// goes on with it.
pub proof fn law_only_cancelled_completions_are_rejected_at_once<P>(
    cancelled: bool,
    event: CellEvent<P>,
    begun: Result<CellEvent<P>, CompletionCommit<P>>,
)
    requires
        call_ensures(begin_commit::<P>, (cancelled, event), begun),
    ensures
        begun is Err <==> cancelled,
        begun is Ok ==> begun->Ok_0 == event,
        begun is Err ==> begun->Err_0 == CompletionCommit::Rejected(event),
{
}

} // verus!
