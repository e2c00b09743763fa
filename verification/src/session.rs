//! The state that the cells of one session share, and every decision that is taken on it.

use crate::session_types::{CellEvent, CellId, CompletionCommit, SessionError};
use crate::string_map::StringMap;
use crate::text::{concat3, decimal, decimal_text};
use serde_json::Value;
use vstd::prelude::*;
use vstd::string::*;

verus! {

/// A session as it is seen from outside.
#[verifier::ext_equal]
pub struct SessionView<H> {
    /// The values that completed cells left for later ones.
    pub stored_values: Map<Seq<char>, Value>,
    /// The cells that have not closed yet, by their ids.
    pub cells: Map<Seq<char>, H>,
    /// The number that the next cell's id is made of.
    pub next_cell_id: u64,
    /// Whether shutdown has begun.
    pub shutting_down: bool,
    /// Whether there is a handler that is told of tasks that fail.
    pub has_failure_handler: bool,
}

/// What can happen to a session.
pub enum SessionStep<H> {
    /// A cell id is handed out.
    Allocate,
    /// The prepared cell is registered.
    Register(Seq<char>, H),
    /// The cell closes.
    Close(Seq<char>),
    /// A completion is committed, with the values that it leaves.
    Commit(Map<Seq<char>, Value>),
    /// Shutdown begins.
    BeginShutdown,
}

impl<H> SessionView<H> {
    /// A new session: no cells, no values, and cell ids from 1 on.
    pub open spec fn new(has_failure_handler: bool) -> SessionView<H> {
        SessionView {
            stored_values: Map::empty(),
            cells: Map::empty(),
            next_cell_id: 1,
            shutting_down: false,
            has_failure_handler,
        }
    }

    /// The session after a step.
    pub open spec fn after(self, step: SessionStep<H>) -> SessionView<H> {
        match step {
            SessionStep::Allocate => SessionView {
                next_cell_id: (self.next_cell_id + 1) as u64,
                ..self
            },
            SessionStep::Register(cell_id, handle) => SessionView {
                cells: self.cells.insert(cell_id, handle),
                ..self
            },
            SessionStep::Close(cell_id) => SessionView { cells: self.cells.remove(cell_id), ..self },
            SessionStep::Commit(writes) => SessionView {
                stored_values: self.stored_values.union_prefer_right(writes),
                ..self
            },
            SessionStep::BeginShutdown => SessionView { shutting_down: true, ..self },
        }
    }

    /// A cell id can be handed out.
    pub open spec fn has_free_id(self) -> bool {
        self.next_cell_id < u64::MAX
    }

    /// The id has been handed out.
    pub open spec fn was_allocated(self, cell_id: Seq<char>) -> bool {
        exists|n: nat| 1 <= n < self.next_cell_id && cell_id == #[trigger] decimal(n)
    }

    /// The cell with that id can be started.
    pub open spec fn can_start(self, cell_id: Seq<char>) -> bool {
        !self.shutting_down && !self.cells.contains_key(cell_id)
    }

    /// `found` is what looking for the cell comes to: its handle, or the error that names it.
    pub open spec fn is_lookup(self, cell_id: CellId, found: Result<&H, SessionError>) -> bool {
        match found {
            Ok(handle) => self.cells.contains_key(cell_id@) && self.cells[cell_id@] == *handle,
            Err(error) => !self.cells.contains_key(cell_id@) && error == SessionError::MissingCell(
                cell_id,
            ),
        }
    }

    /// Why a cell that cannot be started is refused.
    pub open spec fn refusal(self, cell_id: CellId) -> SessionError {
        if self.shutting_down {
            SessionError::ShuttingDown
        } else {
            SessionError::DuplicateCell(cell_id)
        }
    }
}

/// A cell that is to be prepared.
pub struct PendingCell {
    /// The cell's id.
    pub cell_id: CellId,
    /// The stored values as the cell finds them.
    pub stored_values: StringMap<Value>,
}

/// What a cell's own state said of its completion.
#[derive(Debug, PartialEq, Eq)]
pub enum CompletionVerdict<P> {
    /// The cell did not take the completion.
    Refused(CellEvent<P>),
    /// The cell took the completion.
    Accepted,
}

/// The source of cell ids, which start at 1.
struct CellIdCounter {
    next: u64,
}

impl CellIdCounter {
    #[verifier::type_invariant]
    spec fn starts_at_one(self) -> bool {
        1 <= self.next
    }

    fn new() -> (counter: Self)
        ensures
            counter.next == 1,
    {
        CellIdCounter { next: 1 }
    }

    fn advance(&mut self) -> (number: Option<u64>)
        ensures
            1 <= old(self).next,
            match number {
                Some(n) => n == old(self).next && final(self).next == n + 1,
                None => old(self).next == u64::MAX && *final(self) == *old(self),
            },
    {
        proof {
            use_type_invariant(&*self);
        }
        let number: u64 = self.next;
        match number.checked_add(1) {
            Some(next) => {
                self.next = next;
                Some(number)
            },
            None => None,
        }
    }
}

/// The shared state of one session, with a handle of type `H` for each cell.
pub struct SessionRuntime<H> {
    stored_values: StringMap<Value>,
    cells: StringMap<H>,
    ids: CellIdCounter,
    shutting_down: bool,
    has_failure_handler: bool,
}

impl<H> View for SessionRuntime<H> {
    type V = SessionView<H>;

    closed spec fn view(&self) -> SessionView<H> {
        SessionView {
            stored_values: self.stored_values@,
            cells: self.cells@,
            next_cell_id: self.ids.next,
            shutting_down: self.shutting_down,
            has_failure_handler: self.has_failure_handler,
        }
    }
}

impl<H> SessionRuntime<H> {
    /// A new session without a failure handler.
    pub fn new() -> (session: Self)
        ensures
            session@ == SessionView::<H>::new(false),
    {
        Self::new_with_task_failure_handler(false)
    }

    /// A new session, with a failure handler or without.
    pub fn new_with_task_failure_handler(has_failure_handler: bool) -> (session: Self)
        ensures
            session@ == SessionView::<H>::new(has_failure_handler),
    {
        SessionRuntime {
            stored_values: StringMap::new(),
            cells: StringMap::new(),
            ids: CellIdCounter::new(),
            shutting_down: false,
            has_failure_handler,
        }
    }

    /// Hands out the next cell id.
    pub fn allocate_cell_id(&mut self) -> (allocated: Result<CellId, SessionError>)
        ensures
            match allocated {
                Ok(cell_id) => {
                    &&& old(self)@.has_free_id()
                    &&& cell_id@ == decimal(old(self)@.next_cell_id as nat)
                    &&& final(self)@ == old(self)@.after(SessionStep::Allocate)
                    &&& final(self)@.was_allocated(cell_id@)
                },
                Err(error) => {
                    &&& !old(self)@.has_free_id()
                    &&& error is CellIdSpaceExhausted
                    &&& final(self)@ == old(self)@
                },
            },
    {
        match self.ids.advance() {
            Some(number) => Ok(CellId::new(decimal_text(number))),
            None => Err(SessionError::CellIdSpaceExhausted),
        }
    }

    /// Admits a new cell and hands out its id.
    pub fn execute(&mut self) -> (admitted: Result<CellId, SessionError>)
        ensures
            match admitted {
                Ok(cell_id) => {
                    &&& !old(self)@.shutting_down
                    &&& old(self)@.has_free_id()
                    &&& cell_id@ == decimal(old(self)@.next_cell_id as nat)
                    &&& final(self)@ == old(self)@.after(SessionStep::Allocate)
                    &&& final(self)@.was_allocated(cell_id@)
                },
                Err(error) => {
                    &&& final(self)@ == old(self)@
                    &&& if old(self)@.shutting_down {
                        error is ShuttingDown
                    } else {
                        !old(self)@.has_free_id() && error is CellIdSpaceExhausted
                    }
                },
            },
    {
        if self.shutting_down {
            return Err(SessionError::ShuttingDown);
        }
        self.allocate_cell_id()
    }

    fn check_start(&self, cell_id: CellId) -> (checked: Result<CellId, SessionError>)
        ensures
            checked == if self@.can_start(cell_id@) {
                Ok::<CellId, SessionError>(cell_id)
            } else {
                Err(self@.refusal(cell_id))
            },
    {
        if self.shutting_down {
            return Err(SessionError::ShuttingDown);
        }
        if self.cells.contains_key(cell_id.text()) {
            return Err(SessionError::DuplicateCell(cell_id));
        }
        Ok(cell_id)
    }

    /// Decides whether a cell can be started, and hands out the stored values for it.
    pub fn start_cell(&self, cell_id: CellId) -> (pending: Result<PendingCell, SessionError>)
        ensures
            match pending {
                Ok(pending) => {
                    &&& self@.can_start(cell_id@)
                    &&& pending.cell_id == cell_id
                    &&& pending.stored_values@ == self@.stored_values
                },
                Err(error) => {
                    &&& !self@.can_start(cell_id@)
                    &&& error == self@.refusal(cell_id)
                },
            },
    {
        let cell_id = match self.check_start(cell_id) {
            Ok(cell_id) => cell_id,
            Err(error) => {
                return Err(error);
            },
        };
        let stored_values = self.stored_values.clone();
        assert(stored_values@ =~= self.stored_values@);
        Ok(PendingCell { cell_id, stored_values })
    }

    /// Registers a cell that was prepared, if it can still be started, and hands on what else was
    /// prepared with it. The result also says whether the cell's task is to be watched for failure.
    pub fn cell_prepared<T>(&mut self, cell_id: CellId, prepared: Result<(H, T), String>) -> (started:
        Result<(T, bool), SessionError>)
        ensures
            if !old(self)@.can_start(cell_id@) {
                &&& started == Err::<(T, bool), SessionError>(old(self)@.refusal(cell_id))
                &&& final(self)@ == old(self)@
            } else {
                match prepared {
                    Ok((handle, rest)) => {
                        &&& started == Ok::<(T, bool), SessionError>(
                            (rest, old(self)@.has_failure_handler),
                        )
                        &&& final(self)@ == old(self)@.after(
                            SessionStep::Register(cell_id@, handle),
                        )
                        &&& final(self)@.cells == old(self)@.cells.insert(cell_id@, handle)
                    },
                    Err(message) => {
                        &&& started == Err::<(T, bool), SessionError>(
                            SessionError::Runtime(message),
                        )
                        &&& final(self)@ == old(self)@
                    },
                }
            },
    {
        let cell_id = match self.check_start(cell_id) {
            Ok(cell_id) => cell_id,
            Err(error) => {
                return Err(error);
            },
        };
        match prepared {
            Ok((handle, rest)) => {
                self.cells.insert(cell_id.text().clone(), handle);
                Ok((rest, self.has_failure_handler))
            },
            Err(message) => Err(SessionError::Runtime(message)),
        }
    }

    fn find_cell(&self, cell_id: &CellId) -> (found: Result<&H, SessionError>)
        ensures
            self@.is_lookup(*cell_id, found),
    {
        match self.cells.get(cell_id.text()) {
            Some(handle) => Ok(handle),
            None => Err(SessionError::MissingCell(cell_id.clone())),
        }
    }

    /// The handle of the cell that is to be observed.
    pub fn begin_observe(&self, cell_id: &CellId) -> (found: Result<&H, SessionError>)
        ensures
            self@.is_lookup(*cell_id, found),
            found is Ok <==> self@.cells.contains_key(cell_id@),
            found is Ok ==> *found->Ok_0 == self@.cells[cell_id@],
            found is Err ==> found->Err_0 == SessionError::MissingCell(*cell_id),
    {
        self.find_cell(cell_id)
    }

    /// The handle of the cell that is to be ended.
    pub fn terminate(&self, cell_id: &CellId) -> (found: Result<&H, SessionError>)
        ensures
            self@.is_lookup(*cell_id, found),
            found is Ok <==> self@.cells.contains_key(cell_id@),
            found is Ok ==> *found->Ok_0 == self@.cells[cell_id@],
            found is Err ==> found->Err_0 == SessionError::MissingCell(*cell_id),
    {
        self.find_cell(cell_id)
    }

    /// Begins shutdown.
    pub fn begin_shutdown(&mut self)
        ensures
            final(self)@ == old(self)@.after(SessionStep::BeginShutdown),
    {
        self.shutting_down = true;
    }

    /// Whether shutdown has begun.
    pub fn is_shutting_down(&self) -> (begun: bool)
        ensures
            begun == self@.shutting_down,
    {
        self.shutting_down
    }

    /// Receives a cell's completion: where the cell took it, the values that it leaves are stored;
    /// otherwise nothing is, and the event is handed back.
    pub fn commit_completion<P>(
        &mut self,
        stored_value_writes: StringMap<Value>,
        verdict: CompletionVerdict<P>,
    ) -> (commit: CompletionCommit<P>)
        ensures
            match verdict {
                CompletionVerdict::Refused(event) => {
                    &&& commit == CompletionCommit::Rejected(event)
                    &&& final(self)@ == old(self)@
                },
                CompletionVerdict::Accepted => {
                    &&& commit is Committed
                    &&& final(self)@ == old(self)@.after(SessionStep::Commit(stored_value_writes@))
                },
            },
    {
        match verdict {
            CompletionVerdict::Refused(event) => CompletionCommit::Rejected(event),
            CompletionVerdict::Accepted => {
                self.stored_values.extend(stored_value_writes);
                CompletionCommit::Committed
            },
        }
    }

    /// Takes a cell that closed out of the registry. The result says whether it was there.
    pub fn closed(&mut self, cell_id: &CellId) -> (registry_removed: bool)
        ensures
            registry_removed == old(self)@.cells.contains_key(cell_id@),
            final(self)@ == old(self)@.after(SessionStep::Close(cell_id@)),
    {
        self.cells.remove(cell_id.text()).is_some()
    }
}

/// Begins to receive a cell's completion. That of a cancelled cell is rejected at once: neither
/// the cell nor the stored values are asked. Otherwise the event goes to the cell, whose verdict
/// `SessionRuntime::commit_completion` takes.
pub fn begin_commit<P>(cancelled: bool, event: CellEvent<P>) -> (begun: Result<
    CellEvent<P>,
    CompletionCommit<P>,
>)
    ensures
        begun == if cancelled {
            Err(CompletionCommit::Rejected(event))
        } else {
            Ok(event)
        },
{
    if cancelled {
        Err(CompletionCommit::Rejected(event))
    } else {
        Ok(event)
    }
}

/// What the failure handler is told of a cell whose task failed.
pub fn cell_task_failure(cell_id: &CellId, error_text: &str) -> (message: String)
    ensures
        message@ == "code-mode cell "@ + cell_id@ + " task failed: "@ + error_text@,
{
    concat3("code-mode cell ", cell_id.text().as_str(), " task failed: ").concat(error_text)
}

} // verus!
