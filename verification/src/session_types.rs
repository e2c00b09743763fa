//! Cells of a code-mode session, what they report, and what can go wrong with them.

use vstd::prelude::*;

verus! {

/// The id of a cell.
#[derive(Debug, PartialEq, Eq, Hash)]
pub struct CellId {
    value: String,
}

impl View for CellId {
    type V = Seq<char>;

    closed spec fn view(&self) -> Seq<char> {
        self.value@
    }
}

impl Clone for CellId {
    fn clone(&self) -> (copy: Self)
        ensures
            copy == *self,
    {
        CellId { value: self.value.clone() }
    }
}

impl CellId {
    /// The cell id that reads `value`.
    pub fn new(value: String) -> (id: Self)
        ensures
            id@ == value@,
    {
        CellId { value }
    }

    /// The text of the id.
    pub fn text(&self) -> (text: &String)
        ensures
            text@ == self@,
    {
        &self.value
    }
}

/// Something that a cell reports, with what it has to say.
#[derive(Debug, PartialEq, Eq)]
pub enum CellEvent<P> {
    /// The cell gave up control and goes on.
    Yielded(P),
    /// The cell waits for something.
    Pending(P),
    /// The cell ran to its end.
    Completed(P),
    /// The cell was ended.
    Terminated(P),
}

/// Why a cell did not do what was asked of it.
#[derive(Clone, Copy, Debug, PartialEq, Eq, Structural)]
pub enum CellError {
    /// It is already being observed.
    Busy,
    /// It is already being ended.
    AlreadyTerminating,
    /// It has ended.
    Closed,
}

/// Why a session did not do what was asked of it.
#[derive(Debug, PartialEq, Eq)]
pub enum SessionError {
    /// The session is shutting down.
    ShuttingDown,
    /// All cell ids are used up.
    CellIdSpaceExhausted,
    /// There is no such cell.
    MissingCell(CellId),
    /// There is such a cell already.
    DuplicateCell(CellId),
    /// The cell could not be prepared.
    Runtime(String),
    /// The cell is already being observed.
    BusyObserver(CellId),
    /// The cell is already being ended.
    AlreadyTerminating(CellId),
    /// The cell has ended.
    ClosedCell(CellId),
}

/// How a cell's completion was received.
#[derive(Debug, PartialEq, Eq)]
pub enum CompletionCommit<P> {
    /// It stands.
    Committed,
    /// It does not stand; here is the event again.
    Rejected(CellEvent<P>),
}

/// The class of an event, for the log.
pub open spec fn event_class<P>(event: CellEvent<P>) -> Seq<char> {
    match event {
        CellEvent::Yielded(_) => "yielded"@,
        CellEvent::Pending(_) => "pending"@,
        CellEvent::Completed(_) => "completed"@,
        CellEvent::Terminated(_) => "terminated"@,
    }
}

impl<P> CellEvent<P> {
    /// The class of the event, for the log.
    pub fn class(&self) -> (class: &'static str)
        ensures
            class@ == event_class(*self),
    {
        match self {
            CellEvent::Yielded(_) => "yielded",
            CellEvent::Pending(_) => "pending",
            CellEvent::Completed(_) => "completed",
            CellEvent::Terminated(_) => "terminated",
        }
    }
}

/// The class of an observation's result, for the log: that of its event, or `error`.
pub fn cell_event_result_class<P>(result: &Result<CellEvent<P>, SessionError>) -> (class: &'static str)
    ensures
        class@ == match result {
            Ok(event) => event_class(*event),
            Err(_) => "error"@,
        },
{
    match result {
        Ok(event) => event.class(),
        Err(_) => "error",
    }
}

/// The session's error for a cell's error.
pub open spec fn session_error(cell_id: CellId, error: CellError) -> SessionError {
    match error {
        CellError::Busy => SessionError::BusyObserver(cell_id),
        CellError::AlreadyTerminating => SessionError::AlreadyTerminating(cell_id),
        CellError::Closed => SessionError::ClosedCell(cell_id),
    }
}

/// Turns a cell's error into the session's, which names the cell.
pub fn actor_error(cell_id: &CellId, error: CellError) -> (converted: SessionError)
    ensures
        converted == session_error(*cell_id, error),
{
    match error {
        CellError::Busy => SessionError::BusyObserver(cell_id.clone()),
        CellError::AlreadyTerminating => SessionError::AlreadyTerminating(cell_id.clone()),
        CellError::Closed => SessionError::ClosedCell(cell_id.clone()),
    }
}

/// Turns what a cell answered into what the session answers: events pass unchanged.
pub fn map_actor_event<P>(cell_id: &CellId, event: Result<CellEvent<P>, CellError>) -> (converted:
    Result<CellEvent<P>, SessionError>)
    ensures
        converted == match event {
            Ok(event) => Ok::<CellEvent<P>, SessionError>(event),
            Err(error) => Err(session_error(*cell_id, error)),
        },
{
    match event {
        Ok(event) => Ok(event),
        Err(error) => Err(actor_error(cell_id, error)),
    }
}

/// Whole milliseconds as a `u64`, at most the largest one.
pub fn elapsed_millis(elapsed: u128) -> (millis: u64)
    ensures
        millis == if elapsed <= u64::MAX {
            elapsed as int
        } else {
            u64::MAX as int
        },
{
    if elapsed <= 0xffff_ffff_ffff_ffff {
        elapsed as u64
    } else {
        u64::MAX
    }
}

} // verus!
