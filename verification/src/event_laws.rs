//! What is logged and told of events, errors and time.

use crate::guardian_types::ReviewerError;
use crate::session::cell_task_failure;
use crate::session_types::{
    actor_error, cell_event_result_class, elapsed_millis, map_actor_event, CellError, CellEvent,
    CellId, SessionError,
};
use crate::tool_error::FunctionCallError;
use vstd::prelude::*;

verus! {

/// The log has one word for each kind of event.
pub proof fn law_event_class_names_the_kind<P>(
    event: CellEvent<P>,
    class: &'static str,
)
    requires
        call_ensures(CellEvent::<P>::class, (&event,), class),
    ensures
        event is Yielded ==> class@ == "yielded"@,
        event is Pending ==> class@ == "pending"@,
        event is Completed ==> class@ == "completed"@,
        event is Terminated ==> class@ == "terminated"@,
{
}

/// The log has the word of its event for an observation that succeeded, and `error` for any other.
pub proof fn law_result_class_names_the_event<P>(
    result: Result<CellEvent<P>, SessionError>,
    class: &'static str,
    of_event: &'static str,
)
    requires
        call_ensures(cell_event_result_class::<P>, (&result,), class),
        result is Ok ==> call_ensures(CellEvent::<P>::class, (&result->Ok_0,), of_event),
    ensures
        result is Ok ==> class@ == of_event@,
        result is Err ==> class@ == "error"@,
{
}

/// A cell's error becomes the session's error of the same kind, about that cell.
pub proof fn law_cell_error_names_the_cell(
    cell_id: CellId,
    error: CellError,
    converted: SessionError,
)
    requires
        call_ensures(actor_error, (&cell_id, error), converted),
    ensures
        error is Busy ==> converted == SessionError::BusyObserver(cell_id),
        error is AlreadyTerminating ==> converted == SessionError::AlreadyTerminating(cell_id),
        error is Closed ==> converted == SessionError::ClosedCell(cell_id),
{
}

/// What a cell reports is what the session reports.
pub proof fn law_events_pass_unchanged<P>(
    cell_id: CellId,
    event: CellEvent<P>,
    converted: Result<CellEvent<P>, SessionError>,
)
    requires
        call_ensures(
            map_actor_event::<P>,
            (&cell_id, Ok::<CellEvent<P>, CellError>(event)),
            converted,
        ),
    ensures
        converted == Ok::<CellEvent<P>, SessionError>(event),
{
}

/// An observation that failed in the cell fails in the session, with the cell's error about that
/// cell.
pub proof fn law_failed_observation_names_the_cell<P>(
    cell_id: CellId,
    error: CellError,
    converted: Result<CellEvent<P>, SessionError>,
)
    requires
        call_ensures(
            map_actor_event::<P>,
            (&cell_id, Err::<CellEvent<P>, CellError>(error)),
            converted,
        ),
    ensures
        converted is Err,
        error is Busy ==> converted->Err_0 == SessionError::BusyObserver(cell_id),
        error is AlreadyTerminating ==> converted->Err_0 == SessionError::AlreadyTerminating(
            cell_id,
        ),
        error is Closed ==> converted->Err_0 == SessionError::ClosedCell(cell_id),
{
}

/// Milliseconds are told exactly as long as they fit, and as the largest number from there on.
pub proof fn law_milliseconds_are_exact_until_they_are_capped(
    elapsed: u128,
    millis: u64,
)
    requires
        call_ensures(elapsed_millis, (elapsed,), millis),
    ensures
        elapsed <= u64::MAX ==> millis == elapsed,
        elapsed > u64::MAX ==> millis == u64::MAX,
{
}

/// More time never counts as less.
pub proof fn law_milliseconds_do_not_run_backwards(
    shorter: u128,
    longer: u128,
    a: u64,
    b: u64,
)
    requires
        shorter <= longer,
        call_ensures(elapsed_millis, (shorter,), a),
        call_ensures(elapsed_millis, (longer,), b),
    ensures
        a <= b,
{
}

/// A cell id reads as it was written.
pub proof fn law_cell_id_reads_as_written(
    value: String,
    cell_id: CellId,
    text: &String,
)
    requires
        call_ensures(CellId::new, (value,), cell_id),
        call_ensures(CellId::text, (&cell_id,), text),
    ensures
        text@ == value@,
{
}

/// The failure handler is told which cell's task failed, and how.
pub proof fn law_cell_failure_names_the_cell(
    cell_id: CellId,
    error_text: &str,
    message: String,
)
    requires
        call_ensures(cell_task_failure, (&cell_id, error_text), message),
    ensures
        message@ == "code-mode cell "@ + cell_id@ + " task failed: "@ + error_text@,
{
}

/// A tool's error reads as its message, and is marked where the turn cannot go on.
pub proof fn law_only_fatal_errors_are_marked(
    error: FunctionCallError,
    text: String,
)
    requires
        call_ensures(FunctionCallError::message, (&error,), text),
    ensures
        match error {
            FunctionCallError::RespondToModel(message) => text@ == message@,
            FunctionCallError::MalformedArguments(message) => text@ == message@,
            FunctionCallError::Fatal(message) => text@ == "Fatal error: "@ + message@,
        },
{
}

/// The error of a choice that failed names the provider, and the model where one is missing.
pub proof fn law_review_error_names_what_is_missing(
    error: ReviewerError,
    subject: &str,
    text: String,
)
    requires
        call_ensures(ReviewerError::message, (&error, subject), text),
    ensures
        match error {
            ReviewerError::ProviderNotConfigured { provider_id } => {
                text@ == subject@ + " provider `"@ + provider_id@ + "` is not configured"@
            },
            ReviewerError::ProviderNotTrusted { provider_id } => {
                text@ == subject@ + " provider `"@ + provider_id@ + "` is not trusted"@
            },
            ReviewerError::ModelNotAvailable { model, provider_id } => {
                text@ == subject@ + " model `"@ + model@ + "` is not available for provider `"@
                    + provider_id@ + "`"@
            },
        },
{
}

} // verus!
