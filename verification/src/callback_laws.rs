//! What every end of a callback, and every step of a drain, comes to.

use crate::callbacks::{
    notification_finished, report_task_failure, report_task_result, tool_finished,
    CallbackCompletion, CallbackDrain, CallbackOutcome, DrainEvent, DrainStep,
    FailureReport, NotificationReport, RuntimeCommand, TaskJoinError, ToolCompletion,
};
use serde_json::Value;
use vstd::prelude::*;

verus! {

/// A failure is logged with its reason in any case. The failure handler is told the same, where
/// there is one.
pub proof fn law_failure_is_always_logged(
    has_handler: bool,
    reason: String,
    report: FailureReport,
)
    requires
        call_ensures(report_task_failure, (has_handler, reason), report),
    ensures
        report.warning@ == reason@,
        report.to_handler is Some <==> has_handler,
        report.to_handler is Some ==> report.to_handler->0@ == reason@,
{
}

/// Nothing is reported of a task that is not there, that ended well or that was cancelled.
pub proof fn law_other_tasks_are_not_reported(
    task_result: Option<Result<(), TaskJoinError>>,
    description: &str,
    has_handler: bool,
    report: Option<FailureReport>,
)
    requires
        call_ensures(report_task_result, (task_result, description, has_handler), report),
        match task_result {
            Some(Err(error)) => error.cancelled,
            _ => true,
        },
    ensures
        report is None,
{
}

/// A task that failed by itself is reported, with what it was and how it failed.
pub proof fn law_failed_task_is_reported(
    error: TaskJoinError,
    description: &str,
    has_handler: bool,
    report: Option<FailureReport>,
)
    requires
        call_ensures(
            report_task_result,
            (Some(Err(error)), description, has_handler),
            report,
        ),
        !error.cancelled,
    ensures
        report is Some,
        report->0.warning@ == "code mode "@ + description@ + " task failed: "@ + error.message@,
        report->0.to_handler is Some <==> has_handler,
        report->0.to_handler is Some ==> report->0.to_handler->0@
            == "code mode "@ + description@ + " task failed: "@ + error.message@,
{
}

/// Whether there is a failure handler decides nothing but whether it is told: the same tasks are
/// reported, with the same warning.
pub proof fn law_handler_has_no_part_in_the_warning(
    task_result: Option<Result<(), TaskJoinError>>,
    description: &str,
    with: Option<FailureReport>,
    without: Option<FailureReport>,
)
    requires
        call_ensures(report_task_result, (task_result, description, true), with),
        call_ensures(report_task_result, (task_result, description, false), without),
    ensures
        with is Some <==> without is Some,
        with is Some ==> with->0.warning@ == without->0.warning@,
        with is Some ==> with->0.to_handler is Some && without->0.to_handler is None,
{
}

/// A notification that was delivered is passed over in silence.
pub proof fn law_delivered_notification_is_not_reported(
    has_handler: bool,
    report: NotificationReport,
)
    requires
        call_ensures(
            notification_finished,
            (CallbackOutcome::Returned(Ok(())), has_handler),
            report,
        ),
    ensures
        report is Delivered,
{
}

/// A notification that was refused is a warning with the reason, and no failure.
pub proof fn law_refused_notification_is_a_warning(
    error: String,
    has_handler: bool,
    report: NotificationReport,
)
    requires
        call_ensures(
            notification_finished,
            (CallbackOutcome::Returned(Err(error)), has_handler),
            report,
        ),
    ensures
        report is Undelivered,
        report->Undelivered_0@ == "failed to deliver code mode notification: "@ + error@,
{
}

/// A notification that panicked is a failure.
pub proof fn law_panicked_notification_is_a_failure(
    has_handler: bool,
    report: NotificationReport,
)
    requires
        call_ensures(notification_finished, (CallbackOutcome::Panicked, has_handler), report),
    ensures
        report is Failed,
        report->Failed_0.warning@ == "code mode notification task panicked"@,
        report->Failed_0.to_handler is Some <==> has_handler,
        report->Failed_0.to_handler is Some ==> report->Failed_0.to_handler->0@
            == "code mode notification task panicked"@,
{
}

/// A tool call that succeeded is answered with its result under its own id, with a failure handler
/// or without, and nothing is reported.
pub proof fn law_tool_result_is_answered(
    id: String,
    result: Value,
    has_handler: bool,
    completion: ToolCompletion,
)
    requires
        call_ensures(
            tool_finished,
            (id, CallbackOutcome::Returned(Ok(result)), has_handler),
            completion,
        ),
    ensures
        match completion.command {
            RuntimeCommand::ToolResponse { id: answered, result: given } => {
                answered@ == id@ && given == result
            },
            RuntimeCommand::ToolError { .. } => false,
        },
        completion.failure is None,
{
}

/// A tool call that failed is answered with its error under its own id, with a failure handler or
/// without, and nothing is reported: the error is the tool's own.
pub proof fn law_tool_error_is_answered(
    id: String,
    error: String,
    has_handler: bool,
    completion: ToolCompletion,
)
    requires
        call_ensures(
            tool_finished,
            (id, CallbackOutcome::Returned(Err(error)), has_handler),
            completion,
        ),
    ensures
        match completion.command {
            RuntimeCommand::ToolResponse { .. } => false,
            RuntimeCommand::ToolError { id: answered, error_text } => {
                answered@ == id@ && error_text@ == error@
            },
        },
        completion.failure is None,
{
}

/// A tool call that panicked is answered with an error that says so, under its own id, and is
/// reported as a failure with the same words.
pub proof fn law_tool_panic_is_answered_and_reported(
    id: String,
    has_handler: bool,
    completion: ToolCompletion,
)
    requires
        call_ensures(tool_finished, (id, CallbackOutcome::Panicked, has_handler), completion),
    ensures
        match completion.command {
            RuntimeCommand::ToolResponse { .. } => false,
            RuntimeCommand::ToolError { id: answered, error_text } => {
                answered@ == id@ && error_text@ == "code mode tool task panicked"@
            },
        },
        completion.failure is Some,
        completion.failure->0.warning@ == "code mode tool task panicked"@,
        completion.failure->0.to_handler is Some <==> has_handler,
        completion.failure->0.to_handler is Some ==> completion.failure->0.to_handler->0@
            == "code mode tool task panicked"@,
{
}

/// The answer to a tool call does not depend on whether there is a failure handler.
pub proof fn law_handler_has_no_part_in_the_answer(
    id: String,
    outcome: CallbackOutcome<Value>,
    with: ToolCompletion,
    without: ToolCompletion,
)
    requires
        call_ensures(tool_finished, (id, outcome, true), with),
        call_ensures(tool_finished, (id, outcome, false), without),
    ensures
        match (with.command, without.command) {
            (
                RuntimeCommand::ToolResponse { id: a, result: x },
                RuntimeCommand::ToolResponse { id: b, result: y },
            ) => a@ == b@ && x == y,
            (
                RuntimeCommand::ToolError { id: a, error_text: x },
                RuntimeCommand::ToolError { id: b, error_text: y },
            ) => a@ == b@ && x@ == y@,
            _ => false,
        },
        with.failure is Some <==> without.failure is Some,
{
}

/// The log tells answers from errors.
pub proof fn law_command_kind_tells_answers_from_errors(
    command: RuntimeCommand,
    kind: &'static str,
)
    requires
        call_ensures(RuntimeCommand::command_kind, (&command,), kind),
    ensures
        command is ToolResponse ==> kind@ == "tool_response"@,
        command is ToolError ==> kind@ == "tool_error"@,
{
}

/// A drain begins with the notifications. The callbacks are cancelled at once exactly where
/// everything is to be cancelled.
pub proof fn law_drain_begins_with_notifications(
    completion: CallbackCompletion,
    drain: CallbackDrain,
    cancel: bool,
)
    requires
        call_ensures(CallbackDrain::finish_callbacks, (completion,), (drain, cancel)),
    ensures
        drain.phase is Notifications,
        cancel <==> completion is Cancel,
        drain.cancelled == cancel,
{
}

/// A task that ended moves no drain: the next one of the same kind is joined, and nothing is
/// cancelled on its account.
pub proof fn law_joined_task_moves_no_drain(
    drain: &mut CallbackDrain,
    has_handler: bool,
    step: DrainStep,
    task_result: Result<(), TaskJoinError>,
)
    requires
        call_ensures(
            CallbackDrain::drain_tasks,
            (drain, DrainEvent::Joined(task_result), has_handler),
            step,
        ),
    ensures
        *final(drain) == *old(drain),
        !step.cancel,
{
}

/// Once no notification is left the callbacks are cancelled, and the tools are joined next.
pub proof fn law_tools_follow_notifications(
    drain: &mut CallbackDrain,
    has_handler: bool,
    step: DrainStep,
)
    requires
        call_ensures(CallbackDrain::drain_tasks, (drain, DrainEvent::Exhausted, has_handler), step),
        old(drain).phase is Notifications,
    ensures
        final(drain).phase is Tools,
        final(drain).cancelled,
        step.cancel,
        step.report is None,
{
}

/// Once no tool is left the drain is over, and nothing is cancelled any more.
pub proof fn law_drain_ends_with_the_tools(
    drain: &mut CallbackDrain,
    has_handler: bool,
    step: DrainStep,
)
    requires
        call_ensures(CallbackDrain::drain_tasks, (drain, DrainEvent::Exhausted, has_handler), step),
        !(old(drain).phase is Notifications),
    ensures
        final(drain).phase is Finished,
        final(drain).cancelled == old(drain).cancelled,
        !step.cancel,
        step.report is None,
{
}

/// While notifications are joined, one that failed by itself is reported as such.
pub proof fn law_drained_notification_failure_is_reported(
    drain: &mut CallbackDrain,
    has_handler: bool,
    step: DrainStep,
    error: TaskJoinError,
)
    requires
        call_ensures(
            CallbackDrain::drain_tasks,
            (drain, DrainEvent::Joined(Err(error)), has_handler),
            step,
        ),
        old(drain).phase is Notifications,
        !error.cancelled,
    ensures
        step.report is Some,
        step.report->0.warning@
            == "code mode "@ + "notification"@ + " task failed: "@ + error.message@,
        step.report->0.to_handler is Some <==> has_handler,
        step.report->0.to_handler is Some ==> step.report->0.to_handler->0@
            == "code mode "@ + "notification"@ + " task failed: "@ + error.message@,
{
}

/// While tools are joined, one that failed by itself is reported as such.
pub proof fn law_drained_tool_failure_is_reported(
    drain: &mut CallbackDrain,
    has_handler: bool,
    step: DrainStep,
    error: TaskJoinError,
)
    requires
        call_ensures(
            CallbackDrain::drain_tasks,
            (drain, DrainEvent::Joined(Err(error)), has_handler),
            step,
        ),
        old(drain).phase is Tools,
        !error.cancelled,
    ensures
        step.report is Some,
        step.report->0.warning@ == "code mode "@ + "tool"@ + " task failed: "@ + error.message@,
        step.report->0.to_handler is Some <==> has_handler,
        step.report->0.to_handler is Some ==> step.report->0.to_handler->0@
            == "code mode "@ + "tool"@ + " task failed: "@ + error.message@,
{
}

/// A drained task that ended well or was cancelled is not reported.
pub proof fn law_other_drained_tasks_are_not_reported(
    drain: &mut CallbackDrain,
    has_handler: bool,
    step: DrainStep,
    task_result: Result<(), TaskJoinError>,
)
    requires
        call_ensures(
            CallbackDrain::drain_tasks,
            (drain, DrainEvent::Joined(task_result), has_handler),
            step,
        ),
        task_result is Err ==> task_result->Err_0.cancelled,
    ensures
        step.report is None,
{
}

/// A drain counts as cancelled exactly from the step on that says to cancel, if not from its
/// beginning.
pub proof fn law_drain_is_cancelled_when_it_says_so(
    drain: &mut CallbackDrain,
    has_handler: bool,
    step: DrainStep,
    event: DrainEvent,
)
    requires
        call_ensures(CallbackDrain::drain_tasks, (drain, event, has_handler), step),
    ensures
        final(drain).cancelled <==> old(drain).cancelled || step.cancel,
{
}

} // verus!
