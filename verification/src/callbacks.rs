//! What becomes of a cell's callbacks: notifications, tool calls, and the tasks that run them.

use crate::text::concat3;
use serde_json::Value;
use vstd::prelude::*;
use vstd::string::*;

verus! {

/// How the callbacks of a cell end.
#[derive(Clone, Copy, Debug, PartialEq, Eq, Structural)]
pub enum CallbackCompletion {
    /// Notifications run to their end, then tool calls are cancelled.
    DrainNotifications,
    /// Everything is cancelled.
    Cancel,
}

/// What a callback came to.
#[derive(Debug, PartialEq, Eq)]
pub enum CallbackOutcome<T> {
    /// It ran to its end.
    Returned(Result<T, String>),
    /// It panicked.
    Panicked,
}

/// Why a task could not be joined.
#[derive(Debug, PartialEq, Eq)]
pub struct TaskJoinError {
    /// The task was cancelled.
    pub cancelled: bool,
    /// The error as it is shown.
    pub message: String,
}

/// A failure that is to be made known.
#[derive(Debug, PartialEq, Eq)]
pub struct FailureReport {
    /// What is logged as a warning.
    pub warning: String,
    /// What the failure handler is told, where there is one.
    pub to_handler: Option<String>,
}

impl FailureReport {
    /// The report says `reason`, to the handler too where there is one.
    pub open spec fn says(self, reason: Seq<char>, has_handler: bool) -> bool {
        &&& self.warning@ == reason
        &&& match self.to_handler {
            Some(text) => has_handler && text@ == reason,
            None => !has_handler,
        }
    }
}

/// Makes a failure known: always as a warning, and to the failure handler where there is one.
pub fn report_task_failure(has_handler: bool, failure_reason: String) -> (report: FailureReport)
    ensures
        report.says(failure_reason@, has_handler),
{
    let to_handler = if has_handler {
        Some(failure_reason.clone())
    } else {
        None
    };
    FailureReport { warning: failure_reason, to_handler }
}

/// The reason that is given for a task that failed.
pub open spec fn task_failure_reason(description: Seq<char>, message: Seq<char>) -> Seq<char> {
    "code mode "@ + description + " task failed: "@ + message
}

/// The task failed, and not by being cancelled.
pub open spec fn task_failed(task_result: Option<Result<(), TaskJoinError>>) -> bool {
    match task_result {
        Some(Err(error)) => !error.cancelled,
        _ => false,
    }
}

/// Reports a task that failed. Tasks that ended well or were cancelled are passed over.
pub fn report_task_result(
    task_result: Option<Result<(), TaskJoinError>>,
    description: &str,
    has_handler: bool,
) -> (report: Option<FailureReport>)
    ensures
        report is Some <==> task_failed(task_result),
        report is Some ==> report->0.says(
            task_failure_reason(description@, task_result->0->Err_0.message@),
            has_handler,
        ),
{
    match task_result {
        Some(Err(error)) => if error.cancelled {
            None
        } else {
            let reason = concat3("code mode ", description, " task failed: ").concat(
                error.message.as_str(),
            );
            Some(report_task_failure(has_handler, reason))
        },
        _ => None,
    }
}

/// What follows from a notification.
#[derive(Debug, PartialEq, Eq)]
pub enum NotificationReport {
    /// Nothing: it was delivered.
    Delivered,
    /// It was refused: a warning.
    Undelivered(String),
    /// Its task panicked: a failure.
    Failed(FailureReport),
}

/// What follows from the end of a notification's task.
pub fn notification_finished(outcome: CallbackOutcome<()>, has_handler: bool) -> (report:
    NotificationReport)
    ensures
        match outcome {
            CallbackOutcome::Returned(Ok(_)) => report is Delivered,
            CallbackOutcome::Returned(Err(error)) => {
                &&& report is Undelivered
                &&& report->Undelivered_0@ == "failed to deliver code mode notification: "@
                    + error@
            },
            CallbackOutcome::Panicked => {
                &&& report is Failed
                &&& report->Failed_0.says("code mode notification task panicked"@, has_handler)
            },
        },
{
    match outcome {
        CallbackOutcome::Returned(Ok(_)) => NotificationReport::Delivered,
        CallbackOutcome::Returned(Err(error)) => NotificationReport::Undelivered(
            "failed to deliver code mode notification: ".to_owned().concat(error.as_str()),
        ),
        CallbackOutcome::Panicked => NotificationReport::Failed(
            report_task_failure(has_handler, "code mode notification task panicked".to_owned()),
        ),
    }
}

/// What the runtime of a cell is told about a tool call.
#[derive(Debug, PartialEq)]
pub enum RuntimeCommand {
    /// The call succeeded.
    ToolResponse {
        /// The call.
        id: String,
        /// What it returned.
        result: Value,
    },
    /// The call failed.
    ToolError {
        /// The call.
        id: String,
        /// Why.
        error_text: String,
    },
}

impl RuntimeCommand {
    /// The call that the command answers.
    pub open spec fn call_id(self) -> Seq<char> {
        match self {
            RuntimeCommand::ToolResponse { id, .. } => id@,
            RuntimeCommand::ToolError { id, .. } => id@,
        }
    }

    /// The kind of the command, for the log.
    pub fn command_kind(&self) -> (kind: &'static str)
        ensures
            kind@ == match self {
                RuntimeCommand::ToolResponse { .. } => "tool_response"@,
                RuntimeCommand::ToolError { .. } => "tool_error"@,
            },
    {
        match self {
            RuntimeCommand::ToolResponse { .. } => "tool_response",
            RuntimeCommand::ToolError { .. } => "tool_error",
        }
    }
}

/// What follows from a tool call: the command is sent first, then a failure is reported.
#[derive(Debug, PartialEq)]
pub struct ToolCompletion {
    /// What the runtime is told.
    pub command: RuntimeCommand,
    /// The failure to report.
    pub failure: Option<FailureReport>,
}

impl ToolCompletion {
    /// The completion answers the call `id` with `outcome`. A panic is told to the runtime as the
    /// call's error and is the only outcome that is reported as a failure.
    pub open spec fn answers(
        self,
        id: Seq<char>,
        outcome: CallbackOutcome<Value>,
        has_handler: bool,
    ) -> bool {
        &&& self.command.call_id() == id
        &&& match outcome {
            CallbackOutcome::Returned(Ok(result)) => {
                &&& self.command is ToolResponse
                &&& self.command->result == result
                &&& self.failure is None
            },
            CallbackOutcome::Returned(Err(error)) => {
                &&& self.command is ToolError
                &&& self.command->error_text@ == error@
                &&& self.failure is None
            },
            CallbackOutcome::Panicked => {
                &&& self.command is ToolError
                &&& self.command->error_text@ == "code mode tool task panicked"@
                &&& self.failure is Some
                &&& self.failure->0.says("code mode tool task panicked"@, has_handler)
            },
        }
    }
}

/// What follows from the end of the task of the tool call `id`.
pub fn tool_finished(id: String, outcome: CallbackOutcome<Value>, has_handler: bool) -> (completion:
    ToolCompletion)
    ensures
        completion.answers(id@, outcome, has_handler),
        match (outcome, completion.command) {
            (
                CallbackOutcome::Returned(Ok(result)),
                RuntimeCommand::ToolResponse { id: answered, result: given },
            ) => answered@ == id@ && given == result,
            (
                CallbackOutcome::Returned(Err(error)),
                RuntimeCommand::ToolError { id: answered, error_text },
            ) => answered@ == id@ && error_text@ == error@,
            (CallbackOutcome::Panicked, RuntimeCommand::ToolError { id: answered, error_text }) => {
                answered@ == id@ && error_text@ == "code mode tool task panicked"@
            },
            _ => false,
        },
{
    match outcome {
        CallbackOutcome::Returned(Ok(result)) => ToolCompletion {
            command: RuntimeCommand::ToolResponse { id, result },
            failure: None,
        },
        CallbackOutcome::Returned(Err(error_text)) => ToolCompletion {
            command: RuntimeCommand::ToolError { id, error_text },
            failure: None,
        },
        CallbackOutcome::Panicked => {
            let reason = "code mode tool task panicked".to_owned();
            ToolCompletion {
                command: RuntimeCommand::ToolError { id, error_text: reason.clone() },
                failure: Some(report_task_failure(has_handler, reason)),
            }
        },
    }
}

/// Where the drain of a cell's callbacks stands.
#[derive(Clone, Copy, Debug, PartialEq, Eq, Structural)]
pub enum DrainPhase {
    /// Notification tasks are being joined.
    Notifications,
    /// Tool tasks are being joined.
    Tools,
    /// All tasks have been joined.
    Finished,
}

/// The drain of a cell's callbacks.
#[derive(Clone, Copy, Debug, PartialEq, Eq, Structural)]
pub struct CallbackDrain {
    /// Which tasks are being joined.
    pub phase: DrainPhase,
    /// Whether the drain has cancelled the callbacks.
    pub cancelled: bool,
}

/// What joining the next task of the current phase gave.
#[derive(Debug, PartialEq, Eq)]
pub enum DrainEvent {
    /// A task ended.
    Joined(Result<(), TaskJoinError>),
    /// No task is left.
    Exhausted,
}

/// What is to be done before the next task is joined.
#[derive(Debug, PartialEq, Eq)]
pub struct DrainStep {
    /// Cancel the callbacks.
    pub cancel: bool,
    /// Report this failure.
    pub report: Option<FailureReport>,
}

/// What the tasks of a phase are called.
pub open spec fn phase_description(phase: DrainPhase) -> Seq<char> {
    match phase {
        DrainPhase::Notifications => "notification"@,
        _ => "tool"@,
    }
}

impl CallbackDrain {
    /// How a drain begins: notifications come first, cancelled only if everything is.
    pub open spec fn begun(completion: CallbackCompletion) -> CallbackDrain {
        CallbackDrain {
            phase: DrainPhase::Notifications,
            cancelled: completion is Cancel,
        }
    }

    /// How a drain goes on. Once no notification is left the callbacks are cancelled and the tool
    /// tasks are joined; once none of those is left the drain is over.
    pub open spec fn after(self, event: DrainEvent) -> CallbackDrain {
        match (self.phase, event) {
            (DrainPhase::Notifications, DrainEvent::Exhausted) => CallbackDrain {
                phase: DrainPhase::Tools,
                cancelled: true,
            },
            (DrainPhase::Tools, DrainEvent::Exhausted) => CallbackDrain {
                phase: DrainPhase::Finished,
                cancelled: self.cancelled,
            },
            _ => self,
        }
    }

    /// How a drain stands after `events`.
    pub open spec fn after_all(self, events: Seq<DrainEvent>) -> CallbackDrain
        decreases events.len(),
    {
        if events.len() == 0 {
            self
        } else {
            self.after_all(events.drop_last()).after(events.last())
        }
    }

    /// Begins a drain. The callbacks are to be cancelled at once where the result says so.
    pub fn finish_callbacks(completion: CallbackCompletion) -> (begun: (CallbackDrain, bool))
        ensures
            begun.0 == CallbackDrain::begun(completion),
            begun.1 == (completion is Cancel),
    {
        let cancel = match completion {
            CallbackCompletion::Cancel => true,
            CallbackCompletion::DrainNotifications => false,
        };
        (CallbackDrain { phase: DrainPhase::Notifications, cancelled: cancel }, cancel)
    }

    /// Takes one step of a drain: reports a task that failed, and cancels the callbacks when the
    /// last notification has ended.
    pub fn drain_tasks(&mut self, event: DrainEvent, has_handler: bool) -> (step: DrainStep)
        ensures
            *final(self) == old(self).after(event),
            step.cancel == (old(self).phase is Notifications && event is Exhausted),
            step.report is Some <==> {
                &&& !(old(self).phase is Finished)
                &&& event is Joined
                &&& task_failed(Some(event->Joined_0))
            },
            step.report is Some ==> step.report->0.says(
                task_failure_reason(
                    phase_description(old(self).phase),
                    event->Joined_0->Err_0.message@,
                ),
                has_handler,
            ),
    {
        match event {
            DrainEvent::Joined(task_result) => {
                let report = match self.phase {
                    DrainPhase::Notifications => report_task_result(
                        Some(task_result),
                        "notification",
                        has_handler,
                    ),
                    DrainPhase::Tools => report_task_result(Some(task_result), "tool", has_handler),
                    DrainPhase::Finished => None,
                };
                DrainStep { cancel: false, report }
            },
            DrainEvent::Exhausted => match self.phase {
                DrainPhase::Notifications => {
                    self.phase = DrainPhase::Tools;
                    self.cancelled = true;
                    DrainStep { cancel: true, report: None }
                },
                DrainPhase::Tools => {
                    self.phase = DrainPhase::Finished;
                    DrainStep { cancel: false, report: None }
                },
                DrainPhase::Finished => DrainStep { cancel: false, report: None },
            },
        }
    }
}

/// The number of times that joining found no task left.
pub open spec fn exhaustions(events: Seq<DrainEvent>) -> nat
    decreases events.len(),
{
    if events.len() == 0 {
        0
    } else {
        exhaustions(events.drop_last()) + if events.last() is Exhausted {
            1nat
        } else {
            0nat
        }
    }
}

/// Notifications are drained first, then tools, and the drain ends when both are exhausted,
/// whatever the tasks came to.
pub proof fn law_drain_order(completion: CallbackCompletion, events: Seq<DrainEvent>)
    ensures
        CallbackDrain::begun(completion).after_all(events).phase == if exhaustions(events) == 0 {
            DrainPhase::Notifications
        } else if exhaustions(events) == 1 {
            DrainPhase::Tools
        } else {
            DrainPhase::Finished
        },
    decreases events.len(),
{
    if events.len() > 0 {
        law_drain_order(completion, events.drop_last());
    }
}

/// Tool tasks are joined only after the callbacks were cancelled. Notifications are joined after
/// cancellation exactly where everything is cancelled.
pub proof fn law_drain_cancellation(completion: CallbackCompletion, events: Seq<DrainEvent>)
    ensures
        ({
            let drain = CallbackDrain::begun(completion).after_all(events);
            if drain.phase is Notifications {
                drain.cancelled == (completion is Cancel)
            } else {
                drain.cancelled
            }
        }),
    decreases events.len(),
{
    if events.len() > 0 {
        law_drain_cancellation(completion, events.drop_last());
    }
}

} // verus!
