use codex_session::callbacks::{
    notification_finished, report_task_failure, report_task_result, tool_finished,
    CallbackCompletion, CallbackDrain, CallbackOutcome, DrainEvent, DrainPhase, DrainStep,
    FailureReport, NotificationReport, RuntimeCommand, TaskJoinError,
};
use serde_json::Value;

fn failure(text: &str) -> TaskJoinError {
    TaskJoinError { cancelled: false, message: text.to_string() }
}

fn cancelled() -> TaskJoinError {
    TaskJoinError { cancelled: true, message: "task was cancelled".to_string() }
}

fn report(text: &str, has_handler: bool) -> FailureReport {
    FailureReport {
        warning: text.to_string(),
        to_handler: if has_handler { Some(text.to_string()) } else { None },
    }
}

#[test]
fn failures_reach_the_handler_where_there_is_one() {
    assert_eq!(report_task_failure(true, "broken".to_string()), report("broken", true));
    assert_eq!(report_task_failure(false, "broken".to_string()), report("broken", false));
}

#[test]
fn only_tasks_that_failed_are_reported() {
    assert_eq!(report_task_result(None, "tool", true), None);
    assert_eq!(report_task_result(Some(Ok(())), "tool", true), None);
    assert_eq!(report_task_result(Some(Err(cancelled())), "tool", true), None);
    assert_eq!(
        report_task_result(Some(Err(failure("panic"))), "tool", true),
        Some(report("code mode tool task failed: panic", true))
    );
}

#[test]
fn notifications_are_accounted_for() {
    assert_eq!(
        notification_finished(CallbackOutcome::Returned(Ok(())), true),
        NotificationReport::Delivered
    );
    assert_eq!(
        notification_finished(CallbackOutcome::Returned(Err("gone".to_string())), true),
        NotificationReport::Undelivered(
            "failed to deliver code mode notification: gone".to_string()
        )
    );
    assert_eq!(
        notification_finished(CallbackOutcome::Panicked, false),
        NotificationReport::Failed(report("code mode notification task panicked", false))
    );
}

#[test]
fn every_tool_call_is_answered() {
    let done = tool_finished(
        "call".to_string(),
        CallbackOutcome::Returned(Ok(Value::from(5))),
        true,
    );
    assert_eq!(done.command.command_kind(), "tool_response");
    assert_eq!(
        done.command,
        RuntimeCommand::ToolResponse { id: "call".to_string(), result: Value::from(5) }
    );
    assert_eq!(done.failure, None);

    let done = tool_finished(
        "call".to_string(),
        CallbackOutcome::Returned(Err("no".to_string())),
        true,
    );
    assert_eq!(done.command.command_kind(), "tool_error");
    assert_eq!(
        done.command,
        RuntimeCommand::ToolError { id: "call".to_string(), error_text: "no".to_string() }
    );
    assert_eq!(done.failure, None);

    let done = tool_finished("call".to_string(), CallbackOutcome::Panicked, true);
    assert_eq!(
        done.command,
        RuntimeCommand::ToolError {
            id: "call".to_string(),
            error_text: "code mode tool task panicked".to_string()
        }
    );
    assert_eq!(done.failure, Some(report("code mode tool task panicked", true)));
}

#[test]
fn drain_lets_notifications_end_before_it_cancels() {
    let (mut drain, cancel) = CallbackDrain::finish_callbacks(CallbackCompletion::DrainNotifications);
    assert!(!cancel);
    assert!(!drain.cancelled);
    let step = drain.drain_tasks(DrainEvent::Joined(Err(failure("one"))), true);
    assert_eq!(
        step,
        DrainStep {
            cancel: false,
            report: Some(report("code mode notification task failed: one", true))
        }
    );
    assert!(!drain.cancelled);
    let step = drain.drain_tasks(DrainEvent::Exhausted, true);
    assert_eq!(step, DrainStep { cancel: true, report: None });
    assert_eq!(drain, CallbackDrain { phase: DrainPhase::Tools, cancelled: true });
    let step = drain.drain_tasks(DrainEvent::Joined(Err(cancelled())), true);
    assert_eq!(step, DrainStep { cancel: false, report: None });
    let step = drain.drain_tasks(DrainEvent::Joined(Err(failure("two"))), false);
    assert_eq!(step.report, Some(report("code mode tool task failed: two", false)));
    let step = drain.drain_tasks(DrainEvent::Exhausted, true);
    assert_eq!(step, DrainStep { cancel: false, report: None });
    assert_eq!(drain, CallbackDrain { phase: DrainPhase::Finished, cancelled: true });
}

#[test]
fn drain_cancels_at_once_when_asked_to() {
    let (mut drain, cancel) = CallbackDrain::finish_callbacks(CallbackCompletion::Cancel);
    assert!(cancel);
    assert_eq!(drain, CallbackDrain { phase: DrainPhase::Notifications, cancelled: true });
    drain.drain_tasks(DrainEvent::Joined(Ok(())), false);
    assert_eq!(drain.phase, DrainPhase::Notifications);
    assert!(drain.drain_tasks(DrainEvent::Exhausted, false).cancel);
    assert_eq!(drain.phase, DrainPhase::Tools);
}
