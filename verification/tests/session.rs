use codex_session::session::{
    begin_commit, cell_task_failure, CompletionVerdict, SessionRuntime,
};
use codex_session::session_types::{
    actor_error, cell_event_result_class, elapsed_millis, map_actor_event, CellError, CellEvent,
    CellId, CompletionCommit, SessionError,
};
use codex_session::string_map::StringMap;
use serde_json::Value;

fn id(text: &str) -> CellId {
    CellId::new(text.to_string())
}

fn start(session: &mut SessionRuntime<u32>, handle: u32) -> CellId {
    let cell_id = session.execute().unwrap();
    let pending = session.start_cell(cell_id).ok().unwrap();
    session.cell_prepared(pending.cell_id.clone(), Ok((handle, ()))).unwrap();
    pending.cell_id
}

#[test]
fn cell_ids_count_up_from_one() {
    let mut session: SessionRuntime<u32> = SessionRuntime::new();
    for n in 1..=120u32 {
        let cell_id = session.allocate_cell_id().unwrap();
        assert_eq!(cell_id.text(), &n.to_string());
    }
}

#[test]
fn cells_are_found_until_they_close() {
    let mut session = SessionRuntime::new();
    let first = start(&mut session, 10);
    let second = start(&mut session, 20);
    assert_ne!(first, second);
    assert_eq!(session.begin_observe(&first), Ok(&10));
    assert_eq!(session.terminate(&second), Ok(&20));
    assert!(session.closed(&first));
    assert_eq!(session.begin_observe(&first), Err(SessionError::MissingCell(id("1"))));
    assert_eq!(session.terminate(&first), Err(SessionError::MissingCell(id("1"))));
    assert_eq!(session.begin_observe(&second), Ok(&20));
    assert!(!session.closed(&first));
}

#[test]
fn duplicate_cell_is_refused() {
    let mut session = SessionRuntime::new();
    let first = start(&mut session, 10);
    assert_eq!(
        session.start_cell(first.clone()).err(),
        Some(SessionError::DuplicateCell(first))
    );
}

#[test]
fn prepared_cell_is_registered_only_if_it_can_still_be_started() {
    let mut session = SessionRuntime::new();
    let first = start(&mut session, 10);
    assert_eq!(
        session.cell_prepared(first.clone(), Ok((11, ()))),
        Err(SessionError::DuplicateCell(first.clone()))
    );
    assert_eq!(session.begin_observe(&first), Ok(&10));
    let second = session.execute().unwrap();
    session.begin_shutdown();
    assert_eq!(
        session.cell_prepared(second.clone(), Ok((20, ()))),
        Err(SessionError::ShuttingDown)
    );
    assert_eq!(
        session.cell_prepared::<()>(second.clone(), Err("no engine".to_string())),
        Err(SessionError::ShuttingDown)
    );
    assert_eq!(
        session.begin_observe(&second),
        Err(SessionError::MissingCell(second.clone()))
    );
}

#[test]
fn admitted_cell_can_start_after_others_came_and_went() {
    let mut session = SessionRuntime::new();
    let waiting = session.execute().unwrap();
    let other = start(&mut session, 20);
    session.closed(&other);
    start(&mut session, 30);
    assert!(session.start_cell(waiting.clone()).is_ok());
    assert_eq!(session.cell_prepared(waiting.clone(), Ok((10, ()))), Ok(((), false)));
    assert_eq!(session.begin_observe(&waiting), Ok(&10));
}

#[test]
fn committed_write_stays_until_its_key_is_written_again() {
    let mut session = SessionRuntime::new();
    let mut writes = StringMap::new();
    writes.insert("kept".to_string(), Value::from(1));
    session.commit_completion::<u8>(writes, CompletionVerdict::Accepted);
    let cell = start(&mut session, 10);
    session.closed(&cell);
    let mut writes = StringMap::new();
    writes.insert("other".to_string(), Value::from(2));
    session.commit_completion::<u8>(writes, CompletionVerdict::Accepted);
    let next = session.execute().unwrap();
    let values = session.start_cell(next).ok().unwrap().stored_values;
    assert_eq!(values.get(&"kept".to_string()), Some(&Value::from(1)));
}

#[test]
fn cell_that_cannot_be_prepared_is_not_registered() {
    let mut session: SessionRuntime<u32> = SessionRuntime::new();
    let cell_id = session.execute().unwrap();
    let prepared = session.cell_prepared::<()>(cell_id.clone(), Err("no engine".to_string()));
    assert_eq!(prepared, Err(SessionError::Runtime("no engine".to_string())));
    assert_eq!(session.begin_observe(&cell_id), Err(SessionError::MissingCell(cell_id.clone())));
}

#[test]
fn tasks_are_watched_where_there_is_a_handler() {
    let mut session: SessionRuntime<u32> = SessionRuntime::new_with_task_failure_handler(true);
    let cell_id = session.execute().unwrap();
    assert_eq!(session.cell_prepared(cell_id, Ok((1, 'x'))), Ok(('x', true)));
    let mut session: SessionRuntime<u32> = SessionRuntime::new();
    let cell_id = session.execute().unwrap();
    assert_eq!(session.cell_prepared(cell_id, Ok((1, 'x'))), Ok(('x', false)));
}

#[test]
fn shutdown_admits_no_cell() {
    let mut session = SessionRuntime::new();
    let first = start(&mut session, 10);
    let second = session.execute().unwrap();
    assert!(!session.is_shutting_down());
    session.begin_shutdown();
    assert!(session.is_shutting_down());
    assert_eq!(session.execute(), Err(SessionError::ShuttingDown));
    assert_eq!(session.start_cell(second).err(), Some(SessionError::ShuttingDown));
    assert_eq!(session.start_cell(first.clone()).err(), Some(SessionError::ShuttingDown));
    assert_eq!(session.begin_observe(&first), Ok(&10));
    session.begin_shutdown();
    assert!(session.is_shutting_down());
}

#[test]
fn committed_values_reach_later_cells() {
    let mut session: SessionRuntime<u32> = SessionRuntime::new();
    let mut writes = StringMap::new();
    writes.insert("a".to_string(), Value::from(1));
    writes.insert("b".to_string(), Value::from("text"));
    let commit = session.commit_completion::<u8>(writes, CompletionVerdict::Accepted);
    assert_eq!(commit, CompletionCommit::Committed);

    let mut writes = StringMap::new();
    writes.insert("a".to_string(), Value::from(vec![2, 3]));
    session.commit_completion::<u8>(writes, CompletionVerdict::Accepted);

    let cell_id = session.execute().unwrap();
    let values = session.start_cell(cell_id).ok().unwrap().stored_values;
    assert_eq!(values.get(&"a".to_string()), Some(&Value::from(vec![2, 3])));
    assert_eq!(values.get(&"b".to_string()), Some(&Value::from("text")));
    assert_eq!(values.get(&"c".to_string()), None);
}

#[test]
fn rejected_completions_leave_the_values_alone() {
    let mut session: SessionRuntime<u32> = SessionRuntime::new();
    let mut writes = StringMap::new();
    writes.insert("a".to_string(), Value::from(1));
    assert_eq!(
        session.commit_completion(writes, CompletionVerdict::Refused(CellEvent::Completed(7))),
        CompletionCommit::Rejected(CellEvent::Completed(7))
    );
    let cell_id = session.execute().unwrap();
    let values = session.start_cell(cell_id).ok().unwrap().stored_values;
    assert!(!values.contains_key(&"a".to_string()));
}

#[test]
fn completion_of_a_cancelled_cell_is_rejected_at_once() {
    assert_eq!(
        begin_commit(true, CellEvent::Completed(7)),
        Err(CompletionCommit::Rejected(CellEvent::Completed(7)))
    );
    assert_eq!(begin_commit(false, CellEvent::Completed(7)), Ok(CellEvent::Completed(7)));
}

#[test]
fn failed_task_message_names_the_cell() {
    assert_eq!(cell_task_failure(&id("12"), "boom"), "code-mode cell 12 task failed: boom");
}

#[test]
fn cell_errors_name_the_cell() {
    let cell = id("3");
    assert_eq!(actor_error(&cell, CellError::Busy), SessionError::BusyObserver(id("3")));
    assert_eq!(
        actor_error(&cell, CellError::AlreadyTerminating),
        SessionError::AlreadyTerminating(id("3"))
    );
    assert_eq!(actor_error(&cell, CellError::Closed), SessionError::ClosedCell(id("3")));
    assert_eq!(
        map_actor_event(&cell, Ok(CellEvent::Pending(1))),
        Ok(CellEvent::Pending(1))
    );
    assert_eq!(
        map_actor_event::<u8>(&cell, Err(CellError::Closed)),
        Err(SessionError::ClosedCell(id("3")))
    );
}

#[test]
fn results_are_classified() {
    assert_eq!(cell_event_result_class(&Ok(CellEvent::Yielded(0))), "yielded");
    assert_eq!(cell_event_result_class(&Ok(CellEvent::Pending(0))), "pending");
    assert_eq!(cell_event_result_class(&Ok(CellEvent::Completed(0))), "completed");
    assert_eq!(cell_event_result_class(&Ok(CellEvent::Terminated(0))), "terminated");
    assert_eq!(cell_event_result_class::<u8>(&Err(SessionError::ShuttingDown)), "error");
}

#[test]
fn elapsed_time_saturates() {
    assert_eq!(elapsed_millis(0), 0);
    assert_eq!(elapsed_millis(1234), 1234);
    assert_eq!(elapsed_millis(u64::MAX as u128), u64::MAX);
    assert_eq!(elapsed_millis(u64::MAX as u128 + 1), u64::MAX);
    assert_eq!(elapsed_millis(u128::MAX), u64::MAX);
}
