use wetopla::application::{Action, TodoApp};
use wetopla::clock::Timestamp;
use wetopla::edit_session::{EditCommand, EditError, EditEvent, EditPhase, EditSession};
use wetopla::event_loop::Event;
use wetopla::keys::{KeyCode, KeyEvent, TerminalEvent};

fn tap(app: &mut TodoApp, code: KeyCode) -> Action {
    let zero = Timestamp { secs: 0, nanos: 0 };
    app.on_event_at(Event::Key(TerminalEvent::Key(KeyEvent::plain(code))), zero, zero).action
}

/// One project with the task "dishes", the focus on the tasks.
fn one_task() -> TodoApp {
    let mut app = TodoApp::new();
    for code in [KeyCode::Char('i'), KeyCode::Char('H'), KeyCode::Enter, KeyCode::Enter] {
        assert_eq!(tap(&mut app, code), Action::Nothing);
    }
    tap(&mut app, KeyCode::Char('i'));
    for c in "dishes".chars() {
        tap(&mut app, KeyCode::Char(c));
    }
    assert_eq!(tap(&mut app, KeyCode::Enter), Action::Edit(0));
    app
}

fn drained(app: &mut TodoApp, index: usize, pending: usize) -> EditSession {
    let (mut session, first) = EditSession::begin(app, index).unwrap();
    assert_eq!(first, EditCommand::CancelEvents);
    assert_eq!(session.phase(), EditPhase::Cancelling);
    assert_eq!(session.step(app, EditEvent::EventsCancelled), EditCommand::ReceiveEvent);
    for _ in 0..pending {
        assert_eq!(session.step(app, EditEvent::EventReceived), EditCommand::ReceiveEvent);
        assert_eq!(session.phase(), EditPhase::Draining);
    }
    assert_eq!(session.step(app, EditEvent::EventsClosed), EditCommand::RestoreTerminal);
    session
}

#[test]
fn no_session_starts_without_a_task() {
    let mut app = TodoApp::new();
    assert!(EditSession::begin(&mut app, 0).is_none());
    assert_eq!(app, TodoApp::new());
    let mut app = one_task();
    assert!(EditSession::begin(&mut app, 1).is_none());
    assert!(!app.take_redraw());
    assert!(EditSession::begin(&mut app, 0).is_some());
    assert!(app.take_redraw());
}

#[test]
fn a_task_without_content_goes_straight_to_the_editor() {
    let mut app = one_task();
    let mut session = drained(&mut app, 0, 0);
    assert_eq!(session.task_index(), 0);
    assert_eq!(session.step(&mut app, EditEvent::TerminalRestored(true)), EditCommand::RunEditor);
    assert_eq!(session.step(&mut app, EditEvent::EditorReturned(true)), EditCommand::ReadScratch);
    assert_eq!(
        session.step(&mut app, EditEvent::ScratchRead(Some("rinse\nrépéter ✓".to_string()))),
        EditCommand::RemoveScratch
    );
    assert_eq!(app.task_content(0), Some("rinse\nrépéter ✓".to_string()));
    assert_eq!(app.tasks().tasks()[0].content, "rinse\nrépéter ✓");
    assert_eq!(session.step(&mut app, EditEvent::ScratchRemoved(true)), EditCommand::PrepareTerminal);
    assert_eq!(session.step(&mut app, EditEvent::TerminalPrepared(true)), EditCommand::StartEvents);
    assert_eq!(session.step(&mut app, EditEvent::EventsStarted), EditCommand::Finish);
    assert_eq!(session.phase(), EditPhase::Finished);
    assert!(app.take_redraw());
}

#[test]
fn content_is_written_to_the_scratch_file_first() {
    let mut app = one_task();
    assert!(app.set_task_content(0, "old".to_string()));
    let mut session = drained(&mut app, 0, 3);
    assert_eq!(
        session.step(&mut app, EditEvent::TerminalRestored(true)),
        EditCommand::WriteScratch("old".to_string())
    );
    assert_eq!(session.phase(), EditPhase::WritingScratch);
    assert_eq!(session.step(&mut app, EditEvent::ScratchWritten(true)), EditCommand::RunEditor);
    assert_eq!(session.step(&mut app, EditEvent::EditorReturned(true)), EditCommand::ReadScratch);
    assert_eq!(session.step(&mut app, EditEvent::ScratchRead(None)), EditCommand::PrepareTerminal);
    assert_eq!(app.task_content(0), Some("old".to_string()));
    assert_eq!(session.step(&mut app, EditEvent::TerminalPrepared(true)), EditCommand::StartEvents);
    assert_eq!(session.step(&mut app, EditEvent::EventsStarted), EditCommand::Finish);
}

#[test]
fn draining_takes_out_what_is_left() {
    let mut app = one_task();
    let before = one_task();
    let session = drained(&mut app, 0, 25);
    assert_eq!(session.phase(), EditPhase::RestoringTerminal);
    assert!(app.take_redraw());
    assert_eq!(app, before);
}

#[test]
fn each_failure_ends_the_session() {
    let mut app = one_task();
    let mut session = drained(&mut app, 0, 0);
    assert_eq!(
        session.step(&mut app, EditEvent::TerminalRestored(false)),
        EditCommand::Abort(EditError::TerminalNotRestored)
    );
    assert_eq!(session.phase(), EditPhase::Failed);
    assert_eq!(session.step(&mut app, EditEvent::EventsStarted), EditCommand::Abort(EditError::OutOfTurn));

    app.set_task_content(0, "x".to_string());
    let mut session = drained(&mut app, 0, 0);
    session.step(&mut app, EditEvent::TerminalRestored(true));
    assert_eq!(
        session.step(&mut app, EditEvent::ScratchWritten(false)),
        EditCommand::Abort(EditError::ScratchNotWritten)
    );

    let mut session = drained(&mut app, 0, 0);
    session.step(&mut app, EditEvent::TerminalRestored(true));
    session.step(&mut app, EditEvent::ScratchWritten(true));
    assert_eq!(
        session.step(&mut app, EditEvent::EditorReturned(false)),
        EditCommand::Abort(EditError::EditorNotFound)
    );

    let mut session = drained(&mut app, 0, 0);
    session.step(&mut app, EditEvent::TerminalRestored(true));
    session.step(&mut app, EditEvent::ScratchWritten(true));
    session.step(&mut app, EditEvent::EditorReturned(true));
    session.step(&mut app, EditEvent::ScratchRead(Some("y".to_string())));
    assert_eq!(
        session.step(&mut app, EditEvent::ScratchRemoved(false)),
        EditCommand::Abort(EditError::ScratchNotRemoved)
    );

    let mut session = drained(&mut app, 0, 0);
    session.step(&mut app, EditEvent::TerminalRestored(true));
    session.step(&mut app, EditEvent::ScratchWritten(true));
    session.step(&mut app, EditEvent::EditorReturned(true));
    session.step(&mut app, EditEvent::ScratchRead(None));
    assert_eq!(
        session.step(&mut app, EditEvent::TerminalPrepared(false)),
        EditCommand::Abort(EditError::TerminalNotPrepared)
    );
}

#[test]
fn a_report_out_of_turn_ends_the_session() {
    let mut app = one_task();
    let (mut session, _) = EditSession::begin(&mut app, 0).unwrap();
    assert_eq!(session.step(&mut app, EditEvent::EventsClosed), EditCommand::Abort(EditError::OutOfTurn));
    assert_eq!(session.phase(), EditPhase::Failed);
    let mut session = drained(&mut app, 0, 0);
    assert_eq!(session.step(&mut app, EditEvent::EventReceived), EditCommand::Abort(EditError::OutOfTurn));
}

#[test]
fn content_for_a_task_that_is_gone_ends_the_session() {
    let mut app = one_task();
    let mut session = drained(&mut app, 0, 0);
    session.step(&mut app, EditEvent::TerminalRestored(true));
    session.step(&mut app, EditEvent::EditorReturned(true));
    tap(&mut app, KeyCode::Delete);
    tap(&mut app, KeyCode::Enter);
    tap(&mut app, KeyCode::Tab);
    tap(&mut app, KeyCode::Enter);
    assert_eq!(app.tasks().len(), 0);
    assert_eq!(
        session.step(&mut app, EditEvent::ScratchRead(Some("late".to_string()))),
        EditCommand::Abort(EditError::TaskMissing)
    );
}

#[test]
fn setting_content_of_a_missing_task_changes_nothing() {
    let mut app = one_task();
    let before = one_task();
    assert!(!app.set_task_content(1, "x".to_string()));
    assert_eq!(app, before);
    assert_eq!(app.task_content(1), None);
    assert_eq!(app.task_content(0), Some(String::new()));
}
