//! Handing the terminal to an editor and taking it back.
//!
//! While the editor runs, the application is suspended: its source of events
//! is stopped and drained, the terminal is put back as it was found, and the
//! editor works on a scratch file that holds the task's content. Afterwards
//! the content is read back, the terminal is prepared again and a new source
//! of events is started. The session says, step by step, what the caller has
//! to do, and takes the outcome of each step.

use vstd::prelude::*;
use crate::application::{AppView, TodoApp};

verus! {

/// Where a session stands: what it waits for.
#[derive(Clone, Copy, Debug, PartialEq, Eq, Structural)]
pub enum EditPhase {
    /// For the signal to stop to reach the source of events.
    Cancelling,
    /// For the channel of events to close.
    Draining,
    /// For the terminal to be put back as it was found.
    RestoringTerminal,
    /// For the task's content to be written to the scratch file.
    WritingScratch,
    /// For the editor to exit.
    RunningEditor,
    /// For the scratch file to be read.
    ReadingScratch,
    /// For the scratch file to be removed.
    RemovingScratch,
    /// For the terminal to be prepared again.
    PreparingTerminal,
    /// For a new source of events to start.
    StartingEvents,
    /// For nothing: the session is over.
    Finished,
    /// For nothing: the session has failed.
    Failed,
}

/// Why a session failed. After any of these the application cannot go on.
#[derive(Clone, Copy, Debug, PartialEq, Eq, Structural)]
pub enum EditError {
    TerminalNotRestored,
    ScratchNotWritten,
    EditorNotFound,
    ScratchNotRemoved,
    TerminalNotPrepared,
    /// The task was gone when its new content came back.
    TaskMissing,
    /// The caller reported something that the session did not wait for.
    OutOfTurn,
}

/// What is to be said of a failure.
pub open spec fn message_for(error: EditError) -> Seq<char> {
    match error {
        EditError::TerminalNotRestored =>
            "Error occured when trying to restore the previous state of the terminal!"@,
        EditError::ScratchNotWritten =>
            "Unexpected error when trying to write to the file that is used for editing"@,
        EditError::EditorNotFound => "Could not find editor! Please install neovim!"@,
        EditError::ScratchNotRemoved =>
            "Unexpected error when trying to delete file that is used for editing"@,
        EditError::TerminalNotPrepared =>
            "Error occured when trying to prepare the terminal for the application!"@,
        EditError::TaskMissing => "The task that was edited is gone"@,
        EditError::OutOfTurn => "The steps of an edit came out of their order"@,
    }
}

impl EditError {
    /// What is to be said of the failure.
    pub fn message(&self) -> (text: &'static str)
        ensures
            text@ == message_for(*self),
    {
        match self {
            EditError::TerminalNotRestored =>
                "Error occured when trying to restore the previous state of the terminal!",
            EditError::ScratchNotWritten =>
                "Unexpected error when trying to write to the file that is used for editing",
            EditError::EditorNotFound => "Could not find editor! Please install neovim!",
            EditError::ScratchNotRemoved =>
                "Unexpected error when trying to delete file that is used for editing",
            EditError::TerminalNotPrepared =>
                "Error occured when trying to prepare the terminal for the application!",
            EditError::TaskMissing => "The task that was edited is gone",
            EditError::OutOfTurn => "The steps of an edit came out of their order",
        }
    }
}

/// What the caller has to do next.
#[derive(Debug, PartialEq, Eq)]
pub enum EditCommand {
    /// Signal the source of events to stop.
    CancelEvents,
    /// Take the next event from the channel, or learn that it is closed.
    ReceiveEvent,
    /// Put the terminal back as it was found.
    RestoreTerminal,
    /// Write this text to the scratch file.
    WriteScratch(String),
    /// Run the editor on the scratch file and wait for it to exit.
    RunEditor,
    /// Read the scratch file.
    ReadScratch,
    /// Remove the scratch file.
    RemoveScratch,
    /// Prepare the terminal for the application.
    PrepareTerminal,
    /// Start a new source of events.
    StartEvents,
    /// Nothing more: the session is over.
    Finish,
    /// Give up.
    Abort(EditError),
}

/// What a command holds.
pub enum EditCommandView {
    CancelEvents,
    ReceiveEvent,
    RestoreTerminal,
    WriteScratch(Seq<char>),
    RunEditor,
    ReadScratch,
    RemoveScratch,
    PrepareTerminal,
    StartEvents,
    Finish,
    Abort(EditError),
}

impl View for EditCommand {
    type V = EditCommandView;

    open spec fn view(&self) -> EditCommandView {
        match self {
            EditCommand::CancelEvents => EditCommandView::CancelEvents,
            EditCommand::ReceiveEvent => EditCommandView::ReceiveEvent,
            EditCommand::RestoreTerminal => EditCommandView::RestoreTerminal,
            EditCommand::WriteScratch(text) => EditCommandView::WriteScratch(text@),
            EditCommand::RunEditor => EditCommandView::RunEditor,
            EditCommand::ReadScratch => EditCommandView::ReadScratch,
            EditCommand::RemoveScratch => EditCommandView::RemoveScratch,
            EditCommand::PrepareTerminal => EditCommandView::PrepareTerminal,
            EditCommand::StartEvents => EditCommandView::StartEvents,
            EditCommand::Finish => EditCommandView::Finish,
            EditCommand::Abort(error) => EditCommandView::Abort(*error),
        }
    }
}

/// What the caller reports back. A flag says whether the step went well.
#[derive(Debug, PartialEq, Eq)]
pub enum EditEvent {
    /// The signal to stop was given.
    EventsCancelled,
    /// The channel handed out an event that was still in it.
    EventReceived,
    /// The channel is closed and empty.
    EventsClosed,
    TerminalRestored(bool),
    ScratchWritten(bool),
    /// The editor was run and has exited, or could not be found.
    EditorReturned(bool),
    /// What the scratch file held; `None` where it could not be read.
    ScratchRead(Option<String>),
    ScratchRemoved(bool),
    TerminalPrepared(bool),
    EventsStarted,
}

/// What a report holds.
pub enum EditEventView {
    EventsCancelled,
    EventReceived,
    EventsClosed,
    TerminalRestored(bool),
    ScratchWritten(bool),
    EditorReturned(bool),
    ScratchRead(Option<Seq<char>>),
    ScratchRemoved(bool),
    TerminalPrepared(bool),
    EventsStarted,
}

impl View for EditEvent {
    type V = EditEventView;

    open spec fn view(&self) -> EditEventView {
        match self {
            EditEvent::EventsCancelled => EditEventView::EventsCancelled,
            EditEvent::EventReceived => EditEventView::EventReceived,
            EditEvent::EventsClosed => EditEventView::EventsClosed,
            EditEvent::TerminalRestored(ok) => EditEventView::TerminalRestored(*ok),
            EditEvent::ScratchWritten(ok) => EditEventView::ScratchWritten(*ok),
            EditEvent::EditorReturned(ok) => EditEventView::EditorReturned(*ok),
            EditEvent::ScratchRead(Some(text)) => EditEventView::ScratchRead(Some(text@)),
            EditEvent::ScratchRead(None) => EditEventView::ScratchRead(None),
            EditEvent::ScratchRemoved(ok) => EditEventView::ScratchRemoved(*ok),
            EditEvent::TerminalPrepared(ok) => EditEventView::TerminalPrepared(*ok),
            EditEvent::EventsStarted => EditEventView::EventsStarted,
        }
    }
}

/// One hand-over of the terminal, for one task of the project under the
/// cursor.
#[derive(Debug, PartialEq, Eq)]
pub struct EditSession {
    task_index: usize,
    phase: EditPhase,
}

/// What a session holds.
pub struct EditSessionView {
    pub task_index: nat,
    pub phase: EditPhase,
}

/// A session, the application and the next command, after one report.
pub struct EditOutcome {
    pub session: EditSessionView,
    pub app: AppView,
    pub command: EditCommandView,
}

impl EditSessionView {
    /// The session in another phase.
    pub open spec fn at(self, phase: EditPhase) -> EditSessionView {
        EditSessionView { phase, ..self }
    }

    /// The session failed.
    pub open spec fn failed(self, app: AppView, error: EditError) -> EditOutcome {
        EditOutcome {
            session: self.at(EditPhase::Failed),
            app,
            command: EditCommandView::Abort(error),
        }
    }

    /// The session goes on to `phase`, where the caller has to do `command`.
    pub open spec fn proceeds(
        self,
        app: AppView,
        phase: EditPhase,
        command: EditCommandView,
    ) -> EditOutcome {
        EditOutcome { session: self.at(phase), app, command }
    }

    /// The command that starts the editor's part: to write the task's
    /// content to the scratch file where it has any, else to run the editor
    /// at once.
    pub open spec fn hands_over(self, app: AppView) -> EditOutcome {
        let tasks = app.projects.current_tasks();
        if self.task_index < tasks.len() && tasks[self.task_index as int].content.len() > 0 {
            self.proceeds(
                app,
                EditPhase::WritingScratch,
                EditCommandView::WriteScratch(tasks[self.task_index as int].content),
            )
        } else {
            self.proceeds(app, EditPhase::RunningEditor, EditCommandView::RunEditor)
        }
    }

    /// The session, the application and the next command after one report.
    ///
    /// The steps follow one another in a fixed order. Events that are still
    /// in the channel are taken out until it is closed. A step that fails
    /// ends the session, and so does a report that does not answer the
    /// command given before it. Text read from the scratch file becomes the
    /// task's content; a scratch file that cannot be read leaves the content
    /// as it is.
    pub open spec fn after(self, app: AppView, event: EditEventView) -> EditOutcome {
        match (self.phase, event) {
            (EditPhase::Cancelling, EditEventView::EventsCancelled) => self.proceeds(
                app,
                EditPhase::Draining,
                EditCommandView::ReceiveEvent,
            ),
            (EditPhase::Draining, EditEventView::EventReceived) => self.proceeds(
                app,
                EditPhase::Draining,
                EditCommandView::ReceiveEvent,
            ),
            (EditPhase::Draining, EditEventView::EventsClosed) => self.proceeds(
                app,
                EditPhase::RestoringTerminal,
                EditCommandView::RestoreTerminal,
            ),
            (EditPhase::RestoringTerminal, EditEventView::TerminalRestored(ok)) => if ok {
                self.hands_over(app)
            } else {
                self.failed(app, EditError::TerminalNotRestored)
            },
            (EditPhase::WritingScratch, EditEventView::ScratchWritten(ok)) => if ok {
                self.proceeds(app, EditPhase::RunningEditor, EditCommandView::RunEditor)
            } else {
                self.failed(app, EditError::ScratchNotWritten)
            },
            (EditPhase::RunningEditor, EditEventView::EditorReturned(ok)) => if ok {
                self.proceeds(app, EditPhase::ReadingScratch, EditCommandView::ReadScratch)
            } else {
                self.failed(app, EditError::EditorNotFound)
            },
            (EditPhase::ReadingScratch, EditEventView::ScratchRead(Some(text))) => if app.holds_task(
                self.task_index,
            ) {
                self.proceeds(
                    app.with_task_content(self.task_index as int, text),
                    EditPhase::RemovingScratch,
                    EditCommandView::RemoveScratch,
                )
            } else {
                self.failed(app, EditError::TaskMissing)
            },
            (EditPhase::ReadingScratch, EditEventView::ScratchRead(None)) => self.proceeds(
                app,
                EditPhase::PreparingTerminal,
                EditCommandView::PrepareTerminal,
            ),
            (EditPhase::RemovingScratch, EditEventView::ScratchRemoved(ok)) => if ok {
                self.proceeds(app, EditPhase::PreparingTerminal, EditCommandView::PrepareTerminal)
            } else {
                self.failed(app, EditError::ScratchNotRemoved)
            },
            (EditPhase::PreparingTerminal, EditEventView::TerminalPrepared(ok)) => if ok {
                self.proceeds(app, EditPhase::StartingEvents, EditCommandView::StartEvents)
            } else {
                self.failed(app, EditError::TerminalNotPrepared)
            },
            (EditPhase::StartingEvents, EditEventView::EventsStarted) => self.proceeds(
                app.synced(),
                EditPhase::Finished,
                EditCommandView::Finish,
            ),
            _ => self.failed(app, EditError::OutOfTurn),
        }
    }

    /// The session after `pending` events were taken out of the channel one
    /// by one.
    pub open spec fn after_received(self, app: AppView, pending: nat) -> EditOutcome
        decreases pending,
    {
        if pending == 0 {
            EditOutcome { session: self, app, command: EditCommandView::ReceiveEvent }
        } else {
            let before = self.after_received(app, (pending - 1) as nat);
            before.session.after(before.app, EditEventView::EventReceived)
        }
    }
}

impl View for EditSession {
    type V = EditSessionView;

    closed spec fn view(&self) -> EditSessionView {
        EditSessionView { task_index: self.task_index as nat, phase: self.phase }
    }
}

impl EditSession {
    /// Starts a session for the task at `task_index` of the project under
    /// the cursor, asks for the whole terminal to be drawn anew afterwards,
    /// and gives the first command: to stop the source of events. Where
    /// there is no such task, nothing is started and nothing changes.
    pub fn begin(app: &mut TodoApp, task_index: usize) -> (r: Option<(EditSession, EditCommand)>)
        requires
            old(app).wf(),
        ensures
            final(app).wf(),
            match r {
                Some((session, command)) => {
                    &&& task_index < old(app)@.projects.current_tasks().len()
                    &&& session@ == (EditSessionView {
                        task_index: task_index as nat,
                        phase: EditPhase::Cancelling,
                    })
                    &&& command@ == EditCommandView::CancelEvents
                    &&& final(app)@ == (AppView { redraw: true, ..old(app)@ })
                },
                None => {
                    &&& task_index >= old(app)@.projects.current_tasks().len()
                    &&& final(app)@ == old(app)@
                },
            },
    {
        if task_index < app.tasks().len() {
            app.request_redraw();
            let session = EditSession { task_index, phase: EditPhase::Cancelling };
            Some((session, EditCommand::CancelEvents))
        } else {
            None
        }
    }

    /// Where the session stands.
    pub fn phase(&self) -> (phase: EditPhase)
        ensures
            phase == self@.phase,
    {
        self.phase
    }

    /// The index of the task that the session is for.
    pub fn task_index(&self) -> (index: usize)
        ensures
            index == self@.task_index,
    {
        self.task_index
    }

    fn fail(&mut self, error: EditError) -> (command: EditCommand)
        ensures
            final(self)@ == old(self)@.at(EditPhase::Failed),
            command@ == EditCommandView::Abort(error),
    {
        self.phase = EditPhase::Failed;
        EditCommand::Abort(error)
    }

    fn proceed(&mut self, phase: EditPhase, command: EditCommand) -> (r: EditCommand)
        ensures
            final(self)@ == old(self)@.at(phase),
            r == command,
    {
        self.phase = phase;
        command
    }

    /// Takes the report on the last command and gives the next one.
    pub fn step(&mut self, app: &mut TodoApp, event: EditEvent) -> (command: EditCommand)
        requires
            old(app).wf(),
        ensures
            final(app).wf(),
            (EditOutcome { session: final(self)@, app: final(app)@, command: command@ }) == old(
                self,
            )@.after(old(app)@, event@),
    {
        match (self.phase, event) {
            (EditPhase::Cancelling, EditEvent::EventsCancelled) => self.proceed(
                EditPhase::Draining,
                EditCommand::ReceiveEvent,
            ),
            (EditPhase::Draining, EditEvent::EventReceived) => self.proceed(
                EditPhase::Draining,
                EditCommand::ReceiveEvent,
            ),
            (EditPhase::Draining, EditEvent::EventsClosed) => self.proceed(
                EditPhase::RestoringTerminal,
                EditCommand::RestoreTerminal,
            ),
            (EditPhase::RestoringTerminal, EditEvent::TerminalRestored(ok)) => {
                if ok {
                    match app.task_content(self.task_index) {
                        Some(text) => if !text.as_str().is_empty() {
                            self.proceed(EditPhase::WritingScratch, EditCommand::WriteScratch(text))
                        } else {
                            self.proceed(EditPhase::RunningEditor, EditCommand::RunEditor)
                        },
                        None => self.proceed(EditPhase::RunningEditor, EditCommand::RunEditor),
                    }
                } else {
                    self.fail(EditError::TerminalNotRestored)
                }
            },
            (EditPhase::WritingScratch, EditEvent::ScratchWritten(ok)) => {
                if ok {
                    self.proceed(EditPhase::RunningEditor, EditCommand::RunEditor)
                } else {
                    self.fail(EditError::ScratchNotWritten)
                }
            },
            (EditPhase::RunningEditor, EditEvent::EditorReturned(ok)) => {
                if ok {
                    self.proceed(EditPhase::ReadingScratch, EditCommand::ReadScratch)
                } else {
                    self.fail(EditError::EditorNotFound)
                }
            },
            (EditPhase::ReadingScratch, EditEvent::ScratchRead(Some(text))) => {
                if app.set_task_content(self.task_index, text) {
                    self.proceed(EditPhase::RemovingScratch, EditCommand::RemoveScratch)
                } else {
                    self.fail(EditError::TaskMissing)
                }
            },
            (EditPhase::ReadingScratch, EditEvent::ScratchRead(None)) => self.proceed(
                EditPhase::PreparingTerminal,
                EditCommand::PrepareTerminal,
            ),
            (EditPhase::RemovingScratch, EditEvent::ScratchRemoved(ok)) => {
                if ok {
                    self.proceed(EditPhase::PreparingTerminal, EditCommand::PrepareTerminal)
                } else {
                    self.fail(EditError::ScratchNotRemoved)
                }
            },
            (EditPhase::PreparingTerminal, EditEvent::TerminalPrepared(ok)) => {
                if ok {
                    self.proceed(EditPhase::StartingEvents, EditCommand::StartEvents)
                } else {
                    self.fail(EditError::TerminalNotPrepared)
                }
            },
            (EditPhase::StartingEvents, EditEvent::EventsStarted) => {
                app.update_tasks();
                self.proceed(EditPhase::Finished, EditCommand::Finish)
            },
            _ => self.fail(EditError::OutOfTurn),
        }
    }
}

/// Draining ends: however many events are still in the channel when the
/// source is stopped, the session takes them out one by one without a change
/// to the application, and goes on to restore the terminal as soon as the
/// channel is closed.
pub proof fn lemma_draining_ends(session: EditSessionView, app: AppView, pending: nat)
    requires
        session.phase == EditPhase::Draining,
    ensures
        session.after_received(app, pending) == (EditOutcome {
            session,
            app,
            command: EditCommandView::ReceiveEvent,
        }),
        session.after_received(app, pending).session.after(
            session.after_received(app, pending).app,
            EditEventView::EventsClosed,
        ) == (EditOutcome {
            session: session.at(EditPhase::RestoringTerminal),
            app,
            command: EditCommandView::RestoreTerminal,
        }),
    decreases pending,
{
    if pending > 0 {
        lemma_draining_ends(session, app, (pending - 1) as nat);
    }
}

/// The way into the editor: once the source of events is stopped, its
/// channel closed and the terminal restored, the session hands over, and the
/// application is as it was.
pub proof fn lemma_session_suspends(session: EditSessionView, app: AppView)
    requires
        session.phase == EditPhase::Cancelling,
    ensures
        ({
            let cancelled = session.after(app, EditEventView::EventsCancelled);
            let closed = cancelled.session.after(cancelled.app, EditEventView::EventsClosed);
            let restored = closed.session.after(closed.app, EditEventView::TerminalRestored(true));
            &&& cancelled.command == EditCommandView::ReceiveEvent
            &&& closed.command == EditCommandView::RestoreTerminal
            &&& restored == session.hands_over(app)
        }),
{
    let draining = session.at(EditPhase::Draining);
    assert(session.after(app, EditEventView::EventsCancelled).session == draining);
    let restoring = session.at(EditPhase::RestoringTerminal);
    assert(draining.after(app, EditEventView::EventsClosed).session == restoring);
    let restored = restoring.after(app, EditEventView::TerminalRestored(true));
    assert(restored == restoring.hands_over(app));
}

/// The editor's part: when the editor has exited, its text has been read and
/// the scratch file is removed, the text is the task's content, nothing else
/// has changed, and the session goes on to prepare the terminal.
pub proof fn lemma_session_takes_the_text(session: EditSessionView, app: AppView, text: Seq<char>)
    requires
        app.wf(),
        session.phase == EditPhase::RunningEditor,
        session.task_index < app.projects.current_tasks().len(),
    ensures
        ({
            let edited = session.after(app, EditEventView::EditorReturned(true));
            let read = edited.session.after(edited.app, EditEventView::ScratchRead(Some(text)));
            let removed = read.session.after(read.app, EditEventView::ScratchRemoved(true));
            &&& edited.command == EditCommandView::ReadScratch
            &&& read.command == EditCommandView::RemoveScratch
            &&& removed == (EditOutcome {
                session: session.at(EditPhase::PreparingTerminal),
                app: app.with_task_content(session.task_index as int, text),
                command: EditCommandView::PrepareTerminal,
            })
            &&& removed.app.wf()
        }),
{
    let reading = session.at(EditPhase::ReadingScratch);
    assert(session.after(app, EditEventView::EditorReturned(true)).session == reading);
    let changed = app.with_task_content(session.task_index as int, text);
    let read = reading.after(app, EditEventView::ScratchRead(Some(text)));
    assert(read.session == session.at(EditPhase::RemovingScratch) && read.app == changed);
    lemma_content_keeps_order(app, session.task_index as int, text);
}

/// The way back: once the terminal is prepared and a new source of events
/// started, the session is over, and the application is as it was.
pub proof fn lemma_session_resumes(session: EditSessionView, app: AppView)
    requires
        app.wf(),
        session.phase == EditPhase::PreparingTerminal,
    ensures
        ({
            let prepared = session.after(app, EditEventView::TerminalPrepared(true));
            let started = prepared.session.after(prepared.app, EditEventView::EventsStarted);
            &&& prepared.command == EditCommandView::StartEvents
            &&& started == (EditOutcome {
                session: session.at(EditPhase::Finished),
                app,
                command: EditCommandView::Finish,
            })
        }),
{
    let starting = session.at(EditPhase::StartingEvents);
    assert(session.after(app, EditEventView::TerminalPrepared(true)).session == starting);
    assert(app.synced() =~= app);
}

/// New content in a task leaves the application in order, with the task list
/// up to date.
proof fn lemma_content_keeps_order(app: AppView, index: int, text: Seq<char>)
    requires
        app.wf(),
        0 <= index < app.projects.current_tasks().len(),
    ensures
        app.with_task_content(index, text).wf(),
        app.with_task_content(index, text).synced() == app.with_task_content(index, text),
{
    let changed = app.with_task_content(index, text);
    assert(changed.synced() =~= changed);
}

/// A session takes no step after its last: whatever is reported to a session
/// that is over or has failed, it fails.
pub proof fn lemma_session_is_over(session: EditSessionView, app: AppView, event: EditEventView)
    requires
        session.phase == EditPhase::Finished || session.phase == EditPhase::Failed,
    ensures
        session.after(app, event) == session.failed(app, EditError::OutOfTurn),
{
}

} // verus!
