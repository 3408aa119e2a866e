//! The application's state, and what each key and each tick does to it.

use vstd::prelude::*;
use crate::clock::Timestamp;
use crate::draw::Color;
use crate::event_loop::Event;
use crate::keys::{KeyCode, KeyEvent, TerminalEvent};
use crate::project::{ProjectContainer, ProjectContainerView, ProjectView};
use crate::task::{same_tasks, TaskContainer, TaskContainerView, TaskView};
use crate::widgets::line_input::{LineInput, LineInputView};
use crate::widgets::message_box::{Button, MessageBox, MessageBoxView};
use crate::widgets::{ContainerWidget, PopupWidget};
use crate::InputMode;

verus! {

/// For how many ticks a message stays in the log bar.
pub const MAX_LOG_DURATION: u8 = 3;

/// The name of the directory, under the user's home, that holds the data.
pub const DATA_DIRECTORY: &'static str = ".weeklyplaner";

/// The name of the file that holds the projects.
pub const DATA_FILE: &'static str = "data.json";

/// The name of the file that the editor works on.
pub const EDIT_FILE: &'static str = "task.edit";

/// The editor that task content is written in.
pub const EDITOR: &'static str = "nvim";

/// What the caller has to do after a key.
#[derive(Clone, Copy, Debug, PartialEq, Eq, Structural)]
pub enum Action {
    /// Nothing.
    Nothing,
    /// Hand the terminal to the editor, for the task at this index of the
    /// project under the cursor.
    Edit(usize),
    /// Write the projects to disk, and report with `save_finished` how that
    /// went.
    Save,
}

/// What the caller has to do after an event.
#[derive(Clone, Copy, Debug, PartialEq, Eq, Structural)]
pub struct Step {
    pub action: Action,
    /// Whether the screen is to be drawn anew.
    pub draw: bool,
}

/// The question that the popup asks in a mode that asks one.
pub open spec fn question_for(mode: InputMode) -> Seq<char> {
    match mode {
        InputMode::Deleting => "Are you sure that you want to delete?"@,
        InputMode::Saving => "Are you sure that you want to save?"@,
        InputMode::Quitting => "Do you want to save your changes before quitting?"@,
        _ => Seq::empty(),
    }
}

/// The question that the popup asks in a mode; an empty text in a mode that
/// asks none.
pub fn mode_question(mode: InputMode) -> (question: &'static str)
    ensures
        question@ == question_for(mode),
{
    proof {
        reveal_strlit("");
    }
    match mode {
        InputMode::Deleting => "Are you sure that you want to delete?",
        InputMode::Saving => "Are you sure that you want to save?",
        InputMode::Quitting => "Do you want to save your changes before quitting?",
        _ => "",
    }
}

/// The name of a mode, as the footer shows it.
pub open spec fn label_for(mode: InputMode) -> Seq<char> {
    match mode {
        InputMode::Normal => "NORMAL"@,
        InputMode::Insert => "INSERT"@,
        InputMode::Deleting => "DELETING"@,
        InputMode::Saving => "SAVING"@,
        InputMode::Quitting => "QUITTING"@,
    }
}

/// The name of a mode, as the footer shows it.
pub fn mode_label(mode: InputMode) -> (label: &'static str)
    ensures
        label@ == label_for(mode),
{
    match mode {
        InputMode::Normal => "NORMAL",
        InputMode::Insert => "INSERT",
        InputMode::Deleting => "DELETING",
        InputMode::Saving => "SAVING",
        InputMode::Quitting => "QUITTING",
    }
}

/// The color behind the name of a mode in the footer.
pub open spec fn color_for(mode: InputMode) -> Color {
    match mode {
        InputMode::Normal => Color::Cyan,
        InputMode::Insert => Color::Green,
        InputMode::Saving => Color::Magenta,
        InputMode::Quitting => Color::Grey,
        InputMode::Deleting => Color::Red,
    }
}

/// The colors of the name of a mode in the footer: that of the letters, which
/// is black, and the one behind them.
pub fn mode_colors(mode: InputMode) -> (colors: (Color, Color))
    ensures
        colors == (Color::Black, color_for(mode)),
{
    let background = match mode {
        InputMode::Normal => Color::Cyan,
        InputMode::Insert => Color::Green,
        InputMode::Saving => Color::Magenta,
        InputMode::Quitting => Color::Grey,
        InputMode::Deleting => Color::Red,
    };
    (Color::Black, background)
}

/// The popups.
#[derive(Clone, Copy, Debug, PartialEq, Eq, Structural)]
pub enum Popup {
    MessageBox,
    LineInput,
}

/// The popup that lies over the lists in a mode: the message box in a mode
/// that asks a question, the line input while a title is typed.
pub open spec fn popup_for(mode: InputMode) -> Option<Popup> {
    if mode.asks() {
        Some(Popup::MessageBox)
    } else if mode == InputMode::Insert {
        Some(Popup::LineInput)
    } else {
        None
    }
}

/// The popup that lies over the lists in a mode.
pub fn mode_popup(mode: InputMode) -> (popup: Option<Popup>)
    ensures
        popup == popup_for(mode),
{
    match mode {
        InputMode::Saving | InputMode::Quitting | InputMode::Deleting => Some(Popup::MessageBox),
        InputMode::Insert => Some(Popup::LineInput),
        InputMode::Normal => None,
    }
}

/// The stamps given, or the start of 1970 twice where none are given.
pub open spec fn stamps_or_none(stamps: Option<(Timestamp, Timestamp)>) -> (Timestamp, Timestamp) {
    match stamps {
        Some(given) => given,
        None => (Timestamp { secs: 0, nanos: 0 }, Timestamp { secs: 0, nanos: 0 }),
    }
}

/// The state of the application.
#[derive(Debug, PartialEq, Eq)]
pub struct TodoApp {
    input_mode: InputMode,
    projects: ProjectContainer,
    tasks: TaskContainer,
    quit: bool,
    log_message: String,
    log_message_duration: u8,
    redraw: bool,
    dirty: bool,
    message_box: MessageBox,
    line_input: LineInput,
}

/// What the application holds.
#[verifier::ext_equal]
pub struct AppView {
    /// Who owns the keys.
    pub mode: InputMode,
    /// The list of all projects.
    pub projects: ProjectContainerView,
    /// The list of the tasks of the project under the cursor.
    pub tasks: TaskContainerView,
    /// Whether the user has asked to leave.
    pub quit: bool,
    /// The message in the log bar.
    pub log_message: Seq<char>,
    /// For how many ticks the message has been shown.
    pub log_message_duration: nat,
    /// Whether the whole terminal has to be drawn anew.
    pub redraw: bool,
    /// Whether something was changed since the last save.
    pub dirty: bool,
    /// The popup that asks before deleting, saving and quitting.
    pub message_box: MessageBoxView,
    /// The popup that takes the title of a new project or task.
    pub line_input: LineInputView,
}

impl AppView {
    /// What holds of the application at all times: each cursor is inside its
    /// list; exactly one of the two lists has the focus, and the task list
    /// only while there is a project; the task list shows the tasks of the
    /// project under the cursor; a message is not shown for longer than it
    /// may be; and a popup is closed unless the mode is its own, in which
    /// case the message box asks the mode's question.
    pub open spec fn wf(self) -> bool {
        &&& self.projects.wf()
        &&& self.tasks.wf()
        &&& self.projects.focused != self.tasks.focused
        &&& (self.tasks.focused ==> self.projects.projects.len() > 0)
        &&& self.tasks.tasks == self.projects.current_tasks()
        &&& self.log_message_duration <= MAX_LOG_DURATION
        &&& (self.mode != InputMode::Insert ==> self.line_input == LineInputView::closed())
        &&& (!self.mode.asks() ==> self.message_box == MessageBoxView::closed())
        &&& (self.mode.asks() ==> self.message_box.question == question_for(self.mode))
    }

    /// The application as it starts: no projects, the focus on the project
    /// list, nothing to save.
    pub open spec fn initial() -> AppView {
        AppView {
            mode: InputMode::Normal,
            projects: ProjectContainerView { projects: Seq::empty(), selected: 0, focused: true },
            tasks: TaskContainerView { tasks: Seq::empty(), selected: 0, focused: false },
            quit: false,
            log_message: Seq::empty(),
            log_message_duration: 0,
            redraw: false,
            dirty: false,
            message_box: MessageBoxView::closed(),
            line_input: LineInputView::closed(),
        }
    }

    /// The task list brought up to date with the project under the cursor.
    pub open spec fn synced(self) -> AppView {
        AppView { tasks: self.tasks.showing(self.projects.current_tasks()), ..self }
    }

    /// The application in a mode that asks a question, with the question in
    /// the message box.
    pub open spec fn asking(self, mode: InputMode) -> AppView {
        AppView {
            mode,
            message_box: MessageBoxView { question: question_for(mode), ..self.message_box },
            ..self
        }
    }

    /// The application with a message in the log bar, shown for no tick yet.
    pub open spec fn with_log(self, message: Seq<char>) -> AppView {
        AppView { log_message: message, log_message_duration: 0, ..self }
    }

    /// The project under the cursor. It has a meaning only where there is a
    /// project.
    pub open spec fn current_project(self) -> ProjectView {
        self.projects.projects[self.projects.selected as int]
    }

    /// The application with another project in the place of the one under
    /// the cursor, and the task list brought up to date.
    pub open spec fn with_current(self, project: ProjectView) -> AppView {
        AppView { projects: self.projects.with_current(project), ..self }.synced()
    }

    /// What a key does in normal mode.
    pub open spec fn after_normal_key(self, key: KeyEvent) -> AppView {
        match key.code {
            KeyCode::Char(c) => if key.asks_to_save() {
                if self.dirty {
                    self.asking(InputMode::Saving)
                } else {
                    self
                }
            } else if c == 'q' {
                if self.dirty {
                    self.asking(InputMode::Quitting)
                } else {
                    AppView { quit: true, ..self }
                }
            } else if c == 'i' {
                AppView { mode: InputMode::Insert, ..self }
            } else if c == 'e' {
                if self.tasks.focused {
                    AppView { dirty: true, ..self }
                } else {
                    self
                }
            } else if c == 'd' {
                if self.tasks.focused {
                    let marked = AppView { dirty: true, ..self };
                    if self.tasks.selected < self.tasks.tasks.len() {
                        marked.with_current(
                            self.current_project().with_task_toggled(self.tasks.selected as int),
                        )
                    } else {
                        marked
                    }
                } else {
                    self
                }
            } else {
                self
            },
            KeyCode::Up => if self.projects.focused {
                AppView { projects: self.projects.moved_up(), ..self }.synced()
            } else {
                AppView { tasks: self.tasks.moved_up(), ..self }
            },
            KeyCode::Down => if self.projects.focused {
                AppView { projects: self.projects.moved_down(), ..self }.synced()
            } else {
                AppView { tasks: self.tasks.moved_down(), ..self }
            },
            KeyCode::Enter => if self.projects.focused && self.projects.current() is Some {
                AppView {
                    projects: self.projects.with_focus(false),
                    tasks: self.tasks.with_focus(true),
                    ..self
                }
            } else {
                self
            },
            KeyCode::Esc => if self.tasks.focused {
                AppView {
                    projects: self.projects.with_focus(true),
                    tasks: self.tasks.with_focus(false),
                    ..self
                }
            } else {
                self
            },
            KeyCode::Delete => self.asking(InputMode::Deleting),
            _ => self,
        }
    }

    /// What a key does while a title is typed. Escape gives up. Enter takes
    /// the title unless it is empty: with the focus on the projects it makes
    /// a project of that title, else a task in the project under the cursor,
    /// stamped with the two times given.
    pub open spec fn after_insert_key(
        self,
        key: KeyEvent,
        created_at: Timestamp,
        modified_at: Timestamp,
    ) -> AppView {
        match key.code {
            KeyCode::Esc => AppView {
                mode: InputMode::Normal,
                line_input: LineInputView::closed(),
                ..self
            },
            KeyCode::Enter => if self.line_input.input.len() > 0 {
                let taken = AppView {
                    mode: InputMode::Normal,
                    dirty: true,
                    line_input: LineInputView::closed(),
                    ..self
                };
                if self.projects.focused {
                    AppView {
                        projects: self.projects.with_project(self.line_input.input),
                        ..taken
                    }.synced()
                } else {
                    taken.with_current(
                        self.current_project().with_task(
                            TaskView::fresh(self.line_input.input, created_at, modified_at),
                        ),
                    )
                }
            } else {
                self
            },
            _ => self,
        }
    }

    /// What a key does while the popup asks whether to delete. Escape and
    /// Enter both close the popup; Enter on "Yes" first removes what is under
    /// the cursor of the list that has the focus.
    pub open spec fn after_deleting_key(self, key: KeyEvent) -> AppView {
        if key.code == KeyCode::Esc || key.code == KeyCode::Enter {
            let back = AppView {
                mode: InputMode::Normal,
                message_box: MessageBoxView::closed(),
                ..self
            };
            if key.code == KeyCode::Enter && self.message_box.selected == Button::Yes {
                let marked = AppView { dirty: true, ..back };
                if self.projects.focused {
                    AppView { projects: self.projects.without_selected(), ..marked }.synced()
                } else {
                    marked.with_current(
                        self.current_project().without_task(self.tasks.selected as int),
                    )
                }
            } else {
                back
            }
        } else {
            self
        }
    }

    /// What a key does while the popup asks whether to save.
    pub open spec fn after_saving_key(self, key: KeyEvent) -> AppView {
        if key.code == KeyCode::Esc || key.code == KeyCode::Enter {
            AppView { mode: InputMode::Normal, message_box: MessageBoxView::closed(), ..self }
        } else {
            self
        }
    }

    /// What a key does while the popup asks whether to save before leaving.
    /// Escape goes back; Enter leaves, whatever the answer.
    pub open spec fn after_quitting_key(self, key: KeyEvent) -> AppView {
        match key.code {
            KeyCode::Esc => AppView {
                mode: InputMode::Normal,
                message_box: MessageBoxView::closed(),
                ..self
            },
            KeyCode::Enter => AppView { quit: true, ..self },
            _ => self,
        }
    }

    /// What the mode in force makes of a key. The two times stamp a task if
    /// the key makes one.
    pub open spec fn after_mode_key(
        self,
        key: KeyEvent,
        created_at: Timestamp,
        modified_at: Timestamp,
    ) -> AppView {
        match self.mode {
            InputMode::Normal => self.after_normal_key(key),
            InputMode::Insert => self.after_insert_key(key, created_at, modified_at),
            InputMode::Deleting => self.after_deleting_key(key),
            InputMode::Saving => self.after_saving_key(key),
            InputMode::Quitting => self.after_quitting_key(key),
        }
    }

    /// What the mode in force asks of the caller for a key: to edit the task
    /// under the cursor, or the task just made; or to save, after "Yes" to
    /// one of the two questions about saving.
    pub open spec fn mode_action(self, key: KeyEvent) -> Action {
        match self.mode {
            InputMode::Normal => if key.code == KeyCode::Char('e') && self.tasks.focused
                && self.tasks.selected < self.tasks.tasks.len() {
                Action::Edit(self.tasks.selected as usize)
            } else {
                Action::Nothing
            },
            InputMode::Insert => if key.code == KeyCode::Enter && self.line_input.input.len() > 0
                && !self.projects.focused {
                Action::Edit(self.tasks.tasks.len() as usize)
            } else {
                Action::Nothing
            },
            InputMode::Deleting => Action::Nothing,
            InputMode::Saving | InputMode::Quitting => if key.code == KeyCode::Enter
                && self.message_box.selected == Button::Yes {
                Action::Save
            } else {
                Action::Nothing
            },
        }
    }

    /// Whether the popup of the mode in force still waits for the key that
    /// opens it.
    pub open spec fn popup_waits(self) -> bool {
        match popup_for(self.mode) {
            Some(Popup::MessageBox) => !self.message_box.visible,
            Some(Popup::LineInput) => !self.line_input.visible,
            None => false,
        }
    }

    /// The application with the popup of the mode in force open, and nothing
    /// else changed.
    pub open spec fn with_popup_opened(self) -> AppView {
        match popup_for(self.mode) {
            Some(Popup::MessageBox) => AppView { message_box: self.message_box.opened(), ..self },
            Some(Popup::LineInput) => AppView { line_input: self.line_input.opened(), ..self },
            None => self,
        }
    }

    /// The application after the popup of the mode in force, if there is one,
    /// has seen the key.
    pub open spec fn after_popup_input(self, key: KeyEvent) -> AppView {
        match popup_for(self.mode) {
            Some(Popup::MessageBox) => AppView {
                message_box: self.message_box.after_input(key),
                ..self
            },
            Some(Popup::LineInput) => AppView {
                line_input: self.line_input.after_input(key),
                ..self
            },
            None => self,
        }
    }

    /// The application after a key. The two times stamp a task if the key
    /// makes one.
    ///
    /// A popup that is not open yet takes the key before anyone else: the key
    /// opens the popup and does nothing more, whatever key it is. Else the
    /// mode in force acts on the key, and after it the open popup of the mode
    /// that the key leaves behind.
    ///
    /// A key that leaves normal mode is the popup's first key in one case
    /// only. The key that starts the typing of a title opens the line input
    /// at once, so that the first character typed is taken. The key that
    /// asks a question leaves the message box closed: the next key opens it,
    /// and only the one after that answers.
    pub open spec fn after_key(
        self,
        key: KeyEvent,
        created_at: Timestamp,
        modified_at: Timestamp,
    ) -> AppView {
        if self.popup_waits() {
            self.with_popup_opened()
        } else if self.mode == InputMode::Normal {
            let next = self.after_normal_key(key);
            if next.mode == InputMode::Insert {
                next.with_popup_opened()
            } else {
                next
            }
        } else {
            self.after_mode_key(key, created_at, modified_at).after_popup_input(key)
        }
    }

    /// What a key asks of the caller: nothing where the key only opens a
    /// popup, else what the mode in force asks.
    pub open spec fn action_on_key(self, key: KeyEvent) -> Action {
        if self.popup_waits() {
            Action::Nothing
        } else {
            self.mode_action(key)
        }
    }

    /// The application after a tick: a message that has been shown for long
    /// enough is taken away, and one that stays has been shown for one tick
    /// more.
    pub open spec fn after_tick(self) -> AppView {
        let message = if self.log_message_duration == MAX_LOG_DURATION {
            Seq::empty()
        } else {
            self.log_message
        };
        AppView {
            log_message: message,
            log_message_duration: if message.len() > 0 {
                self.log_message_duration + 1
            } else {
                self.log_message_duration
            },
            ..self
        }
    }

    /// The application after an event. A tick ages the message. A key does
    /// what `after_key` says: it only opens a popup that is not open yet,
    /// and is acted on by the mode, and then by the open popup, in every
    /// other case. The key that asks a question does not open the message
    /// box; the key that starts the typing of a title opens the line input.
    /// Anything else that the terminal reports changes nothing.
    pub open spec fn after_event(
        self,
        event: Event,
        created_at: Timestamp,
        modified_at: Timestamp,
    ) -> AppView {
        match event {
            Event::Draw => self.after_tick(),
            Event::Key(TerminalEvent::Key(key)) => self.after_key(key, created_at, modified_at),
            Event::Key(TerminalEvent::Other) => self,
        }
    }

    /// What an event asks of the caller.
    pub open spec fn step_on_event(self, event: Event) -> Step {
        match event {
            Event::Draw => Step { action: Action::Nothing, draw: true },
            Event::Key(TerminalEvent::Key(key)) => Step {
                action: self.action_on_key(key),
                draw: true,
            },
            Event::Key(TerminalEvent::Other) => Step { action: Action::Nothing, draw: false },
        }
    }

    /// The application after a save: the message says how it went, and after
    /// a save that went well nothing is left to save.
    pub open spec fn after_save(self, outcome: Result<(), Seq<char>>) -> AppView {
        match outcome {
            Ok(_) => AppView { dirty: false, ..self.with_log("Saved"@) },
            Err(message) => self.with_log(message),
        }
    }

    /// The application with the projects that were read from disk, the focus
    /// on them, and the task list brought up to date. Where nothing could be
    /// read it stays as it is.
    pub open spec fn after_import(self, loaded: Option<ProjectContainerView>) -> AppView {
        match loaded {
            Some(projects) => AppView {
                projects: projects.with_focus(true),
                tasks: self.tasks.with_focus(false),
                ..self
            }.synced(),
            None => self,
        }
    }

    /// Whether the project under the cursor has a task at `index`.
    pub open spec fn holds_task(self, index: nat) -> bool {
        index < self.projects.current_tasks().len()
    }

    /// The application with other content in the task at `index` of the
    /// project under the cursor. Where there is no such task it stays as it
    /// is.
    pub open spec fn with_task_content(self, index: int, content: Seq<char>) -> AppView {
        if 0 <= index < self.projects.current_tasks().len() {
            self.with_current(self.current_project().with_task_content(index, content))
        } else {
            self
        }
    }

    /// The application after each of `events` in turn. With each event come
    /// the two times that stamp a task if the event makes one.
    pub open spec fn after_events(self, events: Seq<(Event, Timestamp, Timestamp)>) -> AppView
        decreases events.len(),
    {
        if events.len() == 0 {
            self
        } else {
            self.after_events(events.drop_last()).after_event(
                events.last().0,
                events.last().1,
                events.last().2,
            )
        }
    }

    /// Every project and every task has a title.
    pub open spec fn titled(self) -> bool {
        forall|i: int|
            0 <= i < self.projects.projects.len() ==> {
                &&& (#[trigger] self.projects.projects[i]).title.len() > 0
                &&& forall|j: int|
                    0 <= j < self.projects.projects[i].tasks.len() ==> (
                    #[trigger] self.projects.projects[i].tasks[j]).title.len() > 0
            }
    }
}

impl View for TodoApp {
    type V = AppView;

    closed spec fn view(&self) -> AppView {
        AppView {
            mode: self.input_mode,
            projects: self.projects@,
            tasks: self.tasks@,
            quit: self.quit,
            log_message: self.log_message@,
            log_message_duration: self.log_message_duration as nat,
            redraw: self.redraw,
            dirty: self.dirty,
            message_box: self.message_box@,
            line_input: self.line_input@,
        }
    }
}

impl TodoApp {
    /// What holds of the application at all times.
    pub open spec fn wf(&self) -> bool {
        self@.wf()
    }

    /// Whether all holds of the application that holds of it at all times.
    pub fn is_well_formed(&self) -> (ok: bool)
        ensures
            ok == self.wf(),
    {
        let shown = match self.projects.current() {
            Some(project) => same_tasks(self.tasks.tasks(), &project.tasks),
            None => self.tasks.len() == 0,
        };
        proof {
            if self@.projects.current() is None {
                assert((self@.tasks.tasks.len() == 0) == (self@.tasks.tasks
                    =~= self@.projects.current_tasks()));
            }
        }
        let popups = match mode_popup(self.input_mode) {
            None => self.line_input.is_closed() && self.message_box.is_closed(),
            Some(Popup::LineInput) => self.message_box.is_closed(),
            Some(Popup::MessageBox) => self.line_input.is_closed() && *self.message_box.question()
                == mode_question(self.input_mode).to_owned(),
        };
        self.projects.is_well_formed() && self.tasks.is_well_formed() && self.projects.is_focused()
            != self.tasks.is_focused() && (!self.tasks.is_focused() || self.projects.len() > 0)
            && shown && self.log_message_duration <= MAX_LOG_DURATION && popups
    }

    /// The application as it starts.
    pub fn new() -> (app: TodoApp)
        ensures
            app@ == AppView::initial(),
            app.wf(),
    {
        TodoApp {
            input_mode: InputMode::Normal,
            projects: ProjectContainer::new(true),
            tasks: TaskContainer::new(false),
            quit: false,
            log_message: String::new(),
            log_message_duration: 0,
            redraw: false,
            dirty: false,
            message_box: MessageBox::new(),
            line_input: LineInput::new(),
        }
    }

    /// Who owns the keys.
    pub fn input_mode(&self) -> (mode: InputMode)
        ensures
            mode == self@.mode,
    {
        self.input_mode
    }

    /// The list of all projects.
    pub fn projects(&self) -> (projects: &ProjectContainer)
        ensures
            projects@ == self@.projects,
    {
        &self.projects
    }

    /// The list of the tasks of the project under the cursor.
    pub fn tasks(&self) -> (tasks: &TaskContainer)
        ensures
            tasks@ == self@.tasks,
    {
        &self.tasks
    }

    /// The popup that asks before deleting, saving and quitting.
    pub fn message_box(&self) -> (message_box: &MessageBox)
        ensures
            message_box@ == self@.message_box,
    {
        &self.message_box
    }

    /// The popup that takes the title of a new project or task.
    pub fn line_input(&self) -> (line_input: &LineInput)
        ensures
            line_input@ == self@.line_input,
    {
        &self.line_input
    }

    /// The message in the log bar.
    pub fn log_message(&self) -> (message: &String)
        ensures
            message@ == self@.log_message,
    {
        &self.log_message
    }

    /// Whether something was changed since the last save.
    pub fn is_dirty(&self) -> (dirty: bool)
        ensures
            dirty == self@.dirty,
    {
        self.dirty
    }

    /// Whether the user has asked to leave.
    pub fn should_quit(&self) -> (quit: bool)
        ensures
            quit == self@.quit,
    {
        self.quit
    }

    /// Whether the whole terminal has to be drawn anew; asking takes the
    /// request away.
    pub fn take_redraw(&mut self) -> (redraw: bool)
        ensures
            redraw == old(self)@.redraw,
            final(self)@ == (AppView { redraw: false, ..old(self)@ }),
    {
        let redraw = self.redraw;
        self.redraw = false;
        redraw
    }

    /// Asks for the whole terminal to be drawn anew.
    pub fn request_redraw(&mut self)
        ensures
            final(self)@ == (AppView { redraw: true, ..old(self)@ }),
    {
        self.redraw = true;
    }

    /// Puts a message in the log bar.
    pub fn log(&mut self, message: String)
        ensures
            final(self)@ == old(self)@.with_log(message@),
    {
        self.log_message = message;
        self.log_message_duration = 0;
    }

    /// Brings the task list up to date with the project under the cursor.
    pub fn update_tasks(&mut self)
        ensures
            final(self)@ == old(self)@.synced(),
    {
        self.tasks.set_project(self.projects.current());
    }

    /// A copy of the content of the task at `index` of the project under the
    /// cursor; none where there is no such task.
    pub fn task_content(&self, index: usize) -> (content: Option<String>)
        ensures
            match content {
                Some(text) => index < self@.projects.current_tasks().len()
                    && text@ == self@.projects.current_tasks()[index as int].content,
                None => index >= self@.projects.current_tasks().len(),
            },
    {
        match self.projects.current() {
            Some(project) => if index < project.tasks.len() {
                Some(project.tasks[index].content.clone())
            } else {
                None
            },
            None => None,
        }
    }

    /// Replaces the content of the task at `index` of the project under the
    /// cursor, and brings the task list up to date. Says whether there is
    /// such a task; where there is none, nothing changes.
    pub fn set_task_content(&mut self, index: usize, content: String) -> (found: bool)
        requires
            old(self).wf(),
        ensures
            found == (index < old(self)@.projects.current_tasks().len()),
            final(self)@ == old(self)@.with_task_content(index as int, content@),
            final(self).wf(),
    {
        let found = match self.projects.current_project() {
            Some(project) => if index < project.tasks.len() {
                project.edit_task(index, Some(content))
            } else {
                false
            },
            None => false,
        };
        if found {
            self.update_tasks();
        } else {
            assert(self@ =~= old(self)@);
        }
        found
    }

    fn ask(&mut self, mode: InputMode)
        requires
            mode.asks(),
        ensures
            final(self)@ == old(self)@.asking(mode),
    {
        self.input_mode = mode;
        self.message_box.set_question(mode_question(mode).to_owned());
    }

    fn handle_normal_key(&mut self, key: &KeyEvent) -> (action: Action)
        requires
            old(self).wf(),
            old(self)@.mode == InputMode::Normal,
        ensures
            final(self)@ == old(self)@.after_normal_key(*key),
            action == old(self)@.mode_action(*key),
            final(self).wf(),
    {
        match key.code {
            KeyCode::Char(c) => {
                if key.is_save_request() {
                    if self.dirty {
                        self.ask(InputMode::Saving);
                    }
                    Action::Nothing
                } else if c == 'q' {
                    if self.dirty {
                        self.ask(InputMode::Quitting);
                    } else {
                        self.quit = true;
                    }
                    Action::Nothing
                } else if c == 'i' {
                    self.input_mode = InputMode::Insert;
                    Action::Nothing
                } else if c == 'e' {
                    if self.tasks.is_focused() {
                        self.dirty = true;
                        if self.tasks.selected() < self.tasks.len() {
                            Action::Edit(self.tasks.selected())
                        } else {
                            Action::Nothing
                        }
                    } else {
                        Action::Nothing
                    }
                } else if c == 'd' {
                    if self.tasks.is_focused() {
                        self.dirty = true;
                        let selected = self.tasks.selected();
                        if selected < self.tasks.len() {
                            match self.projects.current_project() {
                                Some(project) => project.toggle_task_done(selected),
                                None => {},
                            }
                            self.update_tasks();
                        }
                    }
                    Action::Nothing
                } else {
                    Action::Nothing
                }
            },
            KeyCode::Up => {
                if self.projects.is_focused() {
                    self.projects.move_up();
                    self.update_tasks();
                } else {
                    self.tasks.move_up();
                }
                Action::Nothing
            },
            KeyCode::Down => {
                if self.projects.is_focused() {
                    self.projects.move_down();
                    self.update_tasks();
                } else {
                    self.tasks.move_down();
                }
                Action::Nothing
            },
            KeyCode::Enter => {
                if self.projects.is_focused() && self.projects.current().is_some() {
                    self.projects.set_focus(false);
                    self.tasks.set_focus(true);
                }
                Action::Nothing
            },
            KeyCode::Esc => {
                if self.tasks.is_focused() {
                    self.projects.set_focus(true);
                    self.tasks.set_focus(false);
                }
                Action::Nothing
            },
            KeyCode::Delete => {
                self.ask(InputMode::Deleting);
                Action::Nothing
            },
            _ => Action::Nothing,
        }
    }

    fn handle_insert_key(&mut self, key: &KeyEvent, stamps: Option<(Timestamp, Timestamp)>) -> (r: (
        Action,
        Ghost<(Timestamp, Timestamp)>,
    ))
        requires
            old(self).wf(),
            old(self)@.mode == InputMode::Insert,
        ensures
            final(self)@ == old(self)@.after_insert_key(*key, r.1@.0, r.1@.1),
            r.0 == old(self)@.mode_action(*key),
            final(self).wf(),
            stamps matches Some(given) ==> r.1@ == given,
    {
        let ghost mut used = stamps_or_none(stamps);
        match key.code {
            KeyCode::Esc => {
                self.input_mode = InputMode::Normal;
                self.line_input.close();
                (Action::Nothing, Ghost(used))
            },
            KeyCode::Enter => {
                let title = self.line_input.value();
                if !title.as_str().is_empty() {
                    self.input_mode = InputMode::Normal;
                    self.dirty = true;
                    let action = if self.projects.is_focused() {
                        self.projects.add_project(title);
                        Action::Nothing
                    } else {
                        let index = self.tasks.len();
                        let ghost text = title@;
                        match self.projects.current_project() {
                            Some(project) => {
                                let ghost before = project@;
                                match stamps {
                                    Some((created_at, modified_at)) => {
                                        project.add_task_at(title, created_at, modified_at);
                                    },
                                    None => {
                                        project.add_task(title);
                                        proof {
                                            used = choose|c: Timestamp, m: Timestamp|
                                                project@ == before.with_task(
                                                    #[trigger] TaskView::fresh(text, c, m),
                                                );
                                        }
                                    },
                                }
                            },
                            None => {},
                        }
                        Action::Edit(index)
                    };
                    self.update_tasks();
                    self.line_input.close();
                    (action, Ghost(used))
                } else {
                    (Action::Nothing, Ghost(used))
                }
            },
            _ => (Action::Nothing, Ghost(used)),
        }
    }

    fn handle_deleting_key(&mut self, key: &KeyEvent) -> (action: Action)
        requires
            old(self).wf(),
            old(self)@.mode == InputMode::Deleting,
        ensures
            final(self)@ == old(self)@.after_deleting_key(*key),
            action == old(self)@.mode_action(*key),
            final(self).wf(),
    {
        match key.code {
            KeyCode::Esc | KeyCode::Enter => {
                self.input_mode = InputMode::Normal;
                if key.code == KeyCode::Enter && self.message_box.accepted() {
                    self.dirty = true;
                    if self.projects.is_focused() {
                        self.projects.remove_selected_project();
                    } else {
                        let selected = self.tasks.selected();
                        match self.projects.current_project() {
                            Some(project) => project.remove_selected_task(selected),
                            None => {},
                        }
                    }
                    self.update_tasks();
                }
                self.message_box.close();
                Action::Nothing
            },
            _ => Action::Nothing,
        }
    }

    fn handle_saving_key(&mut self, key: &KeyEvent) -> (action: Action)
        requires
            old(self).wf(),
            old(self)@.mode == InputMode::Saving,
        ensures
            final(self)@ == old(self)@.after_saving_key(*key),
            action == old(self)@.mode_action(*key),
            final(self).wf(),
    {
        match key.code {
            KeyCode::Esc | KeyCode::Enter => {
                self.input_mode = InputMode::Normal;
                let action = if key.code == KeyCode::Enter && self.message_box.accepted() {
                    Action::Save
                } else {
                    Action::Nothing
                };
                self.message_box.close();
                action
            },
            _ => Action::Nothing,
        }
    }

    fn handle_quitting_key(&mut self, key: &KeyEvent) -> (action: Action)
        requires
            old(self).wf(),
            old(self)@.mode == InputMode::Quitting,
        ensures
            final(self)@ == old(self)@.after_quitting_key(*key),
            action == old(self)@.mode_action(*key),
            final(self).wf(),
    {
        match key.code {
            KeyCode::Esc => {
                self.input_mode = InputMode::Normal;
                self.message_box.close();
                Action::Nothing
            },
            KeyCode::Enter => {
                let action = if self.message_box.accepted() {
                    Action::Save
                } else {
                    Action::Nothing
                };
                self.quit = true;
                action
            },
            _ => Action::Nothing,
        }
    }

    /// Shows the key to the popup of the mode in force: to the message box
    /// in a mode that asks a question, to the line input while a title is
    /// typed.
    fn show_to_popup(&mut self, key: &KeyEvent)
        requires
            old(self).wf(),
        ensures
            final(self)@ == old(self)@.after_popup_input(*key),
            final(self).wf(),
    {
        match mode_popup(self.input_mode) {
            Some(Popup::MessageBox) => {
                self.message_box.process_input(key);
            },
            Some(Popup::LineInput) => {
                self.line_input.process_input(key);
            },
            None => {},
        }
    }

    /// Whether the popup of the mode in force still waits for the key that
    /// opens it.
    pub fn popup_waits(&self) -> (waits: bool)
        ensures
            waits == self@.popup_waits(),
    {
        match mode_popup(self.input_mode) {
            Some(Popup::MessageBox) => !self.message_box.is_visible(),
            Some(Popup::LineInput) => !self.line_input.is_visible(),
            None => false,
        }
    }

    /// Takes one key. With `stamps` given, a task that the key makes is
    /// stamped with them; without, with the time of the clock, which is read
    /// for such a key only. Says, beside what the caller has to do, which
    /// stamps the task has.
    fn handle_key(&mut self, key: &KeyEvent, stamps: Option<(Timestamp, Timestamp)>) -> (r: (
        Action,
        Ghost<(Timestamp, Timestamp)>,
    ))
        requires
            old(self).wf(),
        ensures
            final(self)@ == old(self)@.after_key(*key, r.1@.0, r.1@.1),
            r.0 == old(self)@.action_on_key(*key),
            final(self).wf(),
            stamps matches Some(given) ==> r.1@ == given,
            r.0 matches Action::Edit(index) ==> index < final(self)@.tasks.tasks.len(),
            old(self)@.titled() ==> final(self)@.titled(),
    {
        let given: Ghost<(Timestamp, Timestamp)> = Ghost(stamps_or_none(stamps));
        let r = if self.popup_waits() {
            self.show_to_popup(key);
            (Action::Nothing, given)
        } else {
            match self.input_mode {
                InputMode::Normal => {
                    let action = self.handle_normal_key(key);
                    if self.input_mode == InputMode::Insert {
                        self.show_to_popup(key);
                    }
                    (action, given)
                },
                InputMode::Insert => {
                    let r = self.handle_insert_key(key, stamps);
                    self.show_to_popup(key);
                    r
                },
                InputMode::Deleting => {
                    let action = self.handle_deleting_key(key);
                    self.show_to_popup(key);
                    (action, given)
                },
                InputMode::Saving => {
                    let action = self.handle_saving_key(key);
                    self.show_to_popup(key);
                    (action, given)
                },
                InputMode::Quitting => {
                    let action = self.handle_quitting_key(key);
                    self.show_to_popup(key);
                    (action, given)
                },
            }
        };
        proof {
            if old(self)@.titled() {
                lemma_key_keeps_titles(old(self)@, *key, r.1@.0, r.1@.1);
            }
        }
        r
    }

    /// Takes one key and says what the caller has to do. The two times stamp
    /// a task if the key makes one.
    ///
    /// A popup that is not open yet takes the key as the one that opens it;
    /// no other key is acted on before. An edit is asked for only for a task
    /// that exists.
    pub fn handle_key_event_at(
        &mut self,
        key: &KeyEvent,
        created_at: Timestamp,
        modified_at: Timestamp,
    ) -> (action: Action)
        requires
            old(self).wf(),
        ensures
            final(self)@ == old(self)@.after_key(*key, created_at, modified_at),
            action == old(self)@.action_on_key(*key),
            final(self).wf(),
            action matches Action::Edit(index) ==> index < final(self)@.tasks.tasks.len(),
            old(self)@.titled() ==> final(self)@.titled(),
    {
        self.handle_key(key, Some((created_at, modified_at))).0
    }

    /// Takes one key and says what the caller has to do. A task that the key
    /// makes is stamped with the time of the clock, read once for each of
    /// its two stamps. No other key reads the clock.
    pub fn handle_key_event(&mut self, key: &KeyEvent) -> (action: Action)
        requires
            old(self).wf(),
        ensures
            exists|created_at: Timestamp, modified_at: Timestamp|
                final(self)@ == #[trigger] old(self)@.after_key(*key, created_at, modified_at),
            action == old(self)@.action_on_key(*key),
            final(self).wf(),
            action matches Action::Edit(index) ==> index < final(self)@.tasks.tasks.len(),
            old(self)@.titled() ==> final(self)@.titled(),
    {
        let r = self.handle_key(key, None);
        assert(self@ == old(self)@.after_key(*key, r.1@.0, r.1@.1));
        r.0
    }

    /// Takes one event. The stamps are those of `handle_key`.
    fn handle_event(&mut self, event: Event, stamps: Option<(Timestamp, Timestamp)>) -> (r: (
        Step,
        Ghost<(Timestamp, Timestamp)>,
    ))
        requires
            old(self).wf(),
        ensures
            final(self)@ == old(self)@.after_event(event, r.1@.0, r.1@.1),
            r.0 == old(self)@.step_on_event(event),
            final(self).wf(),
            stamps matches Some(given) ==> r.1@ == given,
            r.0.action matches Action::Edit(index) ==> index < final(self)@.tasks.tasks.len(),
            old(self)@.titled() ==> final(self)@.titled(),
    {
        let given: Ghost<(Timestamp, Timestamp)> = Ghost(stamps_or_none(stamps));
        match event {
            Event::Draw => {
                if self.log_message_duration == MAX_LOG_DURATION {
                    self.log_message = String::new();
                }
                if !self.log_message.as_str().is_empty() {
                    self.log_message_duration += 1;
                }
                (Step { action: Action::Nothing, draw: true }, given)
            },
            Event::Key(TerminalEvent::Key(key)) => {
                let r = self.handle_key(&key, stamps);
                (Step { action: r.0, draw: true }, r.1)
            },
            Event::Key(TerminalEvent::Other) => {
                (Step { action: Action::Nothing, draw: false }, given)
            },
        }
    }

    /// Takes one event and says what the caller has to do. The two times
    /// stamp a task if the event makes one.
    pub fn on_event_at(
        &mut self,
        event: Event,
        created_at: Timestamp,
        modified_at: Timestamp,
    ) -> (step: Step)
        requires
            old(self).wf(),
        ensures
            final(self)@ == old(self)@.after_event(event, created_at, modified_at),
            step == old(self)@.step_on_event(event),
            final(self).wf(),
            step.action matches Action::Edit(index) ==> index < final(self)@.tasks.tasks.len(),
            old(self)@.titled() ==> final(self)@.titled(),
    {
        self.handle_event(event, Some((created_at, modified_at))).0
    }

    /// Takes one event and says what the caller has to do. A task that the
    /// event makes is stamped with the time of the clock; no other event
    /// reads the clock.
    pub fn on_event(&mut self, event: Event) -> (step: Step)
        requires
            old(self).wf(),
        ensures
            exists|created_at: Timestamp, modified_at: Timestamp|
                final(self)@ == #[trigger] old(self)@.after_event(event, created_at, modified_at),
            step == old(self)@.step_on_event(event),
            final(self).wf(),
            step.action matches Action::Edit(index) ==> index < final(self)@.tasks.tasks.len(),
            old(self)@.titled() ==> final(self)@.titled(),
    {
        let r = self.handle_event(event, None);
        assert(self@ == old(self)@.after_event(event, r.1@.0, r.1@.1));
        r.0
    }

    /// Takes note of how a save went: the log bar says so, and after a save
    /// that went well nothing is left to save.
    pub fn save_finished(&mut self, outcome: Result<(), String>)
        requires
            old(self).wf(),
        ensures
            final(self)@ == old(self)@.after_save(
                match outcome {
                    Ok(_) => Ok(()),
                    Err(message) => Err(message@),
                },
            ),
            final(self).wf(),
    {
        match outcome {
            Ok(_) => {
                self.log("Saved".to_owned());
                self.dirty = false;
            },
            Err(message) => {
                self.log(message);
            },
        }
    }

    /// Takes the projects that were read from disk, gives them the focus and
    /// brings the task list up to date. Where nothing could be read the
    /// application stays as it is.
    pub fn import_projects(&mut self, loaded: Option<ProjectContainer>)
        requires
            old(self).wf(),
            loaded matches Some(projects) ==> projects.wf(),
        ensures
            final(self)@ == old(self)@.after_import(
                match loaded {
                    Some(projects) => Some(projects@),
                    None => None,
                },
            ),
            final(self).wf(),
    {
        match loaded {
            Some(projects) => {
                self.projects = projects;
                self.projects.set_focus(true);
                self.tasks.set_focus(false);
                self.update_tasks();
            },
            None => {},
        }
    }
}

/// The key that turns the `done` flag of the task under the cursor, pressed
/// twice, leaves every project and task as it was. All that stays is the
/// note that something was changed.
pub proof fn lemma_toggle_key_twice(
    s: AppView,
    key: KeyEvent,
    created_at: Timestamp,
    modified_at: Timestamp,
)
    requires
        s.wf(),
        s.mode == InputMode::Normal,
        key.code == KeyCode::Char('d'),
    ensures
        s.after_key(key, created_at, modified_at).after_key(key, created_at, modified_at) == (
        AppView { dirty: s.dirty || s.tasks.focused, ..s }),
{
    let once = s.after_key(key, created_at, modified_at);
    let twice = once.after_key(key, created_at, modified_at);
    if s.tasks.focused && s.tasks.selected < s.tasks.tasks.len() {
        let i = s.tasks.selected as int;
        let p = s.current_project();
        crate::project::lemma_toggle_twice(p, i);
        assert(once.current_project() == p.with_task_toggled(i));
        assert(once.tasks =~= TaskContainerView { tasks: p.with_task_toggled(i).tasks, ..s.tasks });
        assert(twice.projects =~= s.projects);
        assert(twice.tasks =~= s.tasks);
    }
    assert(twice =~= AppView { dirty: s.dirty || s.tasks.focused, ..s });
}

/// An event leaves the application in order: each cursor inside its list,
/// the focus on exactly one of the two lists, the task list up to date, and
/// each popup closed outside its mode.
pub proof fn lemma_event_keeps_order(
    s: AppView,
    event: Event,
    created_at: Timestamp,
    modified_at: Timestamp,
)
    requires
        s.wf(),
    ensures
        s.after_event(event, created_at, modified_at).wf(),
{
    match event {
        Event::Key(TerminalEvent::Key(key)) => {
            lemma_key_keeps_order(s, key, created_at, modified_at);
        },
        _ => {},
    }
}

/// A key leaves the application in order.
pub proof fn lemma_key_keeps_order(
    s: AppView,
    key: KeyEvent,
    created_at: Timestamp,
    modified_at: Timestamp,
)
    requires
        s.wf(),
    ensures
        s.after_key(key, created_at, modified_at).wf(),
{
}

/// The first key that reaches a popup only opens it. Whatever the key is,
/// confirm and back among them, the popup is open afterwards and nothing else
/// has changed: not the mode, not what is to be saved, not the answer under
/// the cursor, not a project; and nothing is asked of the caller.
pub proof fn lemma_first_key_only_opens(
    s: AppView,
    key: KeyEvent,
    created_at: Timestamp,
    modified_at: Timestamp,
)
    requires
        s.popup_waits(),
    ensures
        s.after_key(key, created_at, modified_at) == s.with_popup_opened(),
        !s.after_key(key, created_at, modified_at).popup_waits(),
        s.action_on_key(key) == Action::Nothing,
        s.step_on_event(Event::Key(TerminalEvent::Key(key))).action == Action::Nothing,
        ({
            let t = s.after_key(key, created_at, modified_at);
            &&& t.mode == s.mode
            &&& t.dirty == s.dirty
            &&& t.quit == s.quit
            &&& t.projects == s.projects
            &&& t.tasks == s.tasks
            &&& t.message_box.selected == s.message_box.selected
            &&& t.message_box.question == s.message_box.question
            &&& t.line_input.input == s.line_input.input
        }),
{
}

/// The key that asks a question leaves the message box closed, so that the
/// next key is the one that opens it. The key that starts the typing of a
/// title opens the line input at once.
pub proof fn lemma_key_that_leaves_normal_mode(
    s: AppView,
    key: KeyEvent,
    created_at: Timestamp,
    modified_at: Timestamp,
)
    requires
        s.wf(),
        s.mode == InputMode::Normal,
    ensures
        ({
            let t = s.after_key(key, created_at, modified_at);
            &&& t.mode.asks() ==> {
                &&& !t.message_box.visible
                &&& t.popup_waits()
                &&& t.message_box.selected == Button::No
            }
            &&& t.mode == InputMode::Insert ==> {
                &&& t.line_input.visible
                &&& !t.popup_waits()
                &&& t.line_input.input.len() == 0
            }
        }),
{
}

/// The application starts in order.
pub proof fn lemma_start_is_in_order()
    ensures
        AppView::initial().wf(),
{
}

/// Whatever events come, in whatever order, the application that started in
/// order stays in order.
pub proof fn lemma_events_keep_order(s: AppView, events: Seq<(Event, Timestamp, Timestamp)>)
    requires
        s.wf(),
    ensures
        s.after_events(events).wf(),
    decreases events.len(),
{
    if events.len() > 0 {
        lemma_events_keep_order(s, events.drop_last());
        lemma_event_keeps_order(
            s.after_events(events.drop_last()),
            events.last().0,
            events.last().1,
            events.last().2,
        );
    }
}

/// What was changed stays changed, and who has asked to leave has asked: no
/// key and no tick takes back the note that something is to be saved, nor
/// the request to leave.
pub proof fn lemma_events_keep_notes(
    s: AppView,
    event: Event,
    created_at: Timestamp,
    modified_at: Timestamp,
)
    ensures
        s.dirty ==> s.after_event(event, created_at, modified_at).dirty,
        s.quit ==> s.after_event(event, created_at, modified_at).quit,
{
}

/// A key leaves no project and no task without a title where there was none
/// before.
pub proof fn lemma_key_keeps_titles(
    s: AppView,
    key: KeyEvent,
    created_at: Timestamp,
    modified_at: Timestamp,
)
    requires
        s.wf(),
        s.titled(),
    ensures
        s.after_key(key, created_at, modified_at).titled(),
{
    let t = s.after_key(key, created_at, modified_at);
    assert forall|i: int| 0 <= i < t.projects.projects.len() implies {
        &&& (#[trigger] t.projects.projects[i]).title.len() > 0
        &&& forall|j: int|
            0 <= j < t.projects.projects[i].tasks.len() ==> (
            #[trigger] t.projects.projects[i].tasks[j]).title.len() > 0
    } by {
        lemma_key_keeps_title(s, key, created_at, modified_at, i);
    }
}

proof fn lemma_key_keeps_title(
    s: AppView,
    key: KeyEvent,
    created_at: Timestamp,
    modified_at: Timestamp,
    i: int,
)
    requires
        s.wf(),
        s.titled(),
        0 <= i < s.after_key(key, created_at, modified_at).projects.projects.len(),
    ensures
        ({
            let t = s.after_key(key, created_at, modified_at);
            &&& t.projects.projects[i].title.len() > 0
            &&& forall|j: int|
                0 <= j < t.projects.projects[i].tasks.len() ==> (
                #[trigger] t.projects.projects[i].tasks[j]).title.len() > 0
        }),
{
    let t = s.after_key(key, created_at, modified_at);
    let sel = s.projects.selected as int;
    if t.projects.projects.len() == s.projects.projects.len() - 1 {
        let k = if i < sel { i } else { i + 1 };
        assert(t.projects.projects[i] == s.projects.projects[k]);
    } else if t.projects.projects.len() == s.projects.projects.len() + 1 {
        if i < s.projects.projects.len() {
            assert(t.projects.projects[i] == s.projects.projects[i]);
        }
    } else {
        if i != sel {
            assert(t.projects.projects[i] == s.projects.projects[i]);
        } else {
            let p = s.projects.projects[i];
            let q = t.projects.projects[i];
            assert(q.title == p.title);
            assert forall|j: int| 0 <= j < q.tasks.len() implies (#[trigger] q.tasks[j]).title.len()
                > 0 by {
                if q.tasks.len() == p.tasks.len() + 1 {
                    if j < p.tasks.len() {
                        assert(q.tasks[j] == p.tasks[j]);
                    }
                } else if q.tasks.len() == p.tasks.len() - 1 {
                    let k = if j < s.tasks.selected { j } else { j + 1 };
                    assert(q.tasks[j] == p.tasks[k]);
                } else {
                    assert(q.tasks[j].title == p.tasks[j].title);
                }
            }
        }
    }
}

} // verus!
