//! Projects, and the list of all projects.

use vstd::prelude::*;
use vstd::string::StringExecFns;
use crate::clock::{now, Timestamp};
use crate::draw::TextStyle;
use crate::selection::{
    clamp_index, index_above, index_after_removal, index_below, index_clamped, move_index_down,
    move_index_up, selection_valid,
};
use crate::task::{copy_tasks, task_views, Task, TaskView};
use crate::text::{decimal, decimal_of};
use crate::widgets::ContainerWidget;

verus! {

/// A project: a title and the tasks under it, in the order in which they were
/// added.
#[derive(Debug, PartialEq, Eq)]
pub struct Project {
    pub title: String,
    pub tasks: Vec<Task>,
    pub done: bool,
}

/// What a project holds.
#[verifier::ext_equal]
pub struct ProjectView {
    pub title: Seq<char>,
    pub tasks: Seq<TaskView>,
    pub done: bool,
}

impl ProjectView {
    /// A project as it is when it is created: not done, and without tasks.
    pub open spec fn fresh(title: Seq<char>) -> ProjectView {
        ProjectView { title, tasks: Seq::empty(), done: false }
    }

    /// The project with one more task at the end.
    pub open spec fn with_task(self, task: TaskView) -> ProjectView {
        ProjectView { tasks: self.tasks.push(task), ..self }
    }

    /// The project without the task at `index`. A project without tasks stays
    /// as it is.
    pub open spec fn without_task(self, index: int) -> ProjectView {
        if self.tasks.len() == 0 {
            self
        } else {
            ProjectView { tasks: self.tasks.remove(index), ..self }
        }
    }

    /// The project with the `done` flag of the task at `index` turned over.
    pub open spec fn with_task_toggled(self, index: int) -> ProjectView {
        ProjectView { tasks: self.tasks.update(index, self.tasks[index].toggled()), ..self }
    }

    /// The project with other content in the task at `index`.
    pub open spec fn with_task_content(self, index: int, content: Seq<char>) -> ProjectView {
        ProjectView {
            tasks: self.tasks.update(index, self.tasks[index].with_content(content)),
            ..self
        }
    }
}

impl View for Project {
    type V = ProjectView;

    open spec fn view(&self) -> ProjectView {
        ProjectView { title: self.title@, tasks: task_views(self.tasks@), done: self.done }
    }
}

impl Clone for Project {
    fn clone(&self) -> (r: Project)
        ensures
            r@ == self@,
    {
        Project { title: self.title.clone(), tasks: copy_tasks(&self.tasks), done: self.done }
    }
}

impl Project {
    /// A project without tasks.
    pub fn new(title: String) -> (r: Project)
        ensures
            r@ == ProjectView::fresh(title@),
    {
        let r = Project { title, tasks: Vec::new(), done: false };
        assert(task_views(r.tasks@) =~= Seq::empty());
        r
    }

    /// Appends a task that is not done and has no content, stamped with the
    /// time at which it is made. The clock is read once for each of the two
    /// stamps.
    pub fn add_task(&mut self, task_title: String)
        ensures
            exists|created_at: Timestamp, modified_at: Timestamp|
                final(self)@ == old(self)@.with_task(
                    #[trigger] TaskView::fresh(task_title@, created_at, modified_at),
                ),
    {
        let created_at = now();
        let modified_at = now();
        self.add_task_at(task_title, created_at, modified_at);
        assert(self@ == old(self)@.with_task(
            TaskView::fresh(task_title@, created_at, modified_at),
        ));
    }

    /// Appends a task that is not done and has no content, with the two
    /// stamps given.
    pub fn add_task_at(&mut self, task_title: String, created_at: Timestamp, modified_at: Timestamp)
        ensures
            final(self)@ == old(self)@.with_task(
                TaskView::fresh(task_title@, created_at, modified_at),
            ),
    {
        let content = String::new();
        self.tasks.push(Task { title: task_title, content, created_at, modified_at, done: false });
        assert(task_views(self.tasks@) =~= task_views(old(self).tasks@).push(
            TaskView::fresh(task_title@, created_at, modified_at),
        ));
    }

    /// Removes the task at `task_index`. Does nothing to a project without
    /// tasks.
    pub fn remove_selected_task(&mut self, task_index: usize)
        requires
            old(self).tasks.len() == 0 || task_index < old(self).tasks.len(),
        ensures
            final(self)@ == old(self)@.without_task(task_index as int),
    {
        if !self.tasks.is_empty() {
            self.tasks.remove(task_index);
            assert(task_views(self.tasks@) =~= task_views(old(self).tasks@).remove(
                task_index as int,
            ));
        }
    }

    /// Turns over the `done` flag of the task at `task_index`.
    pub fn toggle_task_done(&mut self, task_index: usize)
        requires
            task_index < old(self).tasks.len(),
        ensures
            final(self)@ == old(self)@.with_task_toggled(task_index as int),
    {
        let done = self.tasks[task_index].done;
        self.tasks[task_index].done = !done;
        assert(task_views(self.tasks@) =~= task_views(old(self).tasks@).update(
            task_index as int,
            task_views(old(self).tasks@)[task_index as int].toggled(),
        ));
    }

    /// Takes back what the editor made of the task at `task_index`: the text
    /// that it left becomes the task's content, and where it left none the
    /// content stays. Says whether there was a task to edit: a project
    /// without tasks has none, and stays as it is.
    pub fn edit_task(&mut self, task_index: usize, edited: Option<String>) -> (had_task: bool)
        requires
            old(self).tasks.len() == 0 || task_index < old(self).tasks.len(),
        ensures
            had_task == (old(self).tasks.len() > 0),
            final(self)@ == (match edited {
                Some(text) if had_task => old(self)@.with_task_content(task_index as int, text@),
                _ => old(self)@,
            }),
    {
        if self.tasks.is_empty() {
            return false;
        }
        match edited {
            Some(text) => self.set_task_content(task_index, text),
            None => {},
        }
        true
    }

    /// Replaces the content of the task at `task_index`.
    pub fn set_task_content(&mut self, task_index: usize, content: String)
        requires
            task_index < old(self).tasks.len(),
        ensures
            final(self)@ == old(self)@.with_task_content(task_index as int, content@),
    {
        self.tasks[task_index].content = content;
        assert(task_views(self.tasks@) =~= task_views(old(self).tasks@).update(
            task_index as int,
            task_views(old(self).tasks@)[task_index as int].with_content(content@),
        ));
    }
}

/// How a project is written in the list: its place, counted from 0, a colon
/// and a space, and its title.
pub open spec fn project_label(index: nat, title: Seq<char>) -> Seq<char> {
    decimal_of(index) + ": "@ + title
}

/// What each project of a list holds, in the order of the list.
pub open spec fn project_views(projects: Seq<Project>) -> Seq<ProjectView> {
    projects.map_values(|p: Project| p@)
}

/// The list of all projects, with a cursor on one of them.
#[derive(Debug, PartialEq, Eq)]
pub struct ProjectContainer {
    projects: Vec<Project>,
    selected: usize,
    focused: bool,
}

/// What a project list holds.
#[verifier::ext_equal]
pub struct ProjectContainerView {
    pub projects: Seq<ProjectView>,
    pub selected: nat,
    pub focused: bool,
}

impl ProjectContainerView {
    /// The cursor points at a project, or rests at 0 on an empty list.
    pub open spec fn wf(self) -> bool {
        selection_valid(self.selected, self.projects.len())
    }

    /// The project under the cursor.
    pub open spec fn current(self) -> Option<ProjectView> {
        if self.selected < self.projects.len() {
            Some(self.projects[self.selected as int])
        } else {
            None
        }
    }

    /// The tasks of the project under the cursor; none where there is no
    /// project.
    pub open spec fn current_tasks(self) -> Seq<TaskView> {
        match self.current() {
            Some(p) => p.tasks,
            None => Seq::empty(),
        }
    }

    /// The list with another project in the place of the one under the
    /// cursor.
    pub open spec fn with_current(self, project: ProjectView) -> ProjectContainerView {
        ProjectContainerView {
            projects: self.projects.update(self.selected as int, project),
            ..self
        }
    }

    /// The list with a new project at its end and the cursor on it. A project
    /// without a title is not added.
    pub open spec fn with_project(self, title: Seq<char>) -> ProjectContainerView {
        if title.len() == 0 {
            self
        } else {
            ProjectContainerView {
                projects: self.projects.push(ProjectView::fresh(title)),
                selected: self.projects.len(),
                ..self
            }
        }
    }

    /// The list without the project under the cursor. The cursor goes to 0
    /// from 0 and from 1, else one project up.
    pub open spec fn without_selected(self) -> ProjectContainerView {
        if self.projects.len() == 0 {
            self
        } else {
            ProjectContainerView {
                projects: self.projects.remove(self.selected as int),
                selected: index_after_removal(self.selected),
                ..self
            }
        }
    }

    /// The list with the cursor one project up.
    pub open spec fn moved_up(self) -> ProjectContainerView {
        ProjectContainerView { selected: index_above(self.selected, self.projects.len()), ..self }
    }

    /// The list with the cursor one project down.
    pub open spec fn moved_down(self) -> ProjectContainerView {
        ProjectContainerView { selected: index_below(self.selected, self.projects.len()), ..self }
    }

    /// The list with or without the focus.
    pub open spec fn with_focus(self, focused: bool) -> ProjectContainerView {
        ProjectContainerView { focused, ..self }
    }

    /// The list made of three parts. A cursor that would point outside the
    /// projects is held inside them: on the last project, or at 0 where there
    /// is no project.
    pub open spec fn from_parts(
        projects: Seq<ProjectView>,
        selected: nat,
        focused: bool,
    ) -> ProjectContainerView {
        ProjectContainerView {
            projects,
            selected: index_clamped(selected, projects.len()),
            focused,
        }
    }
}

impl View for ProjectContainer {
    type V = ProjectContainerView;

    closed spec fn view(&self) -> ProjectContainerView {
        ProjectContainerView {
            projects: project_views(self.projects@),
            selected: self.selected as nat,
            focused: self.focused,
        }
    }
}

impl ProjectContainer {
    /// The cursor points at a project, or rests at 0 on an empty list.
    pub open spec fn wf(&self) -> bool {
        self@.wf()
    }

    /// Whether the cursor points at a project, or rests at 0 on an empty
    /// list.
    pub fn is_well_formed(&self) -> (ok: bool)
        ensures
            ok == self.wf(),
    {
        if self.projects.len() == 0 {
            self.selected == 0
        } else {
            self.selected < self.projects.len()
        }
    }

    /// An empty list.
    pub fn new(focused: bool) -> (r: ProjectContainer)
        ensures
            r@ == (ProjectContainerView { projects: Seq::empty(), selected: 0, focused }),
            r.wf(),
    {
        let r = ProjectContainer { projects: Vec::new(), selected: 0, focused };
        assert(project_views(r.projects@) =~= Seq::empty());
        r
    }

    /// A list made of its three parts. Every project is kept. A cursor that
    /// would point outside the projects is held inside them: on the last
    /// project, or at 0 where there is no project.
    pub fn from_parts(
        projects: Vec<Project>,
        selected: usize,
        focused: bool,
    ) -> (r: ProjectContainer)
        ensures
            r@ == ProjectContainerView::from_parts(
                project_views(projects@),
                selected as nat,
                focused,
            ),
            r.wf(),
    {
        let selected = clamp_index(selected, projects.len());
        ProjectContainer { projects, selected, focused }
    }

    /// The projects, first to last.
    pub fn projects(&self) -> (projects: &Vec<Project>)
        ensures
            project_views(projects@) == self@.projects,
    {
        &self.projects
    }

    /// The index of the project under the cursor.
    pub fn selected(&self) -> (i: usize)
        ensures
            i == self@.selected,
    {
        self.selected
    }

    /// How many projects the list holds.
    pub fn len(&self) -> (n: usize)
        ensures
            n == self@.projects.len(),
    {
        self.projects.len()
    }

    /// The rows of the list as they are written, one for each project: what
    /// the row says, and how it looks. The row under the cursor is black on
    /// white.
    pub fn rows(&self) -> (rows: Vec<(String, TextStyle)>)
        ensures
            rows@.len() == self@.projects.len(),
            forall|i: int|
                0 <= i < rows@.len() ==> (#[trigger] rows@[i]).0@ == project_label(
                    i as nat,
                    self@.projects[i].title,
                ) && rows@[i].1 == TextStyle::item_style(i == self@.selected),
    {
        let mut rows: Vec<(String, TextStyle)> = Vec::new();
        let mut i: usize = 0;
        while i < self.projects.len()
            invariant
                i <= self.projects.len(),
                rows@.len() == i,
                forall|j: int|
                    0 <= j < i ==> (#[trigger] rows@[j]).0@ == project_label(
                        j as nat,
                        self@.projects[j].title,
                    ) && rows@[j].1 == TextStyle::item_style(j == self@.selected),
            decreases self.projects.len() - i,
        {
            let mut label = decimal(i);
            label.append(": ");
            label.append(self.projects[i].title.as_str());
            rows.push((label, TextStyle::item(i == self.selected)));
            i += 1;
        }
        rows
    }

    /// Appends a project without tasks and puts the cursor on it. A project
    /// without a title is not added.
    pub fn add_project(&mut self, project_name: String)
        requires
            old(self).wf(),
        ensures
            final(self)@ == old(self)@.with_project(project_name@),
            final(self).wf(),
    {
        if !project_name.as_str().is_empty() {
            self.projects.push(Project::new(project_name));
            self.selected = self.projects.len() - 1;
            assert(project_views(self.projects@) =~= project_views(old(self).projects@).push(
                ProjectView::fresh(project_name@),
            ));
        }
    }

    /// Removes the project under the cursor. The cursor goes to 0 from 0 and
    /// from 1, else one project up. Does nothing to an empty list.
    pub fn remove_selected_project(&mut self)
        requires
            old(self).wf(),
        ensures
            final(self)@ == old(self)@.without_selected(),
            final(self).wf(),
    {
        if !self.projects.is_empty() {
            let selected = self.selected;
            if self.selected <= 1 {
                self.selected = 0;
            } else {
                self.selected -= 1;
            }
            self.projects.remove(selected);
            assert(project_views(self.projects@) =~= project_views(old(self).projects@).remove(
                selected as int,
            ));
        }
    }

    /// The project under the cursor, to read.
    pub fn current(&self) -> (r: Option<&Project>)
        ensures
            match r {
                Some(p) => self@.current() == Some(p@),
                None => self@.current() is None,
            },
    {
        if self.selected < self.projects.len() {
            Some(&self.projects[self.selected])
        } else {
            None
        }
    }

    /// The project under the cursor, to change. What is done to it is done to
    /// the project in the list.
    pub fn current_project(&mut self) -> (r: Option<&mut Project>)
        ensures
            match r {
                Some(p) => old(self)@.current() == Some((*p)@) && final(self)@ == old(
                    self,
                )@.with_current((*final(p))@),
                None => old(self)@.current() is None && final(self)@ == old(self)@,
            },
    {
        if self.selected < self.projects.len() {
            let ghost selected = self.selected as int;
            let ghost before = self.projects@;
            let p = &mut self.projects[self.selected];
            proof {
                assert(project_views(before.update(selected, *final(p))) =~= project_views(
                    before,
                ).update(selected, (*final(p))@));
            }
            Some(p)
        } else {
            None
        }
    }
}

impl ContainerWidget for ProjectContainer {
    open spec fn item_count(&self) -> nat {
        self@.projects.len()
    }

    open spec fn cursor(&self) -> nat {
        self@.selected
    }

    open spec fn focus(&self) -> bool {
        self@.focused
    }

    open spec fn same_items(&self, other: &Self) -> bool {
        self@.projects == other@.projects
    }

    fn move_up(&mut self)
        ensures
            final(self)@ == old(self)@.moved_up(),
    {
        self.selected = move_index_up(self.selected, self.projects.len());
    }

    fn move_down(&mut self)
        ensures
            final(self)@ == old(self)@.moved_down(),
    {
        self.selected = move_index_down(self.selected, self.projects.len());
    }

    fn is_focused(&self) -> (focused: bool) {
        self.focused
    }

    fn toogle_focus(&mut self)
        ensures
            final(self)@ == old(self)@.with_focus(!old(self)@.focused),
    {
        self.focused = !self.focused;
    }

    fn set_focus(&mut self, focus: bool)
        ensures
            final(self)@ == old(self)@.with_focus(focus),
    {
        self.focused = focus;
    }
}

/// Turning the `done` flag of a task over twice leaves the project as it
/// was.
pub proof fn lemma_toggle_twice(p: ProjectView, index: int)
    requires
        0 <= index < p.tasks.len(),
    ensures
        p.with_task_toggled(index).with_task_toggled(index) == p,
{
    assert(p.with_task_toggled(index).with_task_toggled(index) =~= p);
}

/// Removing the project under the cursor puts the cursor at 0 when it was at
/// 0 or at 1, and one project up when it was further down.
pub proof fn lemma_removal_rule(c: ProjectContainerView)
    requires
        c.wf(),
        c.projects.len() > 0,
    ensures
        c.selected <= 1 ==> c.without_selected().selected == 0,
        c.selected > 1 ==> c.without_selected().selected == c.selected - 1,
        c.without_selected().projects.len() == c.projects.len() - 1,
        c.without_selected().wf(),
{
}

/// Taken apart and put together again, a list of projects is the list it
/// was: its projects, each with its title, its tasks and its flag, the place
/// of the cursor, and the focus.
pub proof fn lemma_parts_make_the_list(c: ProjectContainerView)
    requires
        c.wf(),
    ensures
        ProjectContainerView::from_parts(c.projects, c.selected, c.focused) == c,
{
}

/// Whatever its parts, a list put together has its cursor inside, and holds
/// every project that it was given.
pub proof fn lemma_parts_make_a_list(projects: Seq<ProjectView>, selected: nat, focused: bool)
    ensures
        ProjectContainerView::from_parts(projects, selected, focused).wf(),
        ProjectContainerView::from_parts(projects, selected, focused).projects == projects,
        ProjectContainerView::from_parts(projects, selected, focused).focused == focused,
        selection_valid(selected, projects.len()) ==> ProjectContainerView::from_parts(
            projects,
            selected,
            focused,
        ).selected == selected,
{
}

} // verus!
