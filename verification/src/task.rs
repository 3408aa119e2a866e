//! Tasks, and the list that shows the tasks of one project.

use vstd::prelude::*;
use crate::clock::{format_local, Timestamp};
use crate::draw::{emit, op_views, DrawOp, DrawOpView, TextStyle};
use crate::project::Project;
use crate::selection::{
    clamp_index, index_above, index_below, index_clamped, move_index_down, move_index_up,
    selection_valid,
};
use crate::text::{ended_lines, lines_of, pieces_of, split_lines, text_views, wrap_line};
use crate::utils::{
    border, border_ops, build_row, cell_views, go_to_next_line_in_area, lemma_ascii_byte_len,
    lower_half, next_line_ops, reset_cursor_in_area, row_text, split_rect_by_height, upper_half,
    Rect,
};
use crate::widgets::{ContainerWidget, Widget};

verus! {

/// One thing to do.
#[derive(Debug, PartialEq, Eq)]
pub struct Task {
    pub title: String,
    pub content: String,
    pub created_at: Timestamp,
    pub modified_at: Timestamp,
    pub done: bool,
}

/// What a task holds.
#[verifier::ext_equal]
pub struct TaskView {
    pub title: Seq<char>,
    pub content: Seq<char>,
    pub created_at: Timestamp,
    pub modified_at: Timestamp,
    pub done: bool,
}

impl TaskView {
    /// A task as it is when it is created: not done, and without content.
    pub open spec fn fresh(
        title: Seq<char>,
        created_at: Timestamp,
        modified_at: Timestamp,
    ) -> TaskView {
        TaskView { title, content: Seq::empty(), created_at, modified_at, done: false }
    }

    /// The task with its `done` flag turned over.
    pub open spec fn toggled(self) -> TaskView {
        TaskView { done: !self.done, ..self }
    }

    /// The task with other content.
    pub open spec fn with_content(self, content: Seq<char>) -> TaskView {
        TaskView { content, ..self }
    }
}

impl View for Task {
    type V = TaskView;

    open spec fn view(&self) -> TaskView {
        TaskView {
            title: self.title@,
            content: self.content@,
            created_at: self.created_at,
            modified_at: self.modified_at,
            done: self.done,
        }
    }
}

impl Clone for Task {
    fn clone(&self) -> (r: Task)
        ensures
            r@ == self@,
    {
        Task {
            title: self.title.clone(),
            content: self.content.clone(),
            created_at: self.created_at,
            modified_at: self.modified_at,
            done: self.done,
        }
    }
}

impl Task {
    /// Whether two tasks hold the same.
    pub fn same_as(&self, other: &Task) -> (same: bool)
        ensures
            same == (self@ == other@),
    {
        self.title == other.title && self.content == other.content && self.created_at
            == other.created_at && self.modified_at == other.modified_at && self.done == other.done
    }
}

/// What each task of a list holds, in the order of the list.
pub open spec fn task_views(tasks: Seq<Task>) -> Seq<TaskView> {
    tasks.map_values(|t: Task| t@)
}

/// A copy of a list of tasks.
pub fn copy_tasks(tasks: &Vec<Task>) -> (r: Vec<Task>)
    ensures
        task_views(r@) == task_views(tasks@),
{
    let r = tasks.clone();
    assert(task_views(r@) =~= task_views(tasks@));
    r
}

/// Whether two lists hold the same tasks in the same order.
pub fn same_tasks(a: &Vec<Task>, b: &Vec<Task>) -> (same: bool)
    ensures
        same == (task_views(a@) == task_views(b@)),
{
    if a.len() != b.len() {
        assert(task_views(a@).len() != task_views(b@).len());
        return false;
    }
    let mut i: usize = 0;
    while i < a.len()
        invariant
            i <= a.len(),
            a.len() == b.len(),
            forall|j: int| 0 <= j < i ==> (#[trigger] a@[j])@ == b@[j]@,
        decreases a.len() - i,
    {
        if !a[i].same_as(&b[i]) {
            assert(task_views(a@)[i as int] != task_views(b@)[i as int]);
            return false;
        }
        i += 1;
    }
    assert(task_views(a@) =~= task_views(b@));
    true
}

/// Turning a task's `done` flag over twice leaves the task as it was.
pub proof fn lemma_toggle_twice(t: TaskView)
    ensures
        t.toggled().toggled() == t,
{
}

/// The list that shows the tasks of the project under the cursor. It holds a
/// copy of them, not the tasks themselves: after the project's tasks change,
/// `set_project` brings the copy up to date.
#[derive(Debug, PartialEq, Eq)]
pub struct TaskContainer {
    tasks: Vec<Task>,
    selected: usize,
    focused: bool,
}

/// What a task list holds.
#[verifier::ext_equal]
pub struct TaskContainerView {
    pub tasks: Seq<TaskView>,
    pub selected: nat,
    pub focused: bool,
}

impl TaskContainerView {
    /// The cursor points at a task, or rests at 0 on an empty list.
    pub open spec fn wf(self) -> bool {
        selection_valid(self.selected, self.tasks.len())
    }

    /// The list with other tasks in it, and the cursor held inside them.
    pub open spec fn showing(self, tasks: Seq<TaskView>) -> TaskContainerView {
        TaskContainerView { tasks, selected: index_clamped(self.selected, tasks.len()), ..self }
    }

    /// The list with the cursor one task up.
    pub open spec fn moved_up(self) -> TaskContainerView {
        TaskContainerView { selected: index_above(self.selected, self.tasks.len()), ..self }
    }

    /// The list with the cursor one task down.
    pub open spec fn moved_down(self) -> TaskContainerView {
        TaskContainerView { selected: index_below(self.selected, self.tasks.len()), ..self }
    }

    /// The list with or without the focus.
    pub open spec fn with_focus(self, focused: bool) -> TaskContainerView {
        TaskContainerView { focused, ..self }
    }
}

impl View for TaskContainer {
    type V = TaskContainerView;

    closed spec fn view(&self) -> TaskContainerView {
        TaskContainerView {
            tasks: task_views(self.tasks@),
            selected: self.selected as nat,
            focused: self.focused,
        }
    }
}

impl Clone for TaskContainer {
    fn clone(&self) -> (r: TaskContainer)
        ensures
            r@ == self@,
    {
        TaskContainer {
            tasks: copy_tasks(&self.tasks),
            selected: self.selected,
            focused: self.focused,
        }
    }
}

impl TaskContainer {
    /// The cursor points at a task, or rests at 0 on an empty list.
    pub open spec fn wf(&self) -> bool {
        self@.wf()
    }

    /// Whether the cursor points at a task, or rests at 0 on an empty list.
    pub fn is_well_formed(&self) -> (ok: bool)
        ensures
            ok == self.wf(),
    {
        if self.tasks.len() == 0 {
            self.selected == 0
        } else {
            self.selected < self.tasks.len()
        }
    }

    /// An empty list.
    pub fn new(focused: bool) -> (r: TaskContainer)
        ensures
            r@ == (TaskContainerView { tasks: Seq::empty(), selected: 0, focused }),
            r.wf(),
    {
        let r = TaskContainer { tasks: Vec::new(), selected: 0, focused };
        assert(task_views(r.tasks@) =~= Seq::empty());
        r
    }

    /// Shows a copy of the tasks of `project`, or no tasks where there is no
    /// project, and holds the cursor inside the new list.
    pub fn set_project(&mut self, project: Option<&Project>)
        ensures
            final(self)@ == old(self)@.showing(
                match project {
                    Some(p) => p@.tasks,
                    None => Seq::empty(),
                },
            ),
            final(self).wf(),
    {
        self.tasks = match project {
            Some(p) => copy_tasks(&p.tasks),
            None => Vec::new(),
        };
        self.selected = clamp_index(self.selected, self.tasks.len());
        proof {
            if project is None {
                assert(task_views(self.tasks@) =~= Seq::empty());
            }
        }
    }

    /// The index of the task under the cursor.
    pub fn selected(&self) -> (i: usize)
        ensures
            i == self@.selected,
    {
        self.selected
    }

    /// How many tasks the list shows.
    pub fn len(&self) -> (n: usize)
        ensures
            n == self@.tasks.len(),
    {
        self.tasks.len()
    }

    /// The tasks that the list shows.
    pub fn tasks(&self) -> (tasks: &Vec<Task>)
        ensures
            task_views(tasks@) == self@.tasks,
    {
        &self.tasks
    }
}

impl ContainerWidget for TaskContainer {
    open spec fn item_count(&self) -> nat {
        self@.tasks.len()
    }

    open spec fn cursor(&self) -> nat {
        self@.selected
    }

    open spec fn focus(&self) -> bool {
        self@.focused
    }

    open spec fn same_items(&self, other: &Self) -> bool {
        self@.tasks == other@.tasks
    }

    fn move_up(&mut self)
        ensures
            final(self)@ == old(self)@.moved_up(),
    {
        self.selected = move_index_up(self.selected, self.tasks.len());
    }

    fn move_down(&mut self)
        ensures
            final(self)@ == old(self)@.moved_down(),
    {
        self.selected = move_index_down(self.selected, self.tasks.len());
    }

    fn is_focused(&self) -> (focused: bool) {
        self.focused
    }

    fn toogle_focus(&mut self)
        ensures
            final(self)@ == old(self)@.with_focus(!old(self)@.focused),
    {
        self.focused = !self.focused;
    }

    fn set_focus(&mut self, focus: bool)
        ensures
            final(self)@ == old(self)@.with_focus(focus),
    {
        self.focused = focus;
    }
}

/// The width of the column that says whether a task is done.
pub const DONE_COLUMN_SPACE: u16 = 10;

/// The width of the column that says when a task was made.
pub const CREATED_AT_COLUMN_SPACE: u16 = 19;

/// The form in which the time is written at which a task was made.
pub const CREATED_AT_FORMAT: &'static str = "%d.%m.%Y %H:%M:%S";

/// The width of the column of titles in a list that is `width` columns wide:
/// what is left of ninety-five hundredths of the width, rounded down, beside
/// the two other columns.
pub open spec fn title_column_space(width: u16) -> int {
    width * 95 / 100 - CREATED_AT_COLUMN_SPACE - DONE_COLUMN_SPACE
}

/// Ninety-five hundredths of a width, rounded down.
pub fn title_share(width: u16) -> (share: u16)
    ensures
        share == width * 95 / 100,
{
    (width as u32 * 95 / 100) as u16
}

/// Whether an area has room for the task list: two rows at least, 31
/// columns at least, and no place in it beyond what a terminal can have.
pub open spec fn list_fits(area: Rect) -> bool {
    &&& area.height >= 2
    &&& area.y + area.height / 2 + 1 <= u16::MAX
    &&& area.x < u16::MAX
    &&& area.width >= 31
}

/// How the `done` flag is written.
pub open spec fn done_text(done: bool) -> Seq<char> {
    if done {
        "true"@
    } else {
        "false"@
    }
}

/// The row of a task: its title, its flag and the time at which it was
/// made, each in its column.
pub open spec fn task_row(task: TaskView, stamp: Seq<char>, title_space: nat) -> Seq<char> {
    row_text(
        seq![
            (task.title, title_space),
            (done_text(task.done), DONE_COLUMN_SPACE as nat),
            (stamp, CREATED_AT_COLUMN_SPACE as nat),
        ],
    )
}

/// The row above the tasks.
pub open spec fn header_row(title_space: nat) -> Seq<char> {
    row_text(
        seq![
            ("Title"@, title_space),
            ("Done"@, DONE_COLUMN_SPACE as nat),
            ("Created At"@, CREATED_AT_COLUMN_SPACE as nat),
        ],
    )
}

/// The commands that write the rows of the first `n` tasks, one below the
/// other.
pub open spec fn rows_ops(
    list: TaskContainerView,
    area: Rect,
    stamps: Seq<Seq<char>>,
    title_space: nat,
    n: nat,
) -> Seq<DrawOpView>
    decreases n,
{
    if n == 0 {
        Seq::empty()
    } else {
        rows_ops(list, area, stamps, title_space, (n - 1) as nat) + next_line_ops(area, 1) + seq![
            DrawOpView::Print(
                task_row(list.tasks[n - 1], stamps[n - 1], title_space),
                TextStyle::item_style(n - 1 == list.selected),
            ),
        ]
    }
}

/// The pieces that some lines are written in where only `width` characters
/// fit on a row.
pub open spec fn all_pieces(lines: Seq<Seq<char>>, width: nat) -> Seq<Seq<char>>
    decreases lines.len(),
{
    if lines.len() == 0 {
        Seq::empty()
    } else {
        all_pieces(lines.drop_last(), width) + pieces_of(lines.last(), width)
    }
}

/// The commands that write pieces of text one below the other.
pub open spec fn pieces_ops(area: Rect, pieces: Seq<Seq<char>>) -> Seq<DrawOpView>
    decreases pieces.len(),
{
    if pieces.len() == 0 {
        Seq::empty()
    } else {
        pieces_ops(area, pieces.drop_last()) + next_line_ops(area, 1) + seq![
            DrawOpView::Write(pieces.last()),
        ]
    }
}

impl TaskContainerView {
    /// The content of the task under the cursor; none where there is no
    /// task.
    pub open spec fn selected_content(self) -> Seq<char> {
        if self.selected < self.tasks.len() {
            self.tasks[self.selected as int].content
        } else {
            Seq::empty()
        }
    }

    /// The commands that draw the list of tasks in an area: a border, a row
    /// of headings, and a row for each task, with `stamps` as the times at
    /// which the tasks were made.
    pub open spec fn list_ops(self, area: Rect, stamps: Seq<Seq<char>>) -> Seq<DrawOpView> {
        let title_space = title_column_space(area.width) as nat;
        border_ops(area, "Tasks"@, self.focused) + seq![DrawOpView::MoveTo(area.x, area.y)]
            + next_line_ops(area, 1) + seq![
            DrawOpView::Print(
                header_row(title_space),
                TextStyle { reset: false, bold: true, foreground: None, background: None },
            ),
        ] + rows_ops(self, area, stamps, title_space, self.tasks.len())
    }

    /// The commands that draw the content of the task under the cursor in an
    /// area: a border, and the content line by line, each line in pieces that
    /// fit between the sides of the border.
    pub open spec fn content_ops(self, area: Rect) -> Seq<DrawOpView> {
        border_ops(area, "Content"@, false) + seq![DrawOpView::MoveTo(area.x, area.y)]
            + pieces_ops(
            area,
            all_pieces(lines_of(self.selected_content()), (area.width - 2) as nat),
        )
    }

    /// The commands that draw the task list: the list of tasks in the upper
    /// half of the area, the content of the task under the cursor in the
    /// lower half. Nothing is drawn in an area without room for the list.
    pub open spec fn render_ops(self, area: Rect, stamps: Seq<Seq<char>>) -> Seq<DrawOpView> {
        if !list_fits(area) {
            Seq::empty()
        } else {
            self.list_ops(upper_half(area), stamps) + self.content_ops(lower_half(area))
        }
    }
}

/// Appends to a list the commands that write pieces of text one below the
/// other.
fn write_pieces(out: &mut Vec<DrawOp>, area: &Rect, pieces: Vec<String>)
    requires
        area.x < u16::MAX,
    ensures
        op_views(final(out)@) == op_views(old(out)@) + pieces_ops(*area, text_views(pieces@)),
{
    let ghost texts = text_views(pieces@);
    let mut pieces = pieces;
    let mut i: usize = 0;
    let n = pieces.len();
    assert(texts.take(0) =~= Seq::empty());
    assert(op_views(out@) + pieces_ops(*area, texts.take(0)) =~= op_views(out@));
    while i < n
        invariant
            i <= n,
            n == pieces@.len(),
            n == texts.len(),
            area.x < u16::MAX,
            forall|j: int| i <= j < n ==> (#[trigger] pieces@[j])@ == texts[j],
            op_views(out@) == op_views(old(out)@) + pieces_ops(*area, texts.take(i as int)),
        decreases n - i,
    {
        let mut piece = String::new();
        std::mem::swap(&mut piece, &mut pieces[i]);
        let ghost before = op_views(out@);
        go_to_next_line_in_area(out, area, 1);
        emit(out, DrawOp::Write(piece));
        assert(texts.take(i + 1).drop_last() =~= texts.take(i as int));
        assert(texts.take(i + 1).last() == texts[i as int]);
        assert(op_views(out@) =~= before + next_line_ops(*area, 1) + seq![
            DrawOpView::Write(texts[i as int]),
        ]);
        assert(op_views(out@) =~= op_views(old(out)@) + pieces_ops(*area, texts.take(i + 1)));
        i += 1;
    }
    assert(texts.take(n as int) =~= texts);
}

/// The pieces that a text is written in, line by line, where only `width`
/// characters fit on a row.
pub fn content_pieces(content: &str, width: usize) -> (pieces: Vec<String>)
    ensures
        text_views(pieces@) == all_pieces(lines_of(content@), width as nat),
{
    let lines = split_lines(content);
    let ghost texts = text_views(lines@);
    let mut pieces: Vec<String> = Vec::new();
    let mut i: usize = 0;
    assert(texts.take(0) =~= Seq::empty());
    assert(text_views(pieces@) =~= Seq::empty());
    while i < lines.len()
        invariant
            i <= lines.len(),
            texts == text_views(lines@),
            text_views(pieces@) == all_pieces(texts.take(i as int), width as nat),
        decreases lines.len() - i,
    {
        let mut more = wrap_line(lines[i].as_str(), width);
        let ghost done = text_views(pieces@);
        let ghost added = text_views(more@);
        pieces.append(&mut more);
        assert(text_views(pieces@) =~= done + added);
        assert(texts.take(i + 1).drop_last() =~= texts.take(i as int));
        assert(texts.take(i + 1).last() == lines@[i as int]@);
        i += 1;
    }
    assert(texts.take(i as int) =~= texts);
    pieces
}

impl TaskContainer {
    /// Appends to a list the commands that write the row of the task at
    /// `index`.
    fn write_row(
        &self,
        out: &mut Vec<DrawOp>,
        area: &Rect,
        stamp: &str,
        title_space: usize,
        index: usize,
    )
        requires
            index < self@.tasks.len(),
            area.x < u16::MAX,
        ensures
            op_views(final(out)@) == op_views(old(out)@) + next_line_ops(*area, 1) + seq![
                DrawOpView::Print(
                    task_row(self@.tasks[index as int], stamp@, title_space as nat),
                    TextStyle::item_style(index == self@.selected),
                ),
            ],
    {
        let task = &self.tasks[index];
        let done = if task.done {
            "true"
        } else {
            "false"
        };
        let cells = vec![
            (task.title.as_str(), title_space),
            (done, DONE_COLUMN_SPACE as usize),
            (stamp, CREATED_AT_COLUMN_SPACE as usize),
        ];
        assert(cell_views(cells@) =~= seq![
            (task@.title, title_space as nat),
            (done_text(task@.done), DONE_COLUMN_SPACE as nat),
            (stamp@, CREATED_AT_COLUMN_SPACE as nat),
        ]);
        let row = build_row(cells);
        go_to_next_line_in_area(out, area, 1);
        emit(out, DrawOp::Print(row, TextStyle::item(index == self.selected)));
    }

    /// Appends to a list the commands that write the row of headings.
    fn write_header(out: &mut Vec<DrawOp>, area: &Rect, title_space: usize)
        requires
            area.x < u16::MAX,
        ensures
            op_views(final(out)@) == op_views(old(out)@) + next_line_ops(*area, 1) + seq![
                DrawOpView::Print(
                    header_row(title_space as nat),
                    TextStyle { reset: false, bold: true, foreground: None, background: None },
                ),
            ],
    {
        let cells = vec![
            ("Title", title_space),
            ("Done", DONE_COLUMN_SPACE as usize),
            ("Created At", CREATED_AT_COLUMN_SPACE as usize),
        ];
        assert(cell_views(cells@) =~= seq![
            ("Title"@, title_space as nat),
            ("Done"@, DONE_COLUMN_SPACE as nat),
            ("Created At"@, CREATED_AT_COLUMN_SPACE as nat),
        ]);
        let header = build_row(cells);
        go_to_next_line_in_area(out, area, 1);
        emit(out, DrawOp::Print(header, TextStyle::plain().bold()));
    }

    /// Appends to a list the commands that draw the list of tasks in an
    /// area.
    fn write_list(&self, out: &mut Vec<DrawOp>, area: &Rect, stamps: &Vec<String>)
        requires
            stamps@.len() == self@.tasks.len(),
            area.x < u16::MAX,
            area.width >= 31,
        ensures
            op_views(final(out)@) == op_views(old(out)@) + self@.list_ops(
                *area,
                text_views(stamps@),
            ),
    {
        proof {
            reveal_strlit("Tasks");
            lemma_ascii_byte_len("Tasks"@);
        }
        border(out, area, "Tasks", self.is_focused());
        reset_cursor_in_area(out, area);
        let title_space: usize = (title_share(area.width) - CREATED_AT_COLUMN_SPACE
            - DONE_COLUMN_SPACE) as usize;
        TaskContainer::write_header(out, area, title_space);
        let ghost stamp_texts = text_views(stamps@);
        let ghost head = op_views(out@);
        assert(head =~= op_views(old(out)@) + border_ops(*area, "Tasks"@, self@.focused) + seq![
            DrawOpView::MoveTo(area.x, area.y),
        ] + next_line_ops(*area, 1) + seq![
            DrawOpView::Print(
                header_row(title_space as nat),
                TextStyle { reset: false, bold: true, foreground: None, background: None },
            ),
        ]);
        assert(head + rows_ops(self@, *area, stamp_texts, title_space as nat, 0) =~= head);
        let mut i: usize = 0;
        while i < self.tasks.len()
            invariant
                i <= self.tasks.len(),
                stamps@.len() == self.tasks.len(),
                self.tasks.len() == self@.tasks.len(),
                area.x < u16::MAX,
                stamp_texts == text_views(stamps@),
                op_views(out@) == head + rows_ops(
                    self@,
                    *area,
                    stamp_texts,
                    title_space as nat,
                    i as nat,
                ),
            decreases self.tasks.len() - i,
        {
            self.write_row(out, area, stamps[i].as_str(), title_space, i);
            assert(op_views(out@) =~= head + (rows_ops(
                self@,
                *area,
                stamp_texts,
                title_space as nat,
                i as nat,
            ) + next_line_ops(*area, 1) + seq![
                DrawOpView::Print(
                    task_row(self@.tasks[i as int], stamp_texts[i as int], title_space as nat),
                    TextStyle::item_style(i == self@.selected),
                ),
            ]));
            i += 1;
        }
        assert(op_views(out@) =~= op_views(old(out)@) + self@.list_ops(*area, stamp_texts));
    }

    /// Appends to a list the commands that draw the content of the task
    /// under the cursor in an area.
    fn write_content(&self, out: &mut Vec<DrawOp>, area: &Rect)
        requires
            area.x < u16::MAX,
            area.width >= 31,
        ensures
            op_views(final(out)@) == op_views(old(out)@) + self@.content_ops(*area),
    {
        proof {
            reveal_strlit("Content");
            lemma_ascii_byte_len("Content"@);
        }
        border(out, area, "Content", false);
        reset_cursor_in_area(out, area);
        let pieces = if self.selected < self.tasks.len() {
            content_pieces(self.tasks[self.selected].content.as_str(), (area.width - 2) as usize)
        } else {
            let none: Vec<String> = Vec::new();
            proof {
                reveal_with_fuel(ended_lines, 1);
                assert(text_views(none@) =~= all_pieces(
                    lines_of(Seq::<char>::empty()),
                    (area.width - 2) as nat,
                ));
            }
            none
        };
        let ghost framed = op_views(out@);
        assert(framed =~= op_views(old(out)@) + border_ops(*area, "Content"@, false) + seq![
            DrawOpView::MoveTo(area.x, area.y),
        ]);
        write_pieces(out, area, pieces);
        assert(op_views(out@) =~= op_views(old(out)@) + self@.content_ops(*area));
    }

    /// Appends to a list the commands that draw the task list, with `stamps`
    /// as the times at which the tasks were made, one for each task.
    pub fn render_with(&self, out: &mut Vec<DrawOp>, available_area: &Rect, stamps: &Vec<String>)
        requires
            stamps@.len() == self@.tasks.len(),
        ensures
            op_views(final(out)@) == op_views(old(out)@) + self@.render_ops(
                *available_area,
                text_views(stamps@),
            ),
    {
        let area = self.rect(available_area);
        if !(area.height >= 2 && area.height / 2 < u16::MAX - area.y && area.x < u16::MAX
            && area.width >= 31) {
            assert(op_views(out@) + Seq::<DrawOpView>::empty() =~= op_views(out@));
            return ;
        }
        let (upper, lower) = split_rect_by_height(&area);
        self.write_list(out, &upper, stamps);
        self.write_content(out, &lower);
        assert(op_views(out@) =~= op_views(old(out)@) + (self@.list_ops(
            upper,
            text_views(stamps@),
        ) + self@.content_ops(lower)));
    }
}

impl Widget for TaskContainer {
    /// The task list takes all the room it may have.
    open spec fn area(&self, available: Rect) -> Rect {
        available
    }

    /// The commands draw the task list with some text for the time at which
    /// each task was made.
    open spec fn drawn_by(&self, available: Rect, ops: Seq<DrawOpView>) -> bool {
        exists|stamps: Seq<Seq<char>>|
            stamps.len() == self@.tasks.len() && ops == #[trigger] self@.render_ops(
                available,
                stamps,
            )
    }

    /// Appends to a list the commands that draw the task list. The times at
    /// which the tasks were made are written as the machine's time zone has
    /// them.
    fn render(&self, out: &mut Vec<DrawOp>, available_area: &Rect) {
        let mut stamps: Vec<String> = Vec::new();
        let mut i: usize = 0;
        while i < self.tasks.len()
            invariant
                i <= self.tasks.len(),
                stamps@.len() == i,
            decreases self.tasks.len() - i,
        {
            let stamp = match format_local(self.tasks[i].created_at, CREATED_AT_FORMAT) {
                Some(text) => text,
                None => String::new(),
            };
            stamps.push(stamp);
            i += 1;
        }
        self.render_with(out, available_area, &stamps);
        assert(text_views(stamps@).len() == self@.tasks.len());
        assert(self.drawn_by(
            *available_area,
            self@.render_ops(*available_area, text_views(stamps@)),
        ));
    }

    fn rect(&self, available_area: &Rect) -> (area: Rect) {
        *available_area
    }
}

} // verus!
