use wetopla::application::{mode_colors, mode_label, mode_popup, Popup};
use wetopla::clock::Timestamp;
use wetopla::draw::{emit, Color, DrawOp, TextStyle};
use wetopla::edit_session::EditError;
use wetopla::keys::{KeyCode, KeyEvent};
use wetopla::project::{Project, ProjectContainer};
use wetopla::task::{title_share, TaskContainer};
use wetopla::terminal::size;
use wetopla::utils::{
    border, border_background, build_line, build_row, go_to_next_line_in_area,
    highlight_button_text, push_repeated, reset_cursor_in_area, split_rect_by_height, Rect,
};
use wetopla::widgets::line_input::LineInput;
use wetopla::widgets::message_box::MessageBox;
use wetopla::widgets::{ContainerWidget, PopupWidget, Widget};
use wetopla::InputMode;

fn write(text: &str) -> DrawOp {
    DrawOp::Write(text.to_string())
}

fn next_line(x: u16) -> Vec<DrawOp> {
    vec![DrawOp::MoveToNextLine(1), DrawOp::MoveToColumn(x)]
}

fn bold_title(text: &str) -> DrawOp {
    DrawOp::Print(
        text.to_string(),
        TextStyle { reset: true, bold: true, foreground: None, background: None },
    )
}

#[test]
fn an_edge_leaves_room_for_the_title() {
    assert_eq!(build_line('┌', '┐', '─', "Tasks", 12), "┌     ─────┐");
    assert_eq!(build_line('└', '┘', '─', "", 5), "└───┘");
    assert_eq!(build_line('<', '>', '-', "", 2), "<>");
    assert_eq!(build_line('<', '>', '-', "abc", 5), "<   >");
}

#[test]
fn the_room_for_a_title_is_counted_in_bytes() {
    assert_eq!(build_line('<', '>', '-', "é", 6), "<  -->");
    assert_eq!(build_line('<', '>', '-', "é", 6).chars().count(), 6);
}

#[test]
fn a_row_fills_each_cell_with_spaces() {
    assert_eq!(build_row(vec![("ab", 4), ("c", 1), ("", 2), ("de", 3)]), "ab  c  de ");
    assert_eq!(build_row(Vec::new()), "");
    assert_eq!(build_row(vec![("é", 3)]), "é ");
}

#[test]
fn content_wider_than_its_cell_stands_alone() {
    assert_eq!(build_row(vec![("abcdef", 3), ("x", 2)]), "abcdefx ");
}

#[test]
fn characters_are_repeated() {
    let mut text = "a".to_string();
    push_repeated(&mut text, '-', 3);
    push_repeated(&mut text, 'x', 0);
    assert_eq!(text, "a---");
}

#[test]
fn an_area_is_split_with_a_free_row_between_the_halves() {
    let (one, two) = split_rect_by_height(&Rect { x: 3, y: 5, height: 20, width: 40 });
    assert_eq!(one, Rect { x: 3, y: 5, height: 10, width: 40 });
    assert_eq!(two, Rect { x: 3, y: 16, height: 9, width: 40 });
    let (one, two) = split_rect_by_height(&Rect { x: 0, y: 0, height: 3, width: 1 });
    assert_eq!(one, Rect { x: 0, y: 0, height: 1, width: 1 });
    assert_eq!(two, Rect { x: 0, y: 2, height: 0, width: 1 });
}

#[test]
fn the_cursor_goes_to_the_next_line_of_the_area() {
    let area = Rect { x: 7, y: 2, height: 5, width: 30 };
    let mut out = vec![DrawOp::MoveRight(1)];
    go_to_next_line_in_area(&mut out, &area, 0);
    go_to_next_line_in_area(&mut out, &area, 4);
    reset_cursor_in_area(&mut out, &area);
    assert_eq!(
        out,
        vec![
            DrawOp::MoveRight(1),
            DrawOp::MoveToNextLine(1),
            DrawOp::MoveToColumn(7),
            DrawOp::MoveToNextLine(1),
            DrawOp::MoveToColumn(11),
            DrawOp::MoveTo(7, 2),
        ]
    );
}

#[test]
fn a_button_under_the_cursor_is_black_on_white() {
    let mut out = Vec::new();
    highlight_button_text(&mut out, "Yes", true);
    assert_eq!(
        out,
        vec![
            DrawOp::SetForeground(Color::Black),
            DrawOp::SetBackground(Color::White),
            write("Yes"),
            DrawOp::SetForeground(Color::White),
            DrawOp::SetBackground(Color::Reset),
        ]
    );
    let mut out = Vec::new();
    highlight_button_text(&mut out, "No", false);
    assert_eq!(
        out,
        vec![write("No"), DrawOp::SetForeground(Color::White), DrawOp::SetBackground(Color::Reset)]
    );
}

fn expected_border(area: Rect, title: &str, first: &str, last: &str, color: Color) -> Vec<DrawOp> {
    let mut ops = vec![
        DrawOp::SetForeground(color),
        DrawOp::MoveTo(area.x, area.y),
        write(first),
        DrawOp::MoveToColumn(area.x + 1),
        bold_title(title),
        DrawOp::SetForeground(color),
    ];
    for _ in 1..area.height {
        ops.extend(next_line(area.x));
        ops.push(write("│"));
        ops.push(DrawOp::MoveRight(area.width - 2));
        ops.push(write("│"));
    }
    ops.extend(next_line(area.x));
    ops.push(write(last));
    ops.push(DrawOp::SetForeground(Color::Reset));
    ops
}

#[test]
fn a_border_is_drawn_row_by_row() {
    let area = Rect { x: 2, y: 1, height: 3, width: 8 };
    let mut out = Vec::new();
    border(&mut out, &area, "Hi", true);
    assert_eq!(out, expected_border(area, "Hi", "┌  ────┐", "└──────┘", Color::Yellow));
    assert_eq!(out.len(), 6 + 2 * 5 + 4);
    assert_eq!(border_background(true), Color::Yellow);
    assert_eq!(border_background(false), Color::White);
}

#[test]
fn a_border_without_height_has_its_two_edges() {
    for height in [0, 1] {
        let area = Rect { x: 0, y: 0, height, width: 4 };
        let mut out = vec![DrawOp::MoveRight(9)];
        border(&mut out, &area, "", false);
        let mut expected = vec![DrawOp::MoveRight(9)];
        expected.extend(expected_border(area, "", "┌──┐", "└──┘", Color::White));
        assert_eq!(out, expected);
    }
}

#[test]
fn commands_are_appended_in_order() {
    let mut out = Vec::new();
    emit(&mut out, DrawOp::MoveTo(1, 2));
    emit(&mut out, write("x"));
    assert_eq!(out, vec![DrawOp::MoveTo(1, 2), write("x")]);
}

#[test]
fn styles_are_built_step_by_step() {
    assert_eq!(
        TextStyle::plain(),
        TextStyle { reset: false, bold: false, foreground: None, background: None }
    );
    assert_eq!(
        TextStyle::plain().on(Color::White).with(Color::Black).bold().reset(),
        TextStyle {
            reset: true,
            bold: true,
            foreground: Some(Color::Black),
            background: Some(Color::White),
        }
    );
}

#[test]
fn ninety_five_hundredths_are_taken_as_floats_take_them() {
    for width in 0..=u16::MAX {
        assert_eq!(title_share(width), (width as f32 * 0.95) as u16, "width {}", width);
    }
    assert_eq!(title_share(100), 95);
    assert_eq!(title_share(31), 29);
    assert_eq!(title_share(u16::MAX), 62258);
}

fn sample_tasks() -> Project {
    let mut p = Project::new("p".to_string());
    p.add_task_at("dishes".to_string(), Timestamp { secs: 0, nanos: 0 }, Timestamp { secs: 0, nanos: 0 });
    p.add_task_at("laundry".to_string(), Timestamp { secs: 1, nanos: 0 }, Timestamp { secs: 1, nanos: 0 });
    p.set_task_content(1, format!("thirty degrees\n\n{}\n{}\n", "s".repeat(59), "f".repeat(58)));
    p.toggle_task_done(0);
    p
}

#[test]
fn the_task_list_is_drawn_in_two_halves() {
    let mut list = TaskContainer::new(true);
    list.set_project(Some(&sample_tasks()));
    list.move_down();
    let area = Rect { x: 10, y: 0, height: 9, width: 60 };
    assert_eq!(list.rect(&area), area);
    let stamps = vec!["01.01.1970 00:00:00".to_string(), "01.01.1970 00:00:01".to_string()];
    let mut out = Vec::new();
    list.render_with(&mut out, &area, &stamps);

    let upper = Rect { x: 10, y: 0, height: 4, width: 60 };
    let lower = Rect { x: 10, y: 5, height: 3, width: 60 };
    let title_space = 57 - 19 - 10;
    let mut expected = expected_border(
        upper,
        "Tasks",
        &build_line('┌', '┐', '─', "Tasks", 60),
        &build_line('└', '┘', '─', "", 60),
        Color::Yellow,
    );
    expected.push(DrawOp::MoveTo(10, 0));
    expected.extend(next_line(11));
    expected.push(DrawOp::Print(
        format!("{:<w$}{:<10}{:<19}", "Title", "Done", "Created At", w = title_space),
        TextStyle { reset: false, bold: true, foreground: None, background: None },
    ));
    expected.extend(next_line(11));
    expected.push(DrawOp::Print(
        format!("{:<w$}{:<10}{:<19}", "dishes", "true", "01.01.1970 00:00:00", w = title_space),
        TextStyle::plain(),
    ));
    expected.extend(next_line(11));
    expected.push(DrawOp::Print(
        format!("{:<w$}{:<10}{:<19}", "laundry", "false", "01.01.1970 00:00:01", w = title_space),
        TextStyle::plain().on(Color::White).with(Color::Black),
    ));
    expected.extend(expected_border(
        lower,
        "Content",
        &build_line('┌', '┐', '─', "Content", 60),
        &build_line('└', '┘', '─', "", 60),
        Color::White,
    ));
    expected.push(DrawOp::MoveTo(10, 5));
    expected.extend(next_line(11));
    expected.push(write("thirty degrees"));
    expected.extend(next_line(11));
    expected.push(write(&"s".repeat(58)));
    expected.extend(next_line(11));
    expected.push(write("s"));
    assert_eq!(out, expected);
}

#[test]
fn the_task_list_is_not_drawn_where_it_has_no_room() {
    let mut list = TaskContainer::new(false);
    list.set_project(Some(&sample_tasks()));
    let stamps = vec![String::new(), String::new()];
    for area in [
        Rect { x: 0, y: 0, height: 1, width: 80 },
        Rect { x: 0, y: 0, height: 10, width: 30 },
        Rect { x: u16::MAX, y: 0, height: 10, width: 80 },
        Rect { x: 0, y: u16::MAX - 5, height: 10, width: 80 },
    ] {
        let mut out = vec![DrawOp::MoveRight(1)];
        list.render_with(&mut out, &area, &stamps);
        assert_eq!(out, vec![DrawOp::MoveRight(1)]);
    }
    let mut out = Vec::new();
    list.render_with(&mut out, &Rect { x: 0, y: 0, height: 2, width: 31 }, &stamps);
    assert!(!out.is_empty());
}

#[test]
fn the_task_list_writes_the_time_of_each_task() {
    let mut list = TaskContainer::new(false);
    list.set_project(Some(&sample_tasks()));
    let mut out = Vec::new();
    list.render(&mut out, &Rect { x: 0, y: 0, height: 20, width: 80 });
    let rows: Vec<&String> = out
        .iter()
        .filter_map(|op| match op {
            DrawOp::Print(text, style) if !style.reset => Some(text),
            _ => None,
        })
        .collect();
    assert_eq!(rows.len(), 3);
    let title_space = 76 - 29;
    assert!(rows[1].starts_with("dishes "));
    assert_eq!(rows[1].len(), title_space + 10 + 19);
    let stamp = &rows[1][title_space + 10..];
    let shape: String = stamp.chars().map(|c| if c.is_ascii_digit() { '9' } else { c }).collect();
    assert_eq!(shape, "99.99.9999 99:99:99");
    assert!(stamp.contains(".1970 ") || stamp.contains(".1969 "));
    assert_ne!(&rows[1][title_space + 10..], &rows[2][title_space + 10..]);
}

#[test]
fn an_empty_task_list_has_its_two_borders_and_the_headings() {
    let list = TaskContainer::new(false);
    let mut out = Vec::new();
    list.render(&mut out, &Rect { x: 0, y: 0, height: 4, width: 40 });
    let printed = out.iter().filter(|op| matches!(op, DrawOp::Print(..))).count();
    assert_eq!(printed, 3);
    assert_eq!(out.last(), Some(&DrawOp::MoveTo(0, 3)));
}

#[test]
fn the_line_input_shows_the_end_of_the_text() {
    let mut input = LineInput::new();
    let long: String = "0123456789".repeat(13);
    input.set_value(long.clone());
    let available = Rect { x: 0, y: 0, height: 40, width: 200 };
    let area = Rect { x: 50, y: 10, height: 3, width: 120 };
    assert_eq!(input.rect(&available), area);
    let mut out = Vec::new();
    input.render(&mut out, &available);
    let mut expected = expected_border(
        area,
        "Insert value here",
        &build_line('┌', '┐', '─', "Insert value here", 120),
        &build_line('└', '┘', '─', "", 120),
        Color::Yellow,
    );
    expected.push(DrawOp::MoveTo(51, 11));
    expected.push(DrawOp::Print(
        long[12..].to_string(),
        TextStyle { reset: true, bold: false, foreground: None, background: None },
    ));
    assert_eq!(out, expected);

    input.set_value("Home".to_string());
    let mut out = Vec::new();
    input.render(&mut out, &available);
    assert_eq!(out.last(), Some(&DrawOp::Print("Home".to_string(), TextStyle::plain().reset())));
}

#[test]
fn the_answer_under_the_cursor_is_black_on_white() {
    let mut m = MessageBox::new();
    assert_eq!(m.button_styles(), (TextStyle::plain(), TextStyle::item(true)));
    m.process_input(&KeyEvent::plain(KeyCode::Tab));
    m.process_input(&KeyEvent::plain(KeyCode::Tab));
    assert_eq!(m.button_styles(), (TextStyle::item(true), TextStyle::plain()));
}

#[test]
fn the_message_box_lies_a_quarter_in() {
    let m = MessageBox::new();
    assert_eq!(
        m.size(Rect { x: 9, y: 9, height: 40, width: 203 }),
        Rect { x: 50, y: 10, height: 10, width: 100 }
    );
}

#[test]
fn projects_are_listed_with_their_place() {
    let mut c = ProjectContainer::new(true);
    assert!(c.rows().is_empty());
    for title in ["Home", "Wörk", "x", "", "y", "z", "a", "b", "c", "d", "e"] {
        c.add_project(title.to_string());
    }
    let rows = c.rows();
    assert_eq!(rows.len(), 10);
    assert_eq!(rows[0], ("0: Home".to_string(), TextStyle::plain()));
    assert_eq!(rows[1], ("1: Wörk".to_string(), TextStyle::plain()));
    assert_eq!(rows[9], ("9: e".to_string(), TextStyle::plain().on(Color::White).with(Color::Black)));
    assert_eq!(c.selected(), 9);
    c.add_project("f".to_string());
    assert_eq!(c.rows()[10].0, "10: f");
    assert_eq!(c.rows()[9].1, TextStyle::plain());
    c.move_down();
    assert_eq!(c.rows()[0].1, TextStyle::item(true));
    assert_eq!(TextStyle::item(false), TextStyle::plain());
}

#[test]
fn each_mode_has_its_name_and_its_color() {
    assert_eq!(mode_label(InputMode::Normal), "NORMAL");
    assert_eq!(mode_label(InputMode::Insert), "INSERT");
    assert_eq!(mode_label(InputMode::Deleting), "DELETING");
    assert_eq!(mode_label(InputMode::Saving), "SAVING");
    assert_eq!(mode_label(InputMode::Quitting), "QUITTING");
    assert_eq!(mode_colors(InputMode::Normal), (Color::Black, Color::Cyan));
    assert_eq!(mode_colors(InputMode::Insert), (Color::Black, Color::Green));
    assert_eq!(mode_colors(InputMode::Deleting), (Color::Black, Color::Red));
    assert_eq!(mode_colors(InputMode::Saving), (Color::Black, Color::Magenta));
    assert_eq!(mode_colors(InputMode::Quitting), (Color::Black, Color::Grey));
}

#[test]
fn each_mode_has_its_popup() {
    assert_eq!(mode_popup(InputMode::Normal), None);
    assert_eq!(mode_popup(InputMode::Insert), Some(Popup::LineInput));
    assert_eq!(mode_popup(InputMode::Deleting), Some(Popup::MessageBox));
    assert_eq!(mode_popup(InputMode::Saving), Some(Popup::MessageBox));
    assert_eq!(mode_popup(InputMode::Quitting), Some(Popup::MessageBox));
}

#[test]
fn the_screen_starts_in_the_upper_left_corner() {
    assert_eq!(size((80, 24)), Rect { x: 0, y: 0, width: 80, height: 24 });
}

#[test]
fn each_failure_has_its_words() {
    assert_eq!(EditError::EditorNotFound.message(), "Could not find editor! Please install neovim!");
    assert_eq!(
        EditError::TerminalNotRestored.message(),
        "Error occured when trying to restore the previous state of the terminal!"
    );
    assert_eq!(
        EditError::TerminalNotPrepared.message(),
        "Error occured when trying to prepare the terminal for the application!"
    );
    assert_eq!(
        EditError::ScratchNotWritten.message(),
        "Unexpected error when trying to write to the file that is used for editing"
    );
    assert_eq!(
        EditError::ScratchNotRemoved.message(),
        "Unexpected error when trying to delete file that is used for editing"
    );
    assert!(!EditError::TaskMissing.message().is_empty());
    assert!(!EditError::OutOfTurn.message().is_empty());
}
