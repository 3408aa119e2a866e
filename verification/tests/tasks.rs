use wetopla::clock::Timestamp;
use wetopla::project::Project;
use wetopla::task::{Task, TaskContainer};
use wetopla::widgets::ContainerWidget;

fn at_second(secs: i64) -> Timestamp {
    Timestamp { secs, nanos: 0 }
}

fn project_with(n: usize) -> Project {
    let mut p = Project::new("p".to_string());
    for i in 0..n {
        p.add_task_at(format!("t{}", i), at_second(i as i64), at_second(i as i64 + 100));
    }
    p
}

#[test]
fn a_new_task_is_not_done_and_has_no_content() {
    let mut p = Project::new("p".to_string());
    p.add_task_at("write".to_string(), at_second(7), at_second(9));
    assert_eq!(
        p.tasks,
        vec![Task {
            title: "write".to_string(),
            content: String::new(),
            created_at: at_second(7),
            modified_at: at_second(9),
            done: false,
        }]
    );
}

#[test]
fn a_task_stamped_by_the_clock_is_appended() {
    let mut p = project_with(2);
    p.add_task("now".to_string());
    assert_eq!(p.tasks.len(), 3);
    assert_eq!(p.tasks[2].title, "now");
    assert_eq!(p.tasks[2].content, "");
    assert!(!p.tasks[2].done);
    assert!(p.tasks[2].created_at.secs > 1_000_000_000);
    assert!(p.tasks[2].created_at.nanos < 2_000_000_000);
    assert!(p.tasks[2].modified_at.secs >= p.tasks[2].created_at.secs);
    assert_eq!(p.tasks[0].title, "t0");
}

#[test]
fn toggling_twice_gives_the_flag_back() {
    let mut p = project_with(3);
    p.toggle_task_done(1);
    assert!(p.tasks[1].done);
    assert!(!p.tasks[0].done);
    assert!(!p.tasks[2].done);
    p.toggle_task_done(1);
    assert_eq!(p, project_with(3));
}

#[test]
fn removing_a_task_keeps_the_order_of_the_rest() {
    let mut p = project_with(4);
    p.remove_selected_task(1);
    let titles: Vec<&str> = p.tasks.iter().map(|t| t.title.as_str()).collect();
    assert_eq!(titles, vec!["t0", "t2", "t3"]);
}

#[test]
fn removing_from_a_project_without_tasks_does_nothing() {
    let mut p = project_with(0);
    p.remove_selected_task(0);
    p.remove_selected_task(5);
    assert_eq!(p, project_with(0));
}

#[test]
fn content_is_replaced_in_one_task_only() {
    let mut p = project_with(2);
    p.set_task_content(1, "línea ü\nzwei".to_string());
    assert_eq!(p.tasks[1].content, "línea ü\nzwei");
    assert_eq!(p.tasks[0].content, "");
    assert_eq!(p.tasks[1].modified_at, at_second(101));
}

#[test]
fn the_task_list_holds_a_copy() {
    let mut p = project_with(3);
    let mut list = TaskContainer::new(false);
    list.set_project(Some(&p));
    assert_eq!(list.len(), 3);
    assert_eq!(list.tasks(), &p.tasks);
    p.toggle_task_done(0);
    assert!(!list.tasks()[0].done);
    list.set_project(Some(&p));
    assert!(list.tasks()[0].done);
}

#[test]
fn the_cursor_is_held_inside_the_new_tasks() {
    let mut list = TaskContainer::new(true);
    list.set_project(Some(&project_with(5)));
    list.move_up();
    assert_eq!(list.selected(), 4);
    list.set_project(Some(&project_with(2)));
    assert_eq!(list.selected(), 1);
    list.set_project(Some(&project_with(4)));
    assert_eq!(list.selected(), 1);
    list.set_project(None);
    assert_eq!(list.selected(), 0);
    assert_eq!(list.len(), 0);
    assert!(list.is_focused());
}

#[test]
fn a_copy_of_a_task_equals_it() {
    let mut p = project_with(1);
    p.set_task_content(0, "ß".to_string());
    assert_eq!(p.tasks[0].clone(), p.tasks[0]);
    assert_eq!(p.clone(), p);
}

#[test]
fn the_editor_s_text_becomes_the_content() {
    let mut p = project_with(2);
    assert!(p.edit_task(1, Some("neu".to_string())));
    assert_eq!(p.tasks[1].content, "neu");
    assert!(p.edit_task(1, None));
    assert_eq!(p.tasks[1].content, "neu");
    assert_eq!(p.tasks[0].content, "");
}

#[test]
fn a_project_without_tasks_has_nothing_to_edit() {
    let mut p = project_with(0);
    assert!(!p.edit_task(0, Some("x".to_string())));
    assert!(!p.edit_task(3, None));
    assert_eq!(p, project_with(0));
}
