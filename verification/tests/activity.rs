use gosh_distrobox_manager::activity::{
    ActivityFilter, TaskState, filter_tasks, is_error_line, relative_time, stats,
};
use gosh_distrobox_manager::msg::Msg;
use gosh_distrobox_manager::tasks::{TaskKind, TaskMirror, TaskView};

fn view(label: &str, completed: bool, success: bool) -> TaskView {
    TaskView {
        label: label.to_string(),
        kind: TaskKind::Other,
        output: vec![],
        completed,
        success,
        started_at: 1000,
    }
}

#[test]
fn state_never_sniffs_output() {
    let mut running = view("Upgrade x", false, false);
    running.output.push("Error: something failed".to_string());
    assert_eq!(TaskState::of(&running), TaskState::Running);
    let mut failed = view("Install y", true, false);
    failed.output.push("Task completed successfully".to_string());
    assert_eq!(TaskState::of(&failed), TaskState::Failed);
    assert_eq!(TaskState::of(&view("z", true, true)), TaskState::Success);
}

#[test]
fn filter_search_and_sort() {
    let now: u64 = 1000;
    let mut tasks = TaskMirror::new();
    let mut next: u64 = 1;
    let mut mk = |label: &str, completed: bool, success: bool, secs_ago: u64| {
        let id = next;
        next += 1;
        tasks.insert(
            id,
            TaskView {
                label: label.to_string(),
                kind: TaskKind::Other,
                output: vec![format!("out {label}")],
                completed,
                success,
                started_at: now - secs_ago,
            },
        );
    };
    mk("Upgrade a", false, false, 10);
    mk("Install b", true, true, 20);
    mk("Remove c", true, false, 5);
    let all = filter_tasks(&tasks, "", ActivityFilter::All);
    assert_eq!(all[0].1.label, "Remove c");
    assert_eq!(filter_tasks(&tasks, "", ActivityFilter::Running).len(), 1);
    assert_eq!(filter_tasks(&tasks, "", ActivityFilter::Success).len(), 1);
    assert_eq!(filter_tasks(&tasks, "", ActivityFilter::Errors).len(), 1);
    assert_eq!(filter_tasks(&tasks, "upgrade", ActivityFilter::All).len(), 1);
    assert_eq!(filter_tasks(&tasks, "install b", ActivityFilter::All).len(), 1);
}

#[test]
fn relative_times() {
    assert_eq!(relative_time(0), Msg::ActivityTimeJustNow);
    assert_eq!(relative_time(300), Msg::ActivityTimeMinutes { count: 5 });
    assert_eq!(relative_time(7200), Msg::ActivityTimeHours { count: 2 });
    assert_eq!(relative_time(3 * 86400), Msg::ActivityTimeDays { count: 3 });
}

#[test]
fn stats_count_by_state() {
    let mut tasks = TaskMirror::new();
    tasks.insert(1, view("a", false, false));
    tasks.insert(2, view("b", true, true));
    tasks.insert(3, view("c", true, false));
    let (total, running, success, failed) = stats(&tasks);
    assert_eq!((total, running, success, failed), (3, 1, 1, 1));
}

#[test]
fn relative_time_boundaries() {
    assert_eq!(relative_time(59), Msg::ActivityTimeJustNow);
    assert_eq!(relative_time(60), Msg::ActivityTimeMinutes { count: 1 });
    assert_eq!(relative_time(3599), Msg::ActivityTimeMinutes { count: 59 });
    assert_eq!(relative_time(3600), Msg::ActivityTimeHours { count: 1 });
    assert_eq!(relative_time(86399), Msg::ActivityTimeHours { count: 23 });
    assert_eq!(relative_time(86400), Msg::ActivityTimeDays { count: 1 });
}

#[test]
fn search_reaches_output_lines_and_ignores_case() {
    let mut tasks = TaskMirror::new();
    let mut v = view("Install b", true, true);
    v.output.push("Reading PACKAGE lists".to_string());
    tasks.insert(7, v);
    tasks.insert(8, view("Remove c", true, false));
    assert_eq!(filter_tasks(&tasks, "package", ActivityFilter::All).len(), 1);
    assert_eq!(filter_tasks(&tasks, "REMOVE", ActivityFilter::All).len(), 1);
    assert_eq!(filter_tasks(&tasks, "zzz", ActivityFilter::All).len(), 0);
}

#[test]
fn error_lines_are_recognised() {
    assert!(is_error_line("Error: something failed"));
    assert!(is_error_line("Build FAILED"));
    assert!(!is_error_line("E: Unable to locate package"));
    assert!(!is_error_line("Reading package lists"));
}
