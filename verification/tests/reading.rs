use gosh_distrobox_manager::activity::{ActivityFilter, filter_tasks, stats};
use gosh_distrobox_manager::icons::{ThemeRole, distro_icon, distro_role};
use gosh_distrobox_manager::model::{AppConfig, ContainerInfo, CustomTerminal, Status};
use gosh_distrobox_manager::page_state::{TerminalAccess, details_view, terminal_view};
use gosh_distrobox_manager::prefs::{KeyRead, fold_preferences};
use gosh_distrobox_manager::tasks::{TaskKind, TaskMirror, TaskView};
use gosh_distrobox_manager::terminal::TerminalState;
use gosh_distrobox_manager::wizard::WizardState;

fn container(running: bool) -> ContainerInfo {
    ContainerInfo {
        id: "abc".into(),
        name: "box".into(),
        status: if running { Status::Up("2 hours".into()) } else { Status::Exited("0".into()) },
        image: "fedora:39".into(),
    }
}

fn terminal(name: &str) -> CustomTerminal {
    CustomTerminal {
        name: name.into(),
        program: name.into(),
        extra_args: vec![],
        separator_arg: "--".into(),
        read_only: false,
    }
}

#[test]
fn found_keys_win_and_the_rest_fall_back() {
    let (cfg, import) = fold_preferences(
        AppConfig::defaults(),
        KeyRead::Found("kitty".into()),
        KeyRead::Unreadable,
        KeyRead::Missing,
        KeyRead::Found("/backups".into()),
        KeyRead::Found(true),
        KeyRead::Found(vec![terminal("mine")]),
    );
    assert_eq!(cfg.selected_terminal, "kitty");
    assert!(cfg.confirm_destructive_actions, "unreadable falls back to the default");
    assert_eq!(cfg.snapshot_prefix, AppConfig::defaults().snapshot_prefix);
    assert_eq!(cfg.default_export_dir, "/backups");
    assert!(cfg.show_skipped_lines);
    assert_eq!(cfg.custom_terminals, vec![terminal("mine")]);
    assert!(!import, "both import keys were there");
}

#[test]
fn only_a_missing_import_key_asks_for_the_import() {
    let read = |sel: KeyRead<String>, custom: KeyRead<Vec<CustomTerminal>>| {
        fold_preferences(
            AppConfig::defaults(),
            sel,
            KeyRead::Missing,
            KeyRead::Missing,
            KeyRead::Missing,
            KeyRead::Missing,
            custom,
        )
    };
    assert!(read(KeyRead::Missing, KeyRead::Found(vec![])).1);
    assert!(read(KeyRead::Found("x".into()), KeyRead::Missing).1);
    assert!(!read(KeyRead::Unreadable, KeyRead::Unreadable).1, "a corrupt key is not a missing one");
    let (cfg, _) = read(KeyRead::Missing, KeyRead::Unreadable);
    assert!(cfg.custom_terminals.is_empty());
    assert_eq!(cfg.selected_terminal, AppConfig::defaults().selected_terminal);
}

#[test]
fn terminal_page_sections_follow_the_state() {
    let mut st = TerminalState::default();
    st.container = Some("box".into());
    let v = terminal_view(&st, &container(false), false);
    assert_eq!(v.access, TerminalAccess::NotRunning);
    assert!(!v.can_launch && !v.upgrade_enabled && !v.can_stop);
    st.loading_command = true;
    assert_eq!(terminal_view(&st, &container(true), false).access, TerminalAccess::Loading);
    st.loading_command = false;
    st.enter_argv = Some(vec!["distrobox".into(), "enter".into(), "box".into()]);
    let v = terminal_view(&st, &container(true), false);
    assert_eq!(v.access, TerminalAccess::Command("distrobox enter box".into()));
    assert!(v.can_launch && v.upgrade_enabled && v.can_stop);
    assert!(!terminal_view(&st, &container(true), true).upgrade_enabled, "already upgrading");
}

#[test]
fn details_buttons_follow_running_and_upgrading() {
    let v = details_view(&container(true), false);
    assert!(v.can_stop && v.can_open_terminal && v.upgrade_enabled);
    let v = details_view(&container(false), true);
    assert!(!v.can_stop && !v.can_open_terminal && !v.upgrade_enabled);
}

#[test]
fn icons_ignore_ascii_case_and_roles_follow_icons() {
    assert_eq!(distro_icon("DOCKER.IO/LIBRARY/UBUNTU:22.04"), "ubuntu");
    assert_eq!(distro_icon("Fedora:39"), distro_icon("fedora:39"));
    assert_eq!(distro_role("rockylinux:9"), ThemeRole::Warning);
    assert_eq!(distro_icon("rockylinux:9"), "centos");
    assert_eq!(distro_role("something-else"), ThemeRole::Neutral);
    assert_eq!(distro_role("debian:12"), ThemeRole::Accent);
    assert_eq!(distro_role("alpine"), ThemeRole::Success);
}

#[test]
fn trim_strips_unicode_white_space() {
    let mut w = WizardState::default();
    w.custom_image = "\u{3000}\tquay.io/x:1\u{a0}\n".into();
    assert_eq!(w.effective_image(), "quay.io/x:1");
}

fn task(label: &str, completed: bool, success: bool, at: u64) -> TaskView {
    TaskView { label: label.into(), kind: TaskKind::Other, output: vec![], completed, success, started_at: at }
}

#[test]
fn chips_with_an_empty_search_count_what_the_stats_bar_counts() {
    let mut m = TaskMirror::new();
    m.insert(3, task("a", false, false, 1));
    m.insert(1, task("b", true, true, 2));
    m.insert(2, task("c", true, false, 3));
    m.insert(4, task("d", true, true, 4));
    let (total, running, success, failed) = stats(&m);
    assert_eq!(filter_tasks(&m, "", ActivityFilter::All).len(), total);
    assert_eq!(filter_tasks(&m, "", ActivityFilter::Running).len(), running);
    assert_eq!(filter_tasks(&m, "", ActivityFilter::Success).len(), success);
    assert_eq!(filter_tasks(&m, "", ActivityFilter::Errors).len(), failed);
    let ids: Vec<u64> = m.entries().iter().map(|(id, _)| *id).collect();
    assert_eq!(ids, vec![1, 2, 3, 4], "the mirror walks ids in order");
    let listed: Vec<u64> = filter_tasks(&m, "", ActivityFilter::All).iter().map(|(id, _)| *id).collect();
    assert_eq!(listed, vec![4, 2, 1, 3], "the page lists newest first");
}
