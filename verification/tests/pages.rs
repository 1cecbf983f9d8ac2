use gosh_distrobox_manager::apps_view::AppsViewState;
use gosh_distrobox_manager::backups::BackupsState;
use gosh_distrobox_manager::model::{AppInfo, ContainerInfo, PackageManager, Status, Terminal};
use gosh_distrobox_manager::packages::PackagesState;
use gosh_distrobox_manager::terminal::TerminalState;
use gosh_distrobox_manager::updates::{summary, upgrade_task_ids};
use gosh_distrobox_manager::tasks::{TaskKind, TaskMirror, TaskView};

fn app(name: &str, exec: &str) -> AppInfo {
    AppInfo {
        name: name.to_string(),
        command: exec.to_string(),
        icon: String::new(),
        desktop_file_path: format!("/{name}.desktop"),
        is_exported: false,
    }
}

#[test]
fn filter_covers_name_and_exec() {
    let apps = vec![app("Vim", "vim"), app("Code", "code --new-window")];
    assert_eq!(AppsViewState::filter(&apps, "").len(), 2);
    assert_eq!(AppsViewState::filter(&apps, "vim").len(), 1);
    assert_eq!(AppsViewState::filter(&apps, "--new").len(), 1);
    assert!(AppsViewState::filter(&apps, "zzz").is_empty());
}

#[test]
fn default_names_are_deterministic() {
    assert_eq!(BackupsState::default_snapshot_name("mybox"), "mybox-snapshot");
    assert_eq!(BackupsState::default_export_path("mybox"), "/tmp/mybox-export.tar");
}

#[test]
fn badge_is_typed_never_bare() {
    assert_eq!(PackagesState::badge(None), "Detecting…");
    assert_eq!(PackagesState::badge(Some(PackageManager::Emerge)), "EMERGE");
    assert_eq!(PackagesState::badge(Some(PackageManager::Unknown)), "UNKNOWN");
}

#[test]
fn every_manager_has_its_own_badge() {
    let all = [
        (PackageManager::Apt, "APT"),
        (PackageManager::Dnf, "DNF"),
        (PackageManager::Yum, "YUM"),
        (PackageManager::Pacman, "PACMAN"),
        (PackageManager::Apk, "APK"),
        (PackageManager::Zypper, "ZYPPER"),
        (PackageManager::Xbps, "XBPS"),
        (PackageManager::Emerge, "EMERGE"),
        (PackageManager::Unknown, "UNKNOWN"),
    ];
    for (pm, word) in all {
        assert_eq!(PackagesState::badge(Some(pm)), word);
    }
}

fn term(name: &str, id: &str) -> Terminal {
    Terminal { name: name.to_string(), program: name.to_string(), id: id.to_string() }
}

#[test]
fn terminal_selection_falls_back_to_the_first() {
    let list = vec![term("Kitty", "kitty"), term("Foot", "foot")];
    let mut state = TerminalState::default();
    assert_eq!(state.selected(&list).unwrap().id, "kitty");
    state.terminal_id = Some("foot".to_string());
    assert_eq!(state.selected(&list).unwrap().id, "foot");
    state.terminal_id = Some("gone".to_string());
    assert_eq!(state.selected(&list).unwrap().id, "kitty");
    assert!(state.selected(&[]).is_none());
}

fn container(name: &str, status: Status) -> ContainerInfo {
    ContainerInfo {
        id: format!("id-{name}"),
        name: name.to_string(),
        status,
        image: "docker.io/library/ubuntu:latest".to_string(),
    }
}

#[test]
fn updates_summary_splits_running_and_stopped() {
    let list = vec![
        container("a", Status::Up("1h".to_string())),
        container("b", Status::Exited(String::new())),
        container("c", Status::Up(String::new())),
        container("d", Status::Created(String::new())),
    ];
    assert_eq!(summary(&list), (2, 2));
    assert_eq!(summary(&[]), (0, 0));
}

#[test]
fn upgrade_rows_follow_the_kind_not_the_label() {
    let mut tasks = TaskMirror::new();
    tasks.insert(1, TaskView::started("Upgrade a".to_string(), TaskKind::Other, 0));
    tasks.insert(2, TaskView::started("Mise à niveau b".to_string(), TaskKind::Upgrade, 0));
    tasks.insert(3, TaskView::started("Create c".to_string(), TaskKind::Create, 0));
    tasks.insert(4, TaskView::started("x".to_string(), TaskKind::Upgrade, 0));
    assert_eq!(upgrade_task_ids(&tasks), vec![2, 4]);
}
