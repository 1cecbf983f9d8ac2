use gosh_distrobox_manager::message::{ContainerMsg, Message, PackagesMsg, StatsMsg};
use gosh_distrobox_manager::model::{AppConfig, ContainerInfo, ContainerList, PackageManager, Status};
use gosh_distrobox_manager::page_state::{
    ListState, PackagesView, SnapshotsState, StatsView, enter_command_text, picker_state,
};
use gosh_distrobox_manager::shell::{BackendView, Shell};
use gosh_distrobox_manager::views::Page;

fn bd() -> BackendView {
    BackendView {
        blocked: false,
        blocked_message: None,
        distrobox_installed: true,
        terminals: vec![],
        configured_terminal: None,
        max_output_lines: 100,
    }
}

fn row(name: &str, running: bool) -> ContainerInfo {
    ContainerInfo {
        id: name.into(),
        name: name.into(),
        status: if running { Status::Up(String::new()) } else { Status::Exited(String::new()) },
        image: "alpine:edge".into(),
    }
}

fn loaded(rows: Vec<ContainerInfo>) -> Shell<u8> {
    let (mut s, _) = Shell::<u8>::new(Some(AppConfig::defaults()), false, &bd());
    s.update(Message::Containers(ContainerMsg::Loaded(Ok(ContainerList { containers: rows, skipped: vec![] }))), &bd());
    s
}

#[test]
fn enter_command_joins_with_spaces() {
    let argv: Vec<String> = vec!["distrobox".into(), "enter".into(), "mybox".into()];
    assert_eq!(enter_command_text(&argv), "distrobox enter mybox");
    assert_eq!(enter_command_text(&[]), "");
}

#[test]
fn picker_finds_the_selection_and_its_status() {
    let rows = vec![row("a", false), row("b", true)];
    assert_eq!(picker_state(&rows, &Some("b".into())), (Some(1), true));
    assert_eq!(picker_state(&rows, &Some("a".into())), (Some(0), false));
    assert_eq!(picker_state(&rows, &Some("z".into())), (None, false));
    assert_eq!(picker_state(&rows, &None), (None, false));
}

#[test]
fn packages_page_states() {
    let s = loaded(vec![]);
    assert_eq!(s.packages_view(), PackagesView::NoContainers);
    let mut s = loaded(vec![row("a", false), row("b", true)]);
    s.update(Message::Packages(PackagesMsg::ContainerSelected(0)), &bd());
    assert_eq!(
        s.packages_view(),
        PackagesView::Page {
            running: false,
            banner: true,
            install_enabled: false,
            upgrade_enabled: false,
            manual_box: false,
            list: ListState::NotRunning,
        }
    );
    s.update(Message::Packages(PackagesMsg::ContainerSelected(1)), &bd());
    s.update(Message::Packages(PackagesMsg::ManagerDetected("b".into(), Ok(PackageManager::Unknown))), &bd());
    s.update(Message::Packages(PackagesMsg::InstalledLoaded("b".into(), Ok(vec![]))), &bd());
    s.update(Message::Packages(PackagesMsg::QueryChanged("vim".into())), &bd());
    assert_eq!(
        s.packages_view(),
        PackagesView::Page {
            running: true,
            banner: false,
            install_enabled: true,
            upgrade_enabled: true,
            manual_box: true,
            list: ListState::Empty,
        }
    );
    s.update(Message::Packages(PackagesMsg::TabSelected(true)), &bd());
    match s.packages_view() {
        PackagesView::Page { list, .. } => assert_eq!(list, ListState::Prompt),
        other => panic!("{other:?}"),
    }
}

#[test]
fn snapshot_and_stats_states() {
    let mut s = loaded(vec![row("a", true)]);
    assert_eq!(s.snapshots_state(), SnapshotsState::Empty { can_create: false });
    s.update(Message::NavSelect(Page::Backups), &bd());
    assert_eq!(s.snapshots_state(), SnapshotsState::Loading);
    assert_eq!(s.stats_view(), StatsView::SelectContainer);
    s.update(Message::Containers(ContainerMsg::Selected(Some(row("a", true)))), &bd());
    assert_eq!(s.stats_view(), StatsView::Loading("a".into()));
    s.update(Message::Stats(StatsMsg::Loaded(Ok(7))), &bd());
    assert_eq!(s.stats_view(), StatsView::Show("a".into()));
    assert_eq!(s.stats, Some(7));
}
