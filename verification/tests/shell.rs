use gosh_distrobox_manager::message::{
    ActivityMsg, AppMsg, BackupsMsg, ConfirmAction, ContainerMsg, DetailsMsg, DialogMsg, Message, PackagesMsg,
    SettingsMsg, TaskMsg, TerminalMsg, WizardMsg,
};
use gosh_distrobox_manager::model::{
    AppConfig, ContainerInfo, ContainerList, Failure, Status, Terminal,
};
use gosh_distrobox_manager::msg::Msg;
use gosh_distrobox_manager::shell::{ActiveDialog, BackendView, Effect, Job, Shell, error_text};
use gosh_distrobox_manager::shell_view::{
    ContainersScreen, DialogSlot, HeaderStart, deletion_report,
};
use gosh_distrobox_manager::tasks::TaskKind;
use gosh_distrobox_manager::views::{HeaderRefresh, Page};
use gosh_distrobox_manager::wizard::WizardStep;

fn healthy() -> BackendView {
    BackendView {
        blocked: false,
        blocked_message: None,
        distrobox_installed: true,
        terminals: vec![
            Terminal { name: "Kitty".into(), program: "kitty".into(), id: "kitty".into() },
            Terminal { name: "Foot".into(), program: "foot".into(), id: "foot".into() },
        ],
        configured_terminal: Some("foot".into()),
        max_output_lines: 3,
    }
}

fn blocked() -> BackendView {
    BackendView {
        blocked: true,
        blocked_message: Some("no host exec".into()),
        ..healthy()
    }
}

fn row(name: &str, status: Status) -> ContainerInfo {
    ContainerInfo {
        id: format!("id-{name}"),
        name: name.into(),
        status,
        image: "docker.io/library/ubuntu:latest".into(),
    }
}

fn up(name: &str) -> ContainerInfo {
    row(name, Status::Up("1h".into()))
}

fn down(name: &str) -> ContainerInfo {
    row(name, Status::Exited(String::new()))
}

fn shell_with(rows: Vec<ContainerInfo>) -> Shell<u32> {
    let bd = healthy();
    let (mut s, _) = Shell::<u32>::new(Some(AppConfig::defaults()), false, &bd);
    s.update(
        Message::Containers(ContainerMsg::Loaded(Ok(ContainerList { containers: rows, skipped: vec![] }))),
        &bd,
    );
    s
}

#[test]
fn a_fresh_start_loads_containers_and_version() {
    let bd = healthy();
    let (s, fx) = Shell::<u32>::new(Some(AppConfig::defaults()), true, &bd);
    assert_eq!(
        fx,
        vec![Effect::SyncTerminals, Effect::LoadContainers, Effect::LoadVersion, Effect::ImportLegacy]
    );
    assert!(s.loading.containers && s.loading_version);
    assert_eq!(s.page, Page::Dashboard);
    let (s, fx) = Shell::<u32>::new(None, true, &bd);
    assert_eq!(fx, vec![Effect::SyncTerminals, Effect::LoadContainers, Effect::LoadVersion]);
    assert!(!s.legacy_import_pending, "nowhere to store an import");
    let (s, fx) = Shell::<u32>::new(None, false, &blocked());
    assert_eq!(fx, vec![Effect::SyncTerminals]);
    assert_eq!(s.error, Some(Msg::Raw("no host exec".into())));
    assert!(s.loading_version, "the version shows as loading in a blocked start too");
    assert!(!s.loading.containers);
}

#[test]
fn a_second_stop_press_is_ignored_until_the_first_finishes() {
    let bd = healthy();
    let mut s = shell_with(vec![up("a")]);
    let fx = s.update(Message::Containers(ContainerMsg::StopRequested("a".into())), &bd);
    assert_eq!(
        fx,
        vec![Effect::StopContainer { name: "a".into(), done: Msg::ContainerStopped { name: "a".into() } }]
    );
    assert!(s.update(Message::Containers(ContainerMsg::StopRequested("a".into())), &bd).is_empty());
    let fx = s.update(
        Message::Containers(ContainerMsg::ActionFinished(Ok(Msg::ContainerStopped { name: "a".into() }))),
        &bd,
    );
    assert_eq!(fx, vec![Effect::Toast(Msg::ContainerStopped { name: "a".into() }), Effect::LoadContainers]);
    assert_eq!(s.update(Message::Containers(ContainerMsg::StopRequested("a".into())), &bd).len(), 1);
}

#[test]
fn a_blocked_environment_refuses_mutations_with_its_banner() {
    let bd = blocked();
    let mut s = shell_with(vec![up("a")]);
    assert!(s.update(Message::Containers(ContainerMsg::StopRequested("a".into())), &bd).is_empty());
    assert_eq!(s.error, Some(Msg::Raw("no host exec".into())));
    assert!(s.busy.is_empty());
    s.error = None;
    let fx = s.update(
        Message::Containers(ContainerMsg::UpgradeRequested { name: "a".into(), label: "Upgrade a".into() }),
        &bd,
    );
    assert!(fx.is_empty());
    assert_eq!(s.error, Some(Msg::Raw("no host exec".into())));
}

#[test]
fn remove_confirms_then_runs_and_cancel_only_closes() {
    let bd = healthy();
    let mut s = shell_with(vec![up("a")]);
    assert!(s.update(Message::Containers(ContainerMsg::RemoveRequested("a".into())), &bd).is_empty());
    match &s.dialog {
        Some(ActiveDialog::Confirm(spec)) => {
            assert!(spec.destructive);
            assert_eq!(spec.body, Msg::ConfirmDeleteContainer { name: "a".into() });
            assert_eq!(spec.action, ConfirmAction::RemoveContainer("a".into()));
        }
        other => panic!("expected the confirm dialog, got {other:?}"),
    }
    let fx = s.update(Message::Dialog(DialogMsg::Confirmed), &bd);
    assert_eq!(
        fx,
        vec![Effect::RemoveContainer { name: "a".into(), done: Msg::ContainerDeleted { name: "a".into() } }]
    );
    assert!(s.dialog.is_none());

    let mut s = shell_with(vec![up("b")]);
    s.update(Message::Containers(ContainerMsg::RemoveRequested("b".into())), &bd);
    assert!(s.update(Message::Dialog(DialogMsg::Cancelled), &bd).is_empty());
    assert!(s.dialog.is_none() && s.busy.is_empty());
}

#[test]
fn confirms_off_runs_destructive_actions_at_once() {
    let bd = healthy();
    let mut s = shell_with(vec![up("a"), up("b")]);
    s.update(Message::Settings(SettingsMsg::ConfirmToggled(false)), &bd);
    let fx = s.update(Message::Containers(ContainerMsg::StopAllRequested), &bd);
    assert_eq!(fx, vec![Effect::StopAllContainers { done: Msg::AllContainersStopped }]);
    assert!(s.dialog.is_none());
    // Non-destructive confirms still open.
    assert!(s.update(Message::Containers(ContainerMsg::UpgradeAllRequested), &bd).is_empty());
    assert!(s.dialog.is_some());
}

#[test]
fn stop_all_and_upgrade_all_toast_when_nothing_runs() {
    let bd = healthy();
    let mut s = shell_with(vec![down("a")]);
    assert_eq!(
        s.update(Message::Containers(ContainerMsg::StopAllRequested), &bd),
        vec![Effect::Toast(Msg::NoRunningToStop)]
    );
    assert_eq!(
        s.update(Message::Containers(ContainerMsg::UpgradeAllRequested), &bd),
        vec![Effect::Toast(Msg::NoRunningToUpgrade)]
    );
    assert!(s.dialog.is_none());
}

#[test]
fn upgrade_all_spawns_one_task_per_running_container() {
    let bd = healthy();
    let mut s = shell_with(vec![up("a"), down("b"), up("c")]);
    s.update(Message::Containers(ContainerMsg::UpgradeAllRequested), &bd);
    match &s.dialog {
        Some(ActiveDialog::Confirm(spec)) => assert_eq!(spec.body, Msg::ConfirmUpgradeAll { count: 2 }),
        other => panic!("expected the confirm dialog, got {other:?}"),
    }
    let fx = s.update(Message::Dialog(DialogMsg::Confirmed), &bd);
    assert_eq!(
        fx,
        vec![
            Effect::Spawn {
                kind: TaskKind::Upgrade,
                label: Msg::LabelUpgrade { name: "a".into() },
                job: Job::Upgrade("a".into()),
            },
            Effect::Spawn {
                kind: TaskKind::Upgrade,
                label: Msg::LabelUpgrade { name: "c".into() },
                job: Job::Upgrade("c".into()),
            },
        ]
    );
}

#[test]
fn an_upgrade_in_flight_is_not_spawned_twice() {
    let bd = healthy();
    let mut s = shell_with(vec![up("a")]);
    let req = || Message::Containers(ContainerMsg::UpgradeRequested { name: "a".into(), label: "Upgrade a".into() });
    assert_eq!(s.update(req(), &bd).len(), 2);
    s.update(
        Message::Tasks(TaskMsg::Started { label: "Upgrade a".into(), kind: TaskKind::Upgrade, at: 5, result: Ok(1) }),
        &bd,
    );
    assert!(s.upgrading("Upgrade a"));
    assert!(s.update(req(), &bd).is_empty());
    s.update(Message::Tasks(TaskMsg::Completed { id: 1, success: true }), &bd);
    assert!(!s.upgrading("Upgrade a"));
    assert_eq!(s.update(req(), &bd).len(), 2);
}

#[test]
fn a_fresh_list_drops_selections_of_deleted_containers() {
    let bd = healthy();
    let mut s = shell_with(vec![up("a"), up("b")]);
    s.update(Message::Details(DetailsMsg::OpenRequested(up("a"))), &bd);
    assert_eq!(s.selected_container.as_deref(), Some("a"));
    s.update(Message::NavSelect(Page::Packages), &bd);
    s.update(Message::NavSelect(Page::Backups), &bd);
    assert_eq!(s.packages.container.as_deref(), Some("a"));
    assert_eq!(s.backups.container.as_deref(), Some("a"));
    s.update(
        Message::Containers(ContainerMsg::Loaded(Ok(ContainerList { containers: vec![down("b")], skipped: vec![] }))),
        &bd,
    );
    assert_eq!(s.selected_container, None);
    assert!(s.details_for.is_none(), "the details page closes on a deleted container");
    assert_eq!(s.packages.container, None);
    assert_eq!(s.backups.container, None);
    assert_eq!(s.containers.containers.len(), 1);
}

#[test]
fn the_details_page_follows_its_container_by_name() {
    let bd = healthy();
    let mut s = shell_with(vec![up("a")]);
    s.update(Message::Details(DetailsMsg::OpenRequested(up("a"))), &bd);
    s.update(
        Message::Containers(ContainerMsg::Loaded(Ok(ContainerList { containers: vec![down("a")], skipped: vec![] }))),
        &bd,
    );
    assert_eq!(s.details_for, Some(down("a")));
    assert_eq!(s.containers_screen(), ContainersScreen::Details);
}

#[test]
fn stale_app_replies_are_dropped() {
    let bd = healthy();
    let mut s = shell_with(vec![up("a"), up("b")]);
    s.update(Message::Containers(ContainerMsg::Selected(Some(up("b")))), &bd);
    let fx = s.update(Message::Apps(AppMsg::Loaded("a".into(), Err(Failure::Other("late".into())))), &bd);
    assert!(fx.is_empty());
    assert_eq!(s.apps_error, None);
    assert!(s.loading.apps);
    s.update(Message::Apps(AppMsg::Loaded("b".into(), Err(Failure::Other("boom".into())))), &bd);
    assert_eq!(s.apps_error, Some(Msg::Raw("boom".into())));
    assert!(!s.loading.apps);
}

#[test]
fn selecting_a_container_loads_its_mirrors_once() {
    let bd = healthy();
    let mut s = shell_with(vec![up("a")]);
    let fx = s.update(Message::Containers(ContainerMsg::Selected(Some(up("a")))), &bd);
    assert_eq!(fx, vec![Effect::LoadApps("a".into()), Effect::LoadBinaries("a".into()), Effect::LoadStats("a".into())]);
    assert!(s.update(Message::Containers(ContainerMsg::Selected(Some(up("a")))), &bd).is_empty());
}

#[test]
fn an_equal_config_notice_is_not_echoed() {
    let bd = healthy();
    let mut s = shell_with(vec![]);
    let fx = s.update(Message::Settings(SettingsMsg::ConfigChanged(AppConfig::defaults())), &bd);
    assert!(fx.is_empty());
    let mut other = AppConfig::defaults();
    other.snapshot_prefix = "snap".into();
    let fx = s.update(Message::Settings(SettingsMsg::ConfigChanged(other)), &bd);
    assert_eq!(fx, vec![Effect::SyncTerminals]);
    assert_eq!(s.config.as_ref().unwrap().snapshot_prefix, "snap");
}

#[test]
fn settings_writes_toast_when_the_store_is_missing() {
    let bd = healthy();
    let (mut s, _) = Shell::<u32>::new(None, false, &bd);
    let fx = s.update(Message::Settings(SettingsMsg::ShowSkippedLinesToggled(true)), &bd);
    assert_eq!(fx, vec![Effect::Toast(Msg::SettingsNoPersist)]);
    let (mut s, _) = Shell::<u32>::new(Some(AppConfig::defaults()), false, &bd);
    let fx = s.update(Message::Settings(SettingsMsg::ShowSkippedLinesToggled(true)), &bd);
    assert_eq!(fx, vec![Effect::SaveConfig]);
    assert!(s.config.unwrap().show_skipped_lines);
}

#[test]
fn the_wizard_keeps_its_outcome_after_the_sweep() {
    let bd = healthy();
    let mut s = shell_with(vec![]);
    s.update(Message::Containers(ContainerMsg::NewContainerRequested), &bd);
    s.update(Message::Wizard(WizardMsg::ImageSelected("fedora:41".into())), &bd);
    s.update(Message::Wizard(WizardMsg::NextFromImage), &bd);
    let fx = s.update(Message::Wizard(WizardMsg::CreateRequested), &bd);
    let req = match fx.as_slice() {
        [Effect::CheckCreateName(req)] => req.clone(),
        other => panic!("expected a name check, got {other:?}"),
    };
    let fx = s.create_name_checked(req, Ok(()));
    assert!(matches!(fx.as_slice(), [Effect::Spawn { kind: TaskKind::Create, .. }]));
    assert_eq!(s.wizard.as_ref().unwrap().step, WizardStep::Progress);
    s.update(
        Message::Tasks(TaskMsg::Started { label: "Create fedora-container".into(), kind: TaskKind::Create, at: 9, result: Ok(42) }),
        &bd,
    );
    assert_eq!(s.wizard.as_ref().unwrap().task_id, Some(42));
    s.update(Message::Tasks(TaskMsg::Completed { id: 42, success: true }), &bd);
    s.update(Message::Tasks(TaskMsg::Expired(vec![42])), &bd);
    let w = s.wizard.as_ref().unwrap();
    assert_eq!(w.task_id, None);
    assert!(w.task_completed && w.task_success);
    assert!(!s.tasks.contains(42));
    assert_eq!(s.wizard_progress().map(|(live, c, ok)| (live.is_none(), c, ok)), Some((true, true, true)));
}

#[test]
fn a_rejected_create_name_shows_inline() {
    let bd = healthy();
    let mut s = shell_with(vec![]);
    s.update(Message::Images(gosh_distrobox_manager::message::ImageMsg::CreateWithImage("alpine:edge".into())), &bd);
    assert_eq!(s.page, Page::Containers);
    s.update(Message::Wizard(WizardMsg::NextFromImage), &bd);
    s.update(Message::Wizard(WizardMsg::NameChanged("-bad".into())), &bd);
    let fx = s.update(Message::Wizard(WizardMsg::CreateRequested), &bd);
    let req = match fx.as_slice() {
        [Effect::CheckCreateName(req)] => req.clone(),
        other => panic!("expected a name check, got {other:?}"),
    };
    assert!(s.create_name_checked(req, Err("must not start with a dash".into())).is_empty());
    let w = s.wizard.as_ref().unwrap();
    assert_eq!(w.inline_error, Some(Msg::InvalidContainerName { error: "must not start with a dash".into() }));
    assert_eq!(w.step, WizardStep::Config);
}

#[test]
fn a_failed_create_spawn_sends_the_wizard_back() {
    let bd = healthy();
    let mut s = shell_with(vec![]);
    s.update(Message::Containers(ContainerMsg::NewContainerRequested), &bd);
    s.wizard.as_mut().unwrap().step = WizardStep::Progress;
    let fx = s.update(
        Message::Tasks(TaskMsg::Started { label: "Create x".into(), kind: TaskKind::Create, at: 1, result: Err(Failure::BlockedEnvironment) }),
        &bd,
    );
    assert_eq!(fx, vec![Effect::Toast(Msg::CouldNotStart { label: "Create x".into(), error: Failure::BlockedEnvironment })]);
    let w = s.wizard.as_ref().unwrap();
    assert_eq!(w.step, WizardStep::Config);
    assert_eq!(w.inline_error, Some(Msg::CouldNotStartCreation { error: Failure::BlockedEnvironment }));
    assert_eq!(s.error, None, "the wizard shows it, not the banner");
}

#[test]
fn a_cancelled_create_reads_as_failed() {
    let bd = healthy();
    let mut s = shell_with(vec![]);
    s.update(Message::Containers(ContainerMsg::NewContainerRequested), &bd);
    s.wizard.as_mut().unwrap().step = WizardStep::Progress;
    s.update(
        Message::Tasks(TaskMsg::Started { label: "Create x".into(), kind: TaskKind::Create, at: 1, result: Ok(5) }),
        &bd,
    );
    assert_eq!(s.update(Message::Wizard(WizardMsg::ProgressCancelRequested), &bd), vec![Effect::CancelTask(5)]);
    s.update(Message::Tasks(TaskMsg::CancelAccepted(5)), &bd);
    let w = s.wizard.as_ref().unwrap();
    assert!(w.task_completed && !w.task_success);
    assert!(s.tasks.get(5).unwrap().completed);
}

#[test]
fn output_is_capped_to_the_newest_lines() {
    let bd = healthy();
    let mut s = shell_with(vec![]);
    s.update(
        Message::Tasks(TaskMsg::Started { label: "t".into(), kind: TaskKind::Other, at: 1, result: Ok(1) }),
        &bd,
    );
    s.update(Message::Tasks(TaskMsg::Output { id: 1, lines: vec!["1".into(), "2".into()] }), &bd);
    s.update(Message::Tasks(TaskMsg::Output { id: 1, lines: vec!["3".into(), "4".into()] }), &bd);
    assert_eq!(s.tasks.get(1).unwrap().output, vec!["2".to_string(), "3".into(), "4".into()]);
}

#[test]
fn a_failed_task_is_toasted_with_its_label() {
    let bd = healthy();
    let mut s = shell_with(vec![]);
    s.update(
        Message::Tasks(TaskMsg::Started { label: "Install vim".into(), kind: TaskKind::Other, at: 1, result: Ok(3) }),
        &bd,
    );
    assert_eq!(
        s.update(Message::Tasks(TaskMsg::Completed { id: 3, success: false }), &bd),
        vec![Effect::Toast(Msg::TaskFailed { label: Some("Install vim".into()) })]
    );
    assert_eq!(
        s.update(Message::Tasks(TaskMsg::Completed { id: 99, success: false }), &bd),
        vec![Effect::Toast(Msg::TaskFailed { label: None })]
    );
}

#[test]
fn clearing_completed_keeps_running_tasks_and_closes_their_drawer() {
    let bd = healthy();
    let mut s = shell_with(vec![]);
    for (id, label) in [(1u64, "a"), (2, "b"), (3, "c")] {
        s.update(
            Message::Tasks(TaskMsg::Started { label: label.into(), kind: TaskKind::Other, at: 1, result: Ok(id) }),
            &bd,
        );
    }
    s.update(Message::Tasks(TaskMsg::Completed { id: 2, success: true }), &bd);
    s.update(Message::Activity(gosh_distrobox_manager::message::ActivityMsg::Expanded(2)), &bd);
    assert_eq!(s.activity.expanded, Some(2));
    let fx = s.update(Message::Settings(SettingsMsg::ClearCompleted), &bd);
    assert_eq!(fx, vec![Effect::Toast(Msg::CompletedTasksCleared)]);
    assert_eq!(s.tasks.len(), 2);
    assert!(s.tasks.contains(1) && s.tasks.contains(3) && !s.tasks.contains(2));
    assert_eq!(s.activity.expanded, None);
}

#[test]
fn the_drawer_opens_only_on_a_known_task_and_leaves_with_it() {
    let bd = healthy();
    let mut s = shell_with(vec![]);
    s.update(Message::Activity(ActivityMsg::Expanded(7)), &bd);
    assert_eq!(s.activity.expanded, None, "no task 7 to show");
    s.update(
        Message::Tasks(TaskMsg::Started { label: "t".into(), kind: TaskKind::Other, at: 1, result: Ok(7) }),
        &bd,
    );
    s.update(Message::Activity(ActivityMsg::Expanded(7)), &bd);
    assert_eq!(s.activity.expanded, Some(7));
    s.update(Message::Tasks(TaskMsg::Expired(vec![7])), &bd);
    assert_eq!(s.activity.expanded, None);
    assert!(!s.tasks.contains(7));
}

#[test]
fn leaving_containers_pops_details_and_terminal() {
    let bd = healthy();
    let mut s = shell_with(vec![up("a")]);
    s.update(Message::Details(DetailsMsg::OpenRequested(up("a"))), &bd);
    let fx = s.update(Message::Details(DetailsMsg::TerminalRequested("a".into())), &bd);
    assert_eq!(fx, vec![Effect::LoadEnterCommand("a".into())]);
    assert_eq!(s.terminal.terminal_id.as_deref(), Some("foot"), "seeded from the preference");
    assert_eq!(s.containers_screen(), ContainersScreen::Terminal("a".into()));
    assert_eq!(s.header_start(), HeaderStart::CloseTerminal);
    s.update(Message::NavSelect(Page::Images), &bd);
    assert!(s.details_for.is_none() && s.terminal.container.is_none());
    assert_eq!(s.header_start(), HeaderStart::Refresh(HeaderRefresh::Images));
}

#[test]
fn a_gated_refresh_reprobes() {
    let mut s = shell_with(vec![]);
    let fx = s.update(Message::Containers(ContainerMsg::RefreshRequested), &blocked());
    assert_eq!(fx, vec![Effect::Reprobe]);
    let not_installed = BackendView { distrobox_installed: false, ..healthy() };
    assert_eq!(s.update(Message::Containers(ContainerMsg::RefreshRequested), &not_installed), vec![Effect::Reprobe]);
    assert_eq!(s.update(Message::Containers(ContainerMsg::RefreshRequested), &healthy()), vec![Effect::LoadContainers]);
}

#[test]
fn failures_render_through_their_kind() {
    assert_eq!(error_text(&Failure::BlockedEnvironment), Msg::BlockedEnvironment);
    assert_eq!(
        error_text(&Failure::CommandFailed { command: "distrobox stop a".into(), stderr: "nope".into() }),
        Msg::CommandFailed { command: "distrobox stop a".into(), stderr: "nope".into() }
    );
    assert_eq!(error_text(&Failure::Other("io".into())), Msg::Raw("io".into()));
}

#[test]
fn delete_all_reports_survivors() {
    assert_eq!(deletion_report(3, &[]), Msg::AllContainersDeleted { count: 3 });
    let failures = vec![("a".to_string(), "busy".to_string()), ("b".to_string(), "denied".to_string())];
    assert_eq!(
        deletion_report(5, &failures),
        Msg::ContainersDeletedPartial { done: 3, total: 5, failures: "a (busy), b (denied)".into() }
    );
}

#[test]
fn clone_dialog_defaults_and_validates() {
    let bd = healthy();
    let mut s = shell_with(vec![up("a")]);
    s.update(Message::Details(DetailsMsg::CloneRequested("a".into())), &bd);
    assert_eq!(s.dialog, Some(ActiveDialog::Clone { source: "a".into(), name: "a-clone".into() }));
    let fx = s.update(
        Message::Details(DetailsMsg::CloneConfirmed { source: "a".into(), name: "  b  ".into() }),
        &bd,
    );
    assert_eq!(fx, vec![Effect::CheckCloneName { source: "a".into(), name: "b".into() }]);
    assert_eq!(s.clone_name_checked("a".into(), "b b".into(), false), vec![Effect::Toast(Msg::CloneNameInvalid { name: "b b".into() })]);
    assert!(s.dialog.is_some());
    let fx = s.clone_name_checked("a".into(), "b".into(), true);
    assert_eq!(fx.len(), 2);
    assert!(s.dialog.is_none());
}

#[test]
fn backups_dialogs_are_loud_on_empty_fields() {
    let bd = healthy();
    let mut s = shell_with(vec![up("box")]);
    assert_eq!(
        s.update(Message::Backups(BackupsMsg::CreateDialogRequested), &bd),
        vec![Effect::Toast(Msg::SelectContainerFirst)]
    );
    assert_eq!(s.update(Message::Backups(BackupsMsg::ContainerSelected(0)), &bd), vec![Effect::LoadSnapshots("box".into())]);
    s.update(Message::Backups(BackupsMsg::CreateDialogRequested), &bd);
    assert_eq!(s.backups.create_name, "box-snapshot");
    s.update(Message::Backups(BackupsMsg::CreateNameChanged("  ".into())), &bd);
    assert!(s.update(Message::Backups(BackupsMsg::CreateConfirmed), &bd).is_empty());
    assert_eq!(s.backups.create_error, Some(Msg::SnapshotNameRequired));
    s.update(Message::Backups(BackupsMsg::ImportDialogRequested), &bd);
    s.update(Message::Backups(BackupsMsg::ImportPathChanged("/tmp/x.tar".into())), &bd);
    assert!(s.update(Message::Backups(BackupsMsg::ImportConfirmed), &bd).is_empty());
    assert_eq!(s.backups.import_error, Some(Msg::ArchiveAndImageRequired));
    s.update(Message::Backups(BackupsMsg::ExportDialogRequested), &bd);
    assert_eq!(s.backups.export_path, "/tmp/box-export.tar");
    let fx = s.update(Message::Backups(BackupsMsg::ExportConfirmed), &bd);
    assert_eq!(
        fx,
        vec![Effect::Spawn {
            kind: TaskKind::Other,
            label: Msg::LabelExport { container: "box".into(), path: "/tmp/box-export.tar".into() },
            job: Job::Export { container: "box".into(), path: "/tmp/box-export.tar".into() },
        }]
    );
    s.update(Message::Backups(BackupsMsg::RestoreDialogRequested("snap".into())), &bd);
    assert_eq!(s.backups.restore, Some(("snap".to_string(), "restored-container".to_string())));
    assert_eq!(s.dialog_slot(), DialogSlot::Backups);
}

#[test]
fn snapshot_replies_for_another_container_are_dropped() {
    let bd = healthy();
    let mut s = shell_with(vec![up("a"), up("b")]);
    s.update(Message::Backups(BackupsMsg::ContainerSelected(1)), &bd);
    assert!(s.update(Message::Backups(BackupsMsg::SnapshotsLoaded("a".into(), Ok(vec![]))), &bd).is_empty());
    assert!(s.backups.loading);
    s.update(Message::Backups(BackupsMsg::SnapshotsLoaded("b".into(), Ok(vec![]))), &bd);
    assert!(!s.backups.loading);
}

#[test]
fn package_search_runs_only_on_a_running_container() {
    let bd = healthy();
    let mut s = shell_with(vec![down("a"), up("b")]);
    let fx = s.update(Message::NavSelect(Page::Packages), &bd);
    assert_eq!(fx, vec![Effect::DetectPackageManager("b".into()), Effect::LoadInstalledPackages("b".into())]);
    s.update(Message::Packages(PackagesMsg::QueryChanged("  vim ".into())), &bd);
    assert_eq!(
        s.update(Message::Packages(PackagesMsg::SearchSubmitted), &bd),
        vec![Effect::SearchPackages { container: "b".into(), query: "vim".into() }]
    );
    s.update(Message::Packages(PackagesMsg::ContainerSelected(0)), &bd);
    assert!(s.update(Message::Packages(PackagesMsg::SearchSubmitted), &bd).is_empty());
    s.update(Message::Packages(PackagesMsg::InstallFromBox), &bd);
    match &s.dialog {
        Some(ActiveDialog::Confirm(spec)) => assert_eq!(
            spec.action,
            ConfirmAction::InstallPackage { container: "a".into(), package: "vim".into() }
        ),
        other => panic!("expected the install confirm, got {other:?}"),
    }
}

#[test]
fn launch_uses_the_picked_terminal_or_the_first() {
    let bd = healthy();
    let mut s = shell_with(vec![up("a")]);
    s.update(Message::Terminal(TerminalMsg::OpenRequested("a".into())), &bd);
    let fx = s.update(Message::Terminal(TerminalMsg::LaunchRequested("a".into())), &bd);
    assert_eq!(fx, vec![Effect::LaunchTerminal { container: "a".into(), terminal: bd.terminals[1].clone() }]);
    s.update(Message::Terminal(TerminalMsg::TerminalSelected(9)), &bd);
    let fx = s.update(Message::Terminal(TerminalMsg::LaunchRequested("a".into())), &bd);
    assert_eq!(fx, vec![Effect::LaunchTerminal { container: "a".into(), terminal: bd.terminals[0].clone() }]);
    let none = BackendView { terminals: vec![], ..healthy() };
    assert_eq!(
        s.update(Message::Terminal(TerminalMsg::LaunchRequested("a".into())), &none),
        vec![Effect::Toast(Msg::NoTerminalAvailable)]
    );
}

#[test]
fn header_end_follows_the_page() {
    let bd = healthy();
    let mut s = shell_with(vec![up("a")]);
    s.update(Message::NavSelect(Page::Apps), &bd);
    assert!(matches!(s.header_end().as_slice(), [None]));
    s.update(Message::Containers(ContainerMsg::Selected(Some(up("a")))), &bd);
    assert!(matches!(s.header_end().as_slice(), [Some(Message::Apps(AppMsg::ReloadRequested(c)))] if c == "a"));
    s.update(Message::NavSelect(Page::Updates), &bd);
    assert_eq!(s.header_end().len(), 2);
}

#[test]
fn tasks_are_listed_in_id_order_whatever_order_they_start_in() {
    let bd = healthy();
    let mut s = shell_with(vec![]);
    for id in [5u64, 2, 9] {
        s.update(
            Message::Tasks(TaskMsg::Started {
                label: format!("task {id}"),
                kind: TaskKind::Other,
                at: id,
                result: Ok(id),
            }),
            &bd,
        );
    }
    let ids: Vec<u64> = s.tasks.entries().iter().map(|(id, _)| *id).collect();
    assert_eq!(ids, vec![2, 5, 9]);
}
