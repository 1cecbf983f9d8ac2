use gosh_distrobox_manager::message::{AppMsg, BackupsMsg, ContainerMsg, Message, TaskMsg};
use gosh_distrobox_manager::model::{EnvGuard, EnvMode};
use gosh_distrobox_manager::msg::Msg;
use gosh_distrobox_manager::views::{
    HeaderRefresh, Page, ReprobeOutcome, TaskAffordance, gate_header_message, header_refresh,
    reprobe_outcome, task_affordance,
};

#[test]
fn the_nav_rail_has_the_ten_destinations_i26_flagged() {
    assert_eq!(Page::ALL.len(), 10);
    assert_eq!(
        Page::ALL,
        [
            Page::Dashboard,
            Page::Containers,
            Page::Images,
            Page::Packages,
            Page::Updates,
            Page::Backups,
            Page::Activity,
            Page::Apps,
            Page::Settings,
            Page::Stats,
        ]
    );
}

#[test]
fn the_only_destinations_beyond_ux_md_are_apps_and_stats() {
    let rail_eight = [
        Page::Dashboard,
        Page::Containers,
        Page::Images,
        Page::Packages,
        Page::Updates,
        Page::Backups,
        Page::Activity,
        Page::Settings,
    ];
    for page in rail_eight {
        assert!(Page::ALL.contains(&page), "{page:?} must not be dropped");
    }
    let added: Vec<Page> =
        Page::ALL.iter().copied().filter(|p| !rail_eight.contains(p)).collect();
    assert_eq!(added, vec![Page::Apps, Page::Stats]);
}

#[test]
fn every_destination_has_a_distinct_non_empty_title() {
    let titles: Vec<Msg> = Page::ALL.iter().map(|p| p.title()).collect();
    for (page, title) in Page::ALL.iter().zip(&titles) {
        assert_ne!(*title, Msg::Raw(String::new()), "{page:?} renders an empty nav label");
    }
    for i in 0..titles.len() {
        for j in (i + 1)..titles.len() {
            assert_ne!(titles[i], titles[j], "two destinations share a title: {titles:?}");
        }
    }
}

#[test]
fn a_task_completion_carries_its_success_flag_rather_than_implying_it() {
    let id: u64 = 7;
    let ok = TaskMsg::Completed { id, success: true };
    let failed = TaskMsg::Completed { id, success: false };
    match (&ok, &failed) {
        (TaskMsg::Completed { success: a, .. }, TaskMsg::Completed { success: b, .. }) => {
            assert!(*a, "a successful completion must carry success: true");
            assert!(!*b, "a failed completion must carry success: false");
        }
        _ => unreachable!("both constructed as Completed above"),
    }
    assert_ne!(format!("{ok:?}"), format!("{failed:?}"));
}

#[test]
fn the_task_row_affordance_covers_all_four_flag_combinations() {
    assert_eq!(task_affordance(true, true), TaskAffordance::Succeeded);
    assert_eq!(task_affordance(true, false), TaskAffordance::Failed);
    assert_eq!(task_affordance(false, true), TaskAffordance::Running);
    assert_eq!(task_affordance(false, false), TaskAffordance::Running);
}

#[test]
fn a_running_row_is_distinguishable_from_a_finished_one() {
    let running = task_affordance(false, false);
    assert_ne!(running, TaskAffordance::Succeeded);
    assert_ne!(running, TaskAffordance::Failed);
    assert_eq!(running, task_affordance(false, true));
}

#[test]
fn the_images_header_refresh_reloads_images_not_containers() {
    assert_eq!(header_refresh(Page::Images), Some(HeaderRefresh::Images));
    for page in [
        Page::Dashboard,
        Page::Containers,
        Page::Packages,
        Page::Backups,
        Page::Activity,
        Page::Settings,
        Page::Stats,
    ] {
        assert_eq!(header_refresh(page), Some(HeaderRefresh::Containers), "{page:?}");
    }
    for page in [Page::Updates, Page::Apps] {
        assert_eq!(header_refresh(page), None, "{page:?}");
    }
}

fn guard(mode: EnvMode, installed: bool, message: Option<&str>) -> EnvGuard {
    EnvGuard { mode, message: message.map(str::to_string), distrobox_installed: installed }
}

#[test]
fn a_reprobe_that_finds_distrobox_recovers_and_one_that_does_not_stays_gated() {
    assert_eq!(reprobe_outcome(&guard(EnvMode::Native, true, None)), ReprobeOutcome::Recovered);
    assert_eq!(reprobe_outcome(&guard(EnvMode::FlatpakHost, true, None)), ReprobeOutcome::Recovered);
    assert_eq!(
        reprobe_outcome(&guard(EnvMode::DistroboxHostExec, true, None)),
        ReprobeOutcome::Recovered
    );
    assert_eq!(
        reprobe_outcome(&guard(EnvMode::Native, false, None)),
        ReprobeOutcome::StillGated { error: None }
    );
    assert_eq!(
        reprobe_outcome(&guard(EnvMode::FlatpakHost, false, None)),
        ReprobeOutcome::StillGated { error: None }
    );
}

#[test]
fn a_blocked_reprobe_keeps_the_guard_message_as_the_banner() {
    let message = "Detected a Distrobox environment, but `distrobox-host-exec` is not available.";
    assert_eq!(
        reprobe_outcome(&guard(EnvMode::Blocked, false, Some(message))),
        ReprobeOutcome::StillGated { error: Some(message.to_string()) }
    );
    assert_eq!(
        reprobe_outcome(&guard(EnvMode::Blocked, true, Some(message))),
        ReprobeOutcome::StillGated { error: Some(message.to_string()) }
    );
}

fn header_message(which: usize) -> Message<()> {
    match which {
        0 => Message::Containers(ContainerMsg::NewContainerRequested),
        1 => Message::Containers(ContainerMsg::UpgradeAllRequested),
        2 => Message::Backups(BackupsMsg::CreateDialogRequested),
        3 => Message::Apps(AppMsg::ReloadRequested("box".to_string())),
        4 => Message::Containers(ContainerMsg::RefreshRequested),
        _ => Message::Tasks(TaskMsg::ClearCompleted),
    }
}

#[test]
fn gated_header_actions_disable_while_recovery_and_local_actions_stay_live() {
    let table = [(0, true), (1, true), (2, true), (3, true), (4, false), (5, false)];
    for (which, gated) in table {
        for (blocked, installed, state) in [(true, true, "blocked"), (false, false, "not-installed")]
        {
            let verdict = gate_header_message(header_message(which), blocked, installed);
            if gated {
                assert!(verdict.is_none(), "{:?} must disable in the {state} state", header_message(which));
            } else {
                assert!(verdict.is_some(), "{:?} must stay live in the {state} state", header_message(which));
            }
        }
        assert!(gate_header_message(header_message(which), false, true).is_some());
    }
}

#[test]
fn the_header_gate_passes_non_header_messages_through() {
    let msg: Message<()> = Message::Tasks(TaskMsg::CancelRequested(3));
    assert!(gate_header_message(msg, true, false).is_some());
}
