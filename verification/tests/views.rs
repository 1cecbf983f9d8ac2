use gosh_distrobox_manager::model::{ContainerList, ParseIssue};
use gosh_distrobox_manager::msg::Msg;
use gosh_distrobox_manager::views::{
    all_rows_failed_copy, container_list_copy, dashboard_preview_copy, dashboard_status_body,
    skipped_summary,
};

fn issue(line: &str, error: &str) -> ParseIssue {
    ParseIssue { line: line.to_string(), error: error.to_string() }
}

#[test]
fn all_rows_skipped_is_not_a_clean_empty() {
    let all_skipped = ContainerList {
        containers: vec![],
        skipped: vec![issue("garbage", "expected four fields")],
    };
    assert!(all_skipped.is_empty(), "the cache slice is empty");
    assert!(!all_skipped.is_clean_empty(), "but rows were returned");
    assert!(ContainerList::new().is_clean_empty(), "no rows at all");
}

#[test]
fn container_list_copy_switches_all_three_parts_on_clean_empty() {
    let advice = Msg::Raw("Create a container.".to_string());
    let clean = ContainerList::new();
    let (icon, title, body) = container_list_copy(&clean, advice.clone());
    assert_eq!(icon, "document-open-symbolic");
    assert_eq!(title, Msg::DashNoContainers);
    assert_eq!(body, advice);

    let skipped = ContainerList { containers: vec![], skipped: vec![issue("a", "e"), issue("b", "e")] };
    let (icon, title, body) = container_list_copy(&skipped, advice.clone());
    assert_eq!(icon, "dialog-warning-symbolic", "not the benign glyph");
    assert_eq!(title, Msg::DashRowsUnreadableTitle { count: 2 });
    assert_eq!(body, Msg::DashRowsUnreadableBody { count: 2 });
    assert_ne!(body, advice, "the create advice is a lie when rows were returned");

    let one = ContainerList { containers: vec![], skipped: vec![issue("a", "e")] };
    let (_, title, body) = container_list_copy(&one, advice);
    assert_eq!(title, Msg::DashRowsUnreadableTitle { count: 1 });
    assert_eq!(body, Msg::DashRowsUnreadableBody { count: 1 });
}

#[test]
fn skipped_summary_is_off_by_default_and_silent_when_empty() {
    assert_eq!(skipped_summary(3, false), None, "setting off → nothing");
    assert_eq!(skipped_summary(0, true), None, "nothing skipped → nothing");
    assert_eq!(skipped_summary(0, false), None);
}

#[test]
fn skipped_summary_counts_rows() {
    assert_eq!(skipped_summary(1, true), Some(Msg::DashSkippedRows { count: 1 }));
    assert_eq!(skipped_summary(3, true), Some(Msg::DashSkippedRows { count: 3 }));
    assert_ne!(
        skipped_summary(1, true),
        skipped_summary(3, true),
        "the plural selector must still distinguish one row from several"
    );
}

#[test]
fn all_rows_failed_copy_is_ungated_and_singular_aware() {
    assert_eq!(all_rows_failed_copy(1), Msg::DashAllRowsFailed { count: 1 });
    assert_eq!(all_rows_failed_copy(6), Msg::DashAllRowsFailed { count: 6 });
    assert_ne!(
        all_rows_failed_copy(1),
        all_rows_failed_copy(6),
        "the singular branch must not have collapsed into the plural one"
    );
    assert_eq!(skipped_summary(6, false), None);
    assert_ne!(all_rows_failed_copy(6), skipped_summary(6, true).unwrap());
}

#[test]
fn dashboard_surfaces_never_call_an_unreadable_list_empty() {
    let lie = Msg::DashNoContainersConfigured;
    assert_ne!(dashboard_status_body(0, 0, 6), lie);
    assert_eq!(dashboard_status_body(0, 0, 6), Msg::DashAllRowsFailed { count: 6 });
    assert_eq!(dashboard_status_body(0, 0, 0), lie);
    assert_eq!(dashboard_status_body(2, 5, 3), Msg::DashStatusRunning { running: 2, total: 5 });
    assert_eq!(dashboard_status_body(1, 1, 0), Msg::DashStatusRunning { running: 1, total: 1 });

    let (icon, title, body) = dashboard_preview_copy(6);
    assert_eq!(icon, "dialog-warning-symbolic");
    assert_eq!(title, Msg::DashPreviewUnreadableTitle);
    assert_eq!(body, Msg::DashAllRowsFailed { count: 6 });
    assert_ne!(body, Msg::DashPreviewEmptyBody);
    let (icon, title, body) = dashboard_preview_copy(0);
    assert_eq!(icon, "document-open-symbolic");
    assert_eq!(title, Msg::DashPreviewEmptyTitle);
    assert_eq!(body, Msg::DashPreviewEmptyBody);
    assert_eq!(dashboard_status_body(0, 0, 6), all_rows_failed_copy(6));
    assert_eq!(dashboard_preview_copy(6).2, all_rows_failed_copy(6));
}
