use gosh_distrobox_manager::message::WizardMsg;
use gosh_distrobox_manager::msg::Msg;
use gosh_distrobox_manager::wizard::{WizardEffect, WizardState, WizardStep};

#[test]
fn effective_image_prefers_custom() {
    let mut w = WizardState::default();
    assert_eq!(w.effective_image(), "");
    w.selected_image = Some("a".to_string());
    assert_eq!(w.effective_image(), "a");
    w.custom_image = "  b  ".to_string();
    assert_eq!(w.effective_image(), "b");
}

#[test]
fn display_name_and_tag_match_flutter() {
    assert_eq!(WizardState::image_display_name("registry.fedoraproject.org/fedora:39"), "Fedora");
    assert_eq!(WizardState::image_display_name(""), "container");
    assert_eq!(WizardState::image_tag("registry.fedoraproject.org/fedora:39"), "39");
    assert_eq!(WizardState::image_tag("ubuntu"), "latest");
    assert_eq!(WizardState::default_name("docker.io/library/ubuntu:latest"), "ubuntu-container");
}

#[test]
fn filter_is_case_insensitive_live() {
    let images = vec!["Ubuntu:latest".to_string(), "Fedora:41".to_string()];
    assert_eq!(WizardState::filter_images(&images, "").len(), 2);
    assert_eq!(WizardState::filter_images(&images, "UBU").len(), 1);
    assert!(WizardState::filter_images(&images, "zzz").is_empty());
}

#[test]
fn preselected_seeds_both_fields() {
    let w = WizardState::with_preselected("x".to_string());
    assert_eq!(w.selected_image.as_deref(), Some("x"));
    assert_eq!(w.custom_image, "x");
    assert_eq!(w.effective_image(), "x");
}

#[test]
fn next_requires_an_image_and_fills_the_name() {
    let mut w = WizardState::default();
    assert_eq!(w.update(WizardMsg::NextFromImage), WizardEffect::Stay);
    assert_eq!(w.inline_error, Some(Msg::PleaseSelectAnImage));
    assert_eq!(w.step, WizardStep::Image);
    w.update(WizardMsg::ImageSelected("docker.io/library/ubuntu:latest".to_string()));
    assert_eq!(w.inline_error, None);
    w.update(WizardMsg::NextFromImage);
    assert_eq!(w.step, WizardStep::Config);
    assert_eq!(w.name, "ubuntu-container");
}

#[test]
fn create_needs_a_name_and_carries_the_trimmed_request() {
    let mut w = WizardState::with_preselected("fedora:41".to_string());
    w.update(WizardMsg::NextFromImage);
    w.update(WizardMsg::NameChanged("   ".to_string()));
    assert_eq!(w.update(WizardMsg::CreateRequested), WizardEffect::Stay);
    assert_eq!(w.inline_error, Some(Msg::PleaseEnterContainerName));
    w.update(WizardMsg::NameChanged("  box  ".to_string()));
    w.update(WizardMsg::HomeChanged("  /home/me/box ".to_string()));
    w.update(WizardMsg::InitToggled(true));
    match w.update(WizardMsg::CreateRequested) {
        WizardEffect::Create(req) => {
            assert_eq!(req.name, "box");
            assert_eq!(req.image, "fedora:41");
            assert!(req.init);
            assert!(!req.nvidia);
            assert_eq!(req.home_path.as_deref(), Some("/home/me/box"));
            assert!(req.volumes.is_empty());
        }
        other => panic!("expected a create request, got {other:?}"),
    }
}

#[test]
fn volume_dialog_validates_loudly_and_trims() {
    let mut w = WizardState::default();
    w.update(WizardMsg::VolumeAddRequested);
    w.update(WizardMsg::VolumeDialogConfirmed);
    assert_eq!(w.volume_dialog.as_ref().unwrap().error, Some(Msg::HostPathRequired));
    w.update(WizardMsg::VolumeDialogHostChanged(" /mnt/data ".to_string()));
    assert_eq!(w.volume_dialog.as_ref().unwrap().error, None);
    w.update(WizardMsg::VolumeDialogConfirmed);
    assert_eq!(w.volume_dialog.as_ref().unwrap().error, Some(Msg::ContainerPathRequired));
    w.update(WizardMsg::VolumeDialogContainerChanged("/data".to_string()));
    w.update(WizardMsg::VolumeDialogReadOnlyToggled(true));
    w.update(WizardMsg::VolumeDialogConfirmed);
    assert!(w.volume_dialog.is_none());
    assert_eq!(w.volumes.len(), 1);
    assert_eq!(w.volumes[0].host, "/mnt/data");
    assert_eq!(w.volumes[0].container, "/data");
    assert!(w.volumes[0].read_only);
    w.update(WizardMsg::VolumeRemoved(5));
    assert_eq!(w.volumes.len(), 1);
    w.update(WizardMsg::VolumeRemoved(0));
    assert!(w.volumes.is_empty());
}

#[test]
fn custom_text_clears_the_selection() {
    let mut w = WizardState::default();
    w.update(WizardMsg::ImageSelected("a".to_string()));
    w.update(WizardMsg::CustomChanged("b".to_string()));
    assert_eq!(w.selected_image, None);
    assert_eq!(w.effective_image(), "b");
    w.update(WizardMsg::ImageSelected("c".to_string()));
    assert_eq!(w.custom_image, "");
    assert_eq!(w.effective_image(), "c");
}
