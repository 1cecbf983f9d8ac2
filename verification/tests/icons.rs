use gosh_distrobox_manager::icons::{ThemeRole, distro_icon, distro_role, status_label, status_role};
use gosh_distrobox_manager::model::Status;

#[test]
fn distro_table_covers_superset() {
    assert_eq!(distro_icon("docker.io/library/ubuntu:latest"), "ubuntu");
    assert_eq!(distro_icon("Fedora 41"), "fedora");
    assert_eq!(distro_icon("archlinux:latest"), "archlinux");
    assert_eq!(distro_icon("debian:12"), "debian");
    assert_eq!(distro_icon("alpine:edge"), "alpine");
    assert_eq!(distro_icon("rockylinux:9"), "centos");
    assert_eq!(distro_icon("opensuse/tumbleweed"), "opensuse");
    assert_eq!(distro_icon("gentoo/stage3"), "gentoo");
    assert_eq!(distro_icon("voidlinux"), "void");
    assert_eq!(distro_icon("something-else"), "container-symbolic");
}

#[test]
fn status_colors_follow_theme_roles() {
    assert_eq!(status_role(&Status::Up(String::new())), ThemeRole::Success);
    assert_eq!(status_role(&Status::Created(String::new())), ThemeRole::Accent);
    assert_eq!(status_role(&Status::Exited(String::new())), ThemeRole::Warning);
    assert_eq!(status_role(&Status::Other(String::new())), ThemeRole::Neutral);
}

#[test]
fn distro_colours_follow_theme_roles() {
    for image in ["ubuntu:24.04", "Debian 12", "opensuse/tumbleweed"] {
        assert_eq!(distro_role(image), ThemeRole::Accent, "{image} rides the accent role");
    }
    for image in ["Fedora 41", "alpine:edge", "gentoo/stage3"] {
        assert_eq!(distro_role(image), ThemeRole::Success, "{image} rides the success role");
    }
    for image in ["archlinux:latest", "rockylinux:9", "voidlinux"] {
        assert_eq!(distro_role(image), ThemeRole::Warning, "{image} rides the warning role");
    }
    assert_eq!(distro_role("something-else"), ThemeRole::Neutral);
}

#[test]
fn status_labels_match_flutter_copy() {
    assert_eq!(status_label(&Status::Up(String::new())), "Running");
    assert_eq!(status_label(&Status::Up("2h".to_string())), "Running 2h");
    assert_eq!(status_label(&Status::Created(String::new())), "Created");
    assert_eq!(status_label(&Status::Other(String::new())), "Unknown");
    assert_eq!(status_label(&Status::Other("weird".to_string())), "weird");
}

#[test]
fn exited_status_keeps_its_detail() {
    assert_eq!(status_label(&Status::Exited("(0) 3 days ago".to_string())), "Exited (0) 3 days ago");
    assert_eq!(status_label(&Status::Exited(String::new())), "Exited");
}
