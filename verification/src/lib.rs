//! Gosh Distrobox Manager: the page logic of the Distrobox GUI — what each
//! page shows for the state it is in, and how each user action or backend
//! reply moves that state — with the widgets and the backend calls left to
//! the application around it.

pub mod activity;
pub mod apps_view;
pub mod backups;
pub mod dispatch;
pub mod icons;
pub mod laws;
pub mod message;
pub mod model;
pub mod msg;
pub mod packages;
pub mod page_state;
pub mod prefs;
pub mod shell;
pub mod shell_backups;
pub mod shell_containers;
pub mod shell_pages;
pub mod shell_settings;
pub mod shell_view;
pub mod tasks;
pub mod terminal;
pub mod text;
pub mod updates;
pub mod views;
pub mod wizard;
