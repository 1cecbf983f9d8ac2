//! Reading the stored preferences: each key is read on its own, a missing or
//! unreadable key falls back to its default, and the one-time import of
//! older settings is due when a key it fills was never written.
use vstd::prelude::*;
use crate::model::{AppConfig, CustomTerminal};

verus! {

/// What reading one stored key gave.
#[derive(Clone, Debug, PartialEq, Eq)]
pub enum KeyRead<T> {
    Found(T),
    /// The key was never written.
    Missing,
    /// The key is there but could not be read.
    Unreadable,
}

/// The key's value, or the fallback when it was not found.
pub open spec fn value_or<T>(k: KeyRead<T>, fallback: T) -> T {
    match k {
        KeyRead::Found(v) => v,
        _ => fallback,
    }
}

/// The key's value, or the fallback when it was not found.
pub fn read_or<T>(k: KeyRead<T>, fallback: T) -> (r: T)
    ensures
        r == value_or(k, fallback),
{
    match k {
        KeyRead::Found(v) => v,
        _ => fallback,
    }
}

/// The preferences from the keys as read: every key that was found gives
/// its value, every other falls back to `defaults` (the custom terminals to
/// none). The flag says whether the older settings are still to be
/// imported: the selected terminal or the custom terminals were never
/// written (an unreadable key does not count).
pub fn fold_preferences(
    defaults: AppConfig,
    selected_terminal: KeyRead<String>,
    confirm_destructive_actions: KeyRead<bool>,
    snapshot_prefix: KeyRead<String>,
    default_export_dir: KeyRead<String>,
    show_skipped_lines: KeyRead<bool>,
    custom_terminals: KeyRead<Vec<CustomTerminal>>,
) -> (r: (AppConfig, bool))
    ensures
        r.0 == (AppConfig {
            selected_terminal: value_or(selected_terminal, defaults.selected_terminal),
            confirm_destructive_actions: value_or(
                confirm_destructive_actions,
                defaults.confirm_destructive_actions,
            ),
            snapshot_prefix: value_or(snapshot_prefix, defaults.snapshot_prefix),
            default_export_dir: value_or(default_export_dir, defaults.default_export_dir),
            show_skipped_lines: value_or(show_skipped_lines, defaults.show_skipped_lines),
            custom_terminals: value_or(custom_terminals, r.0.custom_terminals),
        }),
        !(custom_terminals is Found) ==> r.0.custom_terminals@.len() == 0,
        r.1 == (selected_terminal is Missing || custom_terminals is Missing),
{
    let needs_import = matches!(selected_terminal, KeyRead::Missing) || matches!(
        custom_terminals,
        KeyRead::Missing
    );
    let cfg = AppConfig {
        selected_terminal: read_or(selected_terminal, defaults.selected_terminal),
        confirm_destructive_actions: read_or(
            confirm_destructive_actions,
            defaults.confirm_destructive_actions,
        ),
        snapshot_prefix: read_or(snapshot_prefix, defaults.snapshot_prefix),
        default_export_dir: read_or(default_export_dir, defaults.default_export_dir),
        show_skipped_lines: read_or(show_skipped_lines, defaults.show_skipped_lines),
        custom_terminals: read_or(custom_terminals, Vec::new()),
    };
    (cfg, needs_import)
}

} // verus!
