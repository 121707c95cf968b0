//! The state shown on the settings page.
use vstd::prelude::*;
use crate::hotkey::hotkey_label_spec;
use crate::keys::{ApiKeyInfo, KeyStore, is_snapshot, snapshot_keys, SettingsStateCore};
use crate::prefs::{Prefs, hotkey_label};
use crate::prompts::{spec_active_rules, visible_rules};
use crate::text::{contains, contains_str, lower_seq, lower_str, replace, replace_str, views};

verus! {

/// Everything the settings page shows.
pub struct SettingsState {
    pub has_api_key: bool,
    pub active_key_id: Option<String>,
    pub api_keys: Vec<ApiKeyInfo>,
    pub autostart: bool,
    pub close_to_tray: bool,
    pub start_minimized: bool,
    pub hotkey_label: String,
    pub can_autostart: bool,
    pub ui_language: String,
    pub native_language: String,
    pub foreign_language: String,
    pub prompt_rules: Vec<String>,
    pub rules_customized: bool,
    pub timeout_secs: u64,
    pub max_output_tokens: u32,
    pub fallback_models: bool,
}

/// The settings page for these preferences and keys, with whether start-up
/// launch is on and whether it can be turned on.
pub fn get_settings_state(prefs: &Prefs, store: &KeyStore, autostart: bool, can_autostart: bool) -> (r: SettingsState)
    ensures
        is_snapshot(
            SettingsStateCore {
                has_api_key: r.has_api_key,
                active_key_id: r.active_key_id,
                api_keys: r.api_keys,
            },
            *store,
        ),
        r.autostart == autostart,
        r.can_autostart == can_autostart,
        r.close_to_tray == prefs.close_to_tray,
        r.start_minimized == prefs.start_minimized,
        r.hotkey_label@ == hotkey_label_spec(prefs.hotkey),
        r.ui_language@ == prefs.ui_language@,
        r.native_language@ == prefs.native_language@,
        r.foreign_language@ == prefs.foreign_language@,
        views(r.prompt_rules@) == spec_active_rules(*prefs),
        r.rules_customized == prefs.rules_customized,
        r.timeout_secs == prefs.timeout_secs,
        r.max_output_tokens == prefs.max_output_tokens,
        r.fallback_models == prefs.fallback_models,
{
    let keys = snapshot_keys(store);
    SettingsState {
        has_api_key: keys.has_api_key,
        active_key_id: keys.active_key_id,
        api_keys: keys.api_keys,
        autostart: autostart,
        close_to_tray: prefs.close_to_tray,
        start_minimized: prefs.start_minimized,
        hotkey_label: hotkey_label(prefs),
        can_autostart: can_autostart,
        ui_language: prefs.ui_language.clone(),
        native_language: prefs.native_language.clone(),
        foreign_language: prefs.foreign_language.clone(),
        prompt_rules: visible_rules(prefs),
        rules_customized: prefs.rules_customized,
        timeout_secs: prefs.timeout_secs,
        max_output_tokens: prefs.max_output_tokens,
        fallback_models: prefs.fallback_models,
    }
}

/// An executable path inside a `target\debug\` directory (either slash, any
/// case): a development build.
pub open spec fn spec_is_dev_path(path: Seq<char>) -> bool {
    contains(lower_seq(replace(path, "/"@, "\\"@)), "\\target\\debug\\"@)
}

pub fn is_dev_path(path: &str) -> (r: bool)
    ensures
        r == spec_is_dev_path(path@),
{
    proof {
        reveal_strlit("/");
    }
    let a = replace_str(path, "/", "\\");
    let b = lower_str(a.as_str());
    contains_str(b.as_str(), "\\target\\debug\\")
}

} // verus!
