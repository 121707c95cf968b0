use idkeng::hook::HookState;
use idkeng::hotkey::{default_hotkey, Hotkey};
use idkeng::keys::{
    active_profile, add_api_key, canonical_provider, display_model, has_api_key, is_provider,
    key_summaries, legacy_key_store, load_api_key, remove_api_key, resolved_base_url,
    resolved_model, select_api_key, snapshot_keys, KeyEntry, KeyStore,
};
use idkeng::prefs::{
    close_to_tray, default_foreign, default_native, default_timeout, default_tokens,
    default_true, default_ui_lang, empty_prefs, hotkey, hotkey_copies_selection, hotkey_label,
    max_output_tokens, normalize_prefs, repair_loaded_prefs, set_app_prefs, set_close_to_tray,
    set_hotkey, set_hotkey_binding, set_start_minimized, start_minimized, timeout_secs,
    ui_language, AppPrefsUpdate,
};
use idkeng::settings::{get_settings_state, is_dev_path};

fn empty_store() -> KeyStore {
    KeyStore { active_id: None, keys: Vec::new() }
}

fn add(store: &mut KeyStore, name: &str, key: &str, provider: &str, model: &str, base: &str) -> Result<(), String> {
    add_api_key(store, name.into(), key.into(), provider.into(), model.into(), base.into()).map(|_| ())
}

fn update(ui: &str, native: &str, foreign: &str, timeout: u64, tokens: u32) -> AppPrefsUpdate {
    AppPrefsUpdate {
        ui_language: ui.into(),
        native_language: native.into(),
        foreign_language: foreign.into(),
        prompt_rules: vec![" a ".to_string(), "".to_string()],
        rules_customized: true,
        timeout_secs: timeout,
        max_output_tokens: tokens,
        fallback_models: false,
    }
}

#[test]
fn defaults() {
    assert!(default_true());
    assert_eq!(default_ui_lang(), "tr");
    assert_eq!(default_native(), "tr");
    assert_eq!(default_foreign(), "en");
    assert_eq!(default_timeout(), 20);
    assert_eq!(default_tokens(), 2048);
    let p = empty_prefs();
    assert!(close_to_tray(&p));
    assert!(!start_minimized(&p));
    assert_eq!(hotkey(&p), default_hotkey());
    assert_eq!(hotkey_label(&p), "Ctrl+C+C");
    assert!(hotkey_copies_selection(&p));
    assert_eq!(timeout_secs(&p), 20);
    assert_eq!(max_output_tokens(&p), 2048);
    assert_eq!(ui_language(&p), "tr");
    assert!(p.prompt_rules.is_empty());
}

#[test]
fn limits_are_clamped() {
    let mut p = empty_prefs();
    p.timeout_secs = 1;
    p.max_output_tokens = 100_000;
    assert_eq!(timeout_secs(&p), 5);
    assert_eq!(max_output_tokens(&p), 8192);
    p.timeout_secs = 999;
    p.max_output_tokens = 3;
    assert_eq!(timeout_secs(&p), 120);
    assert_eq!(max_output_tokens(&p), 128);
}

#[test]
fn normalizing_loaded_prefs() {
    let mut p = empty_prefs();
    p.ui_language = "xx".into();
    p.native_language = "en".into();
    p.foreign_language = "en".into();
    p.timeout_secs = 0;
    p.max_output_tokens = 50;
    p.custom_prompt = "1. a\n2. b".into();
    normalize_prefs(&mut p);
    assert_eq!(p.ui_language, "tr");
    assert_eq!(p.native_language, "en");
    assert_eq!(p.foreign_language, "tr");
    assert_eq!(p.timeout_secs, 20);
    assert_eq!(p.max_output_tokens, 128);
    assert!(p.rules_customized);
    assert_eq!(p.prompt_rules, vec!["a".to_string(), "b".to_string()]);
    assert_eq!(p.custom_prompt, "");

    let mut q = empty_prefs();
    q.native_language = "de".into();
    q.foreign_language = "de".into();
    q.timeout_secs = 500;
    q.max_output_tokens = 0;
    q.custom_prompt = "   ".into();
    normalize_prefs(&mut q);
    assert_eq!(q.foreign_language, "en");
    assert_eq!(q.timeout_secs, 120);
    assert_eq!(q.max_output_tokens, 2048);
    assert!(!q.rules_customized);
    assert_eq!(q.custom_prompt, "   ");

    let mut r = empty_prefs();
    r.hotkey = Hotkey { ctrl: false, alt: false, shift: false, win: false, vk: 0x41, taps: 1 };
    repair_loaded_prefs(&mut r);
    assert_eq!(r.hotkey, default_hotkey());
}

#[test]
fn settings_page_updates() {
    let mut p = empty_prefs();
    assert_eq!(set_app_prefs(&mut p, update("xx", "tr", "en", 20, 2048)), Err("err:language".to_string()));
    assert_eq!(set_app_prefs(&mut p, update("en", "tr", "tr", 20, 2048)), Err("err:same_language".to_string()));
    assert_eq!(set_app_prefs(&mut p, update("en", "tr", "en", 4, 2048)), Err("err:timeout_range".to_string()));
    assert_eq!(set_app_prefs(&mut p, update("en", "tr", "en", 121, 2048)), Err("err:timeout_range".to_string()));
    assert_eq!(set_app_prefs(&mut p, update("en", "tr", "en", 20, 127)), Err("err:tokens".to_string()));
    assert_eq!(set_app_prefs(&mut p, update("en", "tr", "en", 20, 8193)), Err("err:tokens".to_string()));
    assert_eq!(p.ui_language, "tr");
    p.custom_prompt = "old".into();
    assert_eq!(set_app_prefs(&mut p, update("en", "de", "fr", 5, 8192)), Ok(()));
    assert_eq!(p.ui_language, "en");
    assert_eq!(p.native_language, "de");
    assert_eq!(p.foreign_language, "fr");
    assert_eq!(p.prompt_rules, vec!["a".to_string()]);
    assert!(p.rules_customized);
    assert_eq!(p.custom_prompt, "");
    assert_eq!(p.timeout_secs, 5);
    assert_eq!(p.max_output_tokens, 8192);
    assert!(!p.fallback_models);
    let mut u = update("en", "de", "fr", 5, 8192);
    u.rules_customized = false;
    assert_eq!(set_app_prefs(&mut p, u), Ok(()));
    assert!(p.prompt_rules.is_empty());
}

#[test]
fn shortcut_and_flags() {
    let mut p = empty_prefs();
    let mut hook = HookState::new();
    hook.last_tap_ms = 77;
    hook.trigger_held = true;
    let bad = Hotkey { ctrl: true, alt: false, shift: false, win: false, vk: 0x1B, taps: 1 };
    assert!(set_hotkey(&mut p, bad).is_err());
    assert_eq!(p.hotkey, default_hotkey());
    let good = Hotkey { ctrl: false, alt: true, shift: false, win: false, vk: 0x54, taps: 1 };
    assert_eq!(set_hotkey_binding(&mut p, good), Ok("Alt+T".to_string()));
    assert_eq!(p.hotkey, good);
    assert_eq!(hook.last_tap_ms, 77);
    hook.reset_pending();
    assert_eq!(hook.last_tap_ms, 0);
    assert!(!hook.trigger_held);
    assert!(!hotkey_copies_selection(&p));
    set_close_to_tray(&mut p, false);
    set_start_minimized(&mut p, true);
    assert!(!close_to_tray(&p));
    assert!(start_minimized(&p));
}

#[test]
fn providers_models_and_endpoints() {
    assert!(is_provider("openrouter"));
    assert!(!is_provider("OpenAI"));
    assert_eq!(canonical_provider("  OpenAI "), "openai");
    assert_eq!(canonical_provider("other"), "gemini");
    let mut e = KeyEntry {
        id: "1".into(),
        name: "n".into(),
        key: "k".into(),
        provider: "groq".into(),
        model: "   ".into(),
        base_url: "".into(),
    };
    assert_eq!(resolved_model(&e), "llama-3.3-70b-versatile");
    e.provider = "custom".into();
    assert_eq!(resolved_model(&e), "");
    e.provider = "weird".into();
    assert_eq!(display_model(&e), "gemini-3.1-flash-lite");
    e.model = " my-model ".into();
    assert_eq!(resolved_model(&e), "my-model");
    assert_eq!(resolved_base_url("openai", ""), "https://api.openai.com/v1");
    assert_eq!(resolved_base_url("openrouter", " "), "https://openrouter.ai/api/v1");
    assert_eq!(resolved_base_url("gemini", ""), "");
    assert_eq!(resolved_base_url("openai", " https://x.y/v1// "), "https://x.y/v1");
}

#[test]
fn adding_keys() {
    let mut s = empty_store();
    assert_eq!(add(&mut s, "  ", "12345678", "gemini", "", ""), Err("err:name".to_string()));
    assert_eq!(add(&mut s, "a", " 1234567 ", "gemini", "", ""), Err("err:key".to_string()));
    assert_eq!(add(&mut s, "a", "12345678", "foo", "", ""), Err("err:provider".to_string()));
    assert_eq!(add(&mut s, "a", "12345678", "custom", "m", "http://x"), Err("err:base_url".to_string()));
    assert_eq!(add(&mut s, "a", "12345678", "openai", " ", ""), Err("err:model".to_string()));
    assert!(s.keys.is_empty());
    assert!(!has_api_key(&s));
    assert_eq!(load_api_key(&s), None);

    let core = add_api_key(&mut s, " Main ".into(), "ççççç".into(), "  Gemini ".into(), "".into(), "".into()).unwrap();
    assert!(core.has_api_key);
    assert_eq!(core.api_keys.len(), 1);
    assert_eq!(core.api_keys[0].name, "Main");
    assert_eq!(core.api_keys[0].provider, "gemini");
    assert_eq!(core.api_keys[0].model, "gemini-3.1-flash-lite");
    assert_eq!(core.active_key_id, Some(s.keys[0].id.clone()));
    assert_eq!(load_api_key(&s), Some("ççççç".to_string()));

    assert_eq!(add(&mut s, "MAIN", "abcdefgh", "gemini", "", ""), Err("err:duplicate".to_string()));
    assert_eq!(add(&mut s, "Work", "abcdefgh", "custom", "m1", "https://host/api//"), Ok(()));
    assert_eq!(s.keys.len(), 2);
    assert_eq!(s.keys[1].base_url, "https://host/api");
    assert_eq!(s.active_id, Some(s.keys[0].id.clone()));
}

#[test]
fn selecting_and_removing_keys() {
    let mut s = KeyStore {
        active_id: Some("a".into()),
        keys: vec![
            KeyEntry { id: "a".into(), name: "A".into(), key: "key-aaaa".into(), provider: "gemini".into(), model: "".into(), base_url: "".into() },
            KeyEntry { id: "b".into(), name: "B".into(), key: "key-bbbb".into(), provider: "openai".into(), model: "".into(), base_url: "".into() },
            KeyEntry { id: "c".into(), name: "C".into(), key: "   ".into(), provider: "groq".into(), model: "x".into(), base_url: "".into() },
        ],
    };
    assert_eq!(select_api_key(&mut s, "zzz".into()).err(), Some("err:not_found".to_string()));
    assert_eq!(s.active_id, Some("a".to_string()));
    let core = select_api_key(&mut s, "c".into()).ok().unwrap();
    assert!(!core.has_api_key);
    assert!(!has_api_key(&s));
    assert_eq!(active_profile(&s, &empty_prefs()).err(), Some("err:no_key".to_string()));

    select_api_key(&mut s, "b".into()).ok().unwrap();
    let p = active_profile(&s, &empty_prefs()).ok().unwrap();
    assert_eq!(p.name, "B");
    assert_eq!(p.provider, "openai");
    assert_eq!(p.model, "gpt-4o-mini");
    assert_eq!(p.base_url, "https://api.openai.com/v1");
    assert_eq!(p.key, "key-bbbb");
    assert!(p.fallback_models);

    let core = remove_api_key(&mut s, "b".into()).ok().unwrap();
    assert_eq!(s.keys.len(), 2);
    assert_eq!(s.active_id, Some("a".to_string()));
    assert_eq!(core.active_key_id, Some("a".to_string()));
    remove_api_key(&mut s, "c".into()).ok().unwrap();
    assert_eq!(s.active_id, Some("a".to_string()));
    remove_api_key(&mut s, "a".into()).ok().unwrap();
    assert_eq!(s.active_id, None);
    assert!(s.keys.is_empty());
    assert!(!snapshot_keys(&s).has_api_key);
}

#[test]
fn legacy_and_summaries() {
    let s = legacy_key_store("id1".into(), "secret-key".into());
    assert_eq!(s.active_id, Some("id1".to_string()));
    assert_eq!(s.keys[0].name, "Varsayılan");
    assert_eq!(s.keys[0].provider, "gemini");
    assert_eq!(load_api_key(&s), Some("secret-key".to_string()));
    let sums = key_summaries(&s);
    assert_eq!(sums[0].model, "gemini-3.1-flash-lite");
}

#[test]
fn settings_page_and_dev_builds() {
    let p = empty_prefs();
    let s = legacy_key_store("id1".into(), "secret-key".into());
    let st = get_settings_state(&p, &s, true, false);
    assert!(st.has_api_key);
    assert!(st.autostart);
    assert!(!st.can_autostart);
    assert_eq!(st.hotkey_label, "Ctrl+C+C");
    assert_eq!(st.prompt_rules.len(), 9);
    assert!(is_dev_path("C:/proj/Target/Debug/app.exe"));
    assert!(is_dev_path("d:\\x\\target\\debug\\app.exe"));
    assert!(!is_dev_path("C:\\Program Files\\app.exe"));
    assert!(!is_dev_path("/x/target/release/app"));
}

#[test]
fn saved_prefs_load_back_unchanged() {
    let mut saved = empty_prefs();
    let mut u = update("de", "fr", "en", 45, 4096);
    u.prompt_rules = vec!["Erste Regel".to_string(), "  Zweite  ".to_string()];
    assert_eq!(set_app_prefs(&mut saved, u), Ok(()));
    set_close_to_tray(&mut saved, false);
    let mut loaded = empty_prefs();
    assert_eq!(set_app_prefs(&mut loaded, update("de", "fr", "en", 45, 4096)), Ok(()));
    loaded.prompt_rules = saved.prompt_rules.clone();
    loaded.close_to_tray = saved.close_to_tray;
    loaded.fallback_models = saved.fallback_models;
    repair_loaded_prefs(&mut loaded);
    assert_eq!(loaded.prompt_rules, vec!["Erste Regel".to_string(), "Zweite".to_string()]);
    assert_eq!(loaded.prompt_rules, saved.prompt_rules);
    assert_eq!(loaded.ui_language, saved.ui_language);
    assert_eq!(loaded.native_language, saved.native_language);
    assert_eq!(loaded.foreign_language, saved.foreign_language);
    assert_eq!(loaded.timeout_secs, saved.timeout_secs);
    assert_eq!(loaded.max_output_tokens, saved.max_output_tokens);
    assert_eq!(loaded.rules_customized, saved.rules_customized);
    assert_eq!(loaded.close_to_tray, saved.close_to_tray);
    assert_eq!(loaded.hotkey, saved.hotkey);
    assert_eq!(loaded.custom_prompt, saved.custom_prompt);
}
