use idkeng::clock::{id_of, millis_of, new_id, now_ms};
use idkeng::clipboard::normalize_clipboard_text;
use idkeng::gemini::{
    clean_output, extract_gemini, gemini_outcome, log_attempt, models_for, openai_outcome,
    openai_text, request_url, send_error, status_error, uses_gemini_api, AttemptError, GeminiPart,
    ProviderReply, TranslationRun,
};
use idkeng::keys::ActiveProfile;
use idkeng::overlay::{close_action, CloseAction};
use idkeng::prefs::empty_prefs;
use idkeng::session::{check_source, last_translation_text, reads_clipboard, remember_translation, remember_window, AppState};
use idkeng::keys::legacy_key_store;
use idkeng::traffic::{clear_traffic, get_traffic, record_traffic, TrafficEntry};
use idkeng::tray::menu_labels;

fn profile(provider: &str, model: &str, base_url: &str, fallback: bool) -> ActiveProfile {
    ActiveProfile {
        name: "P".into(),
        provider: provider.into(),
        model: model.into(),
        base_url: base_url.into(),
        key: "k".into(),
        fallback_models: fallback,
    }
}

fn next(e: &AttemptError) -> Option<&str> {
    match e {
        AttemptError::Next(m) => Some(m.as_str()),
        AttemptError::Stop(_) => None,
    }
}

fn stop(e: &AttemptError) -> Option<&str> {
    match e {
        AttemptError::Stop(m) => Some(m.as_str()),
        AttemptError::Next(_) => None,
    }
}

fn part(thought: bool, text: Option<&str>) -> GeminiPart {
    GeminiPart { thought, text: text.map(|t| t.to_string()) }
}

fn reply(status: u16) -> ProviderReply {
    ProviderReply { status, error_message: None, gemini_parts: None, openai_content: None, openai_content_part: None }
}

fn entry(source: &str) -> TrafficEntry {
    TrafficEntry {
        id: "x".into(),
        at_ms: 1,
        provider: "gemini".into(),
        model: "m".into(),
        profile_name: "P".into(),
        elapsed_ms: 2,
        source: source.into(),
        system_prompt: "s".into(),
        user_message: "u".into(),
        response: "r".into(),
        error: "".into(),
    }
}

#[test]
fn models_to_try() {
    assert_eq!(
        models_for(&profile("gemini", "gemini-3.5-flash", "", true)),
        vec!["gemini-3.5-flash", "gemini-3.1-flash-lite", "gemini-3-flash-preview"]
    );
    assert_eq!(
        models_for(&profile("gemini", "other", "", true)),
        vec!["other", "gemini-3.1-flash-lite", "gemini-3.5-flash", "gemini-3-flash-preview"]
    );
    assert_eq!(models_for(&profile("gemini", "x", "", false)), vec!["x"]);
    assert_eq!(models_for(&profile("openai", "x", "", true)), vec!["x"]);
}

#[test]
fn cleaning_replies() {
    assert_eq!(clean_output("```text\nHello\n```"), "Hello");
    assert_eq!(clean_output("  \"Hi\"  "), "Hi");
    assert_eq!(clean_output("\u{201C}Merhaba\u{201D}"), "Merhaba");
    assert_eq!(clean_output("```\nno close"), "no close");
    assert_eq!(clean_output("```only"), "```only");
    assert_eq!(clean_output("\" x \""), "x");
    assert_eq!(clean_output("\""), "\"");
    assert_eq!(clean_output("plain"), "plain");
}

#[test]
fn failed_statuses() {
    assert_eq!(stop(&status_error(401, Some("x"))), Some("err:invalid_key"));
    assert_eq!(stop(&status_error(403, None)), Some("err:invalid_key"));
    assert_eq!(next(&status_error(429, Some("slow down"))), Some("err:quota"));
    assert_eq!(next(&status_error(503, Some("Overloaded due to High Demand"))), Some("err:busy"));
    assert_eq!(stop(&status_error(400, Some("Please TRY AGAIN LATER"))), Some("err:busy"));
    assert_eq!(stop(&status_error(400, Some("bad"))), Some("bad"));
    assert_eq!(next(&status_error(500, None)), Some("err:failed"));
    assert_eq!(send_error(true), "err:timeout");
    assert_eq!(send_error(false), "err:network");
}

#[test]
fn gemini_answers() {
    let parts = vec![part(true, Some("thinking")), part(false, Some("Hello ")), part(false, Some("  ")), part(false, None), part(false, Some("world"))];
    assert_eq!(extract_gemini(Some(&parts)), Ok("Hello world".to_string()));
    assert_eq!(extract_gemini(None), Err("err:empty".to_string()));
    assert_eq!(extract_gemini(Some(&vec![part(true, Some("x"))])), Err("err:empty".to_string()));
    assert_eq!(next(&gemini_outcome(None).err().unwrap()), Some("err:unreadable"));
    let mut r = reply(200);
    r.gemini_parts = Some(vec![part(false, Some("\"Hola\""))]);
    assert_eq!(gemini_outcome(Some(&r)).ok(), Some("Hola".to_string()));
    r.gemini_parts = Some(vec![]);
    assert_eq!(next(&gemini_outcome(Some(&r)).err().unwrap()), Some("err:empty"));
    let mut bad = reply(401);
    bad.error_message = Some("no".into());
    assert_eq!(stop(&gemini_outcome(Some(&bad)).err().unwrap()), Some("err:invalid_key"));
}

#[test]
fn openai_answers() {
    assert_eq!(openai_text(Some("  \"Hola\" "), None).ok(), Some("Hola".to_string()));
    assert_eq!(openai_text(None, Some("x")).ok(), Some("x".to_string()));
    assert_eq!(next(&openai_text(None, None).err().unwrap()), Some("err:empty"));
    assert_eq!(next(&openai_text(Some("  "), Some("x")).err().unwrap()), Some("err:empty"));
    let mut r = reply(201);
    r.openai_content = Some("ok".into());
    assert_eq!(openai_outcome(Some(&r)).ok(), Some("ok".to_string()));
    let mut e = reply(502);
    e.error_message = Some("gateway".into());
    assert_eq!(next(&openai_outcome(Some(&e)).err().unwrap()), Some("gateway"));
}

#[test]
fn request_targets() {
    let g = profile("gemini", "m", "", true);
    assert!(uses_gemini_api(&g));
    assert_eq!(request_url(&g, "gemini-x").ok(), Some("https://generativelanguage.googleapis.com/v1beta/models/gemini-x:generateContent".to_string()));
    let o = profile("openai", "m", "https://a/v1", true);
    assert!(!uses_gemini_api(&o));
    assert_eq!(request_url(&o, "m").ok(), Some("https://a/v1/chat/completions".to_string()));
    let c = profile("custom", "m", "", true);
    assert_eq!(stop(&request_url(&c, "m").err().unwrap()), Some("err:base_url"));
}

#[test]
fn a_translation_run() {
    let mut run = TranslationRun::start(&profile("gemini", "gemini-3.5-flash", "", true));
    assert_eq!(run.models.len(), 3);
    assert_eq!(run.next_model(), Some("gemini-3.5-flash".to_string()));
    assert!(run.record(Err(AttemptError::Next("err:busy".into()))).is_none());
    assert_eq!(run.next_model(), Some("gemini-3.1-flash-lite".to_string()));
    assert!(run.record(Err(AttemptError::Next("err:quota".into()))).is_none());
    assert_eq!(run.next_model(), Some("gemini-3-flash-preview".to_string()));
    assert!(run.record(Err(AttemptError::Next("err:empty".into()))).is_none());
    assert_eq!(run.next_model(), None);
    assert_eq!(run.finish(), Err("err:empty".to_string()));

    let mut run = TranslationRun::start(&profile("openai", "m", "https://a", true));
    assert_eq!(run.finish(), Err("err:failed".to_string()));
    run.next_model();
    assert_eq!(run.record(Ok("done".into())), Some(Ok("done".to_string())));
    assert_eq!(run.record(Err(AttemptError::Stop("err:invalid_key".into()))), Some(Err("err:invalid_key".to_string())));
}

#[test]
fn the_request_log() {
    let mut t: Vec<TrafficEntry> = Vec::new();
    for i in 0..45 {
        record_traffic(&mut t, entry(&format!("s{i}")));
    }
    assert_eq!(t.len(), 40);
    assert_eq!(t[0].source, "s44");
    assert_eq!(t[39].source, "s5");
    assert_ne!(t[0].id, "x");
    record_traffic(&mut t, entry(&"y".repeat(9000)));
    assert_eq!(t[0].source.chars().count(), 8000);
    assert_eq!(t[1].source, "s44");
    let copy = get_traffic(&t);
    assert_eq!(copy.len(), 40);
    assert_eq!(copy[1].source, "s44");
    log_attempt(&mut t, &profile("groq", "m", "", false), "model-x", "src", "sys", "usr", "", "err:busy", 123);
    assert_eq!(t[0].model, "model-x");
    assert_eq!(t[0].provider, "groq");
    assert_eq!(t[0].profile_name, "P");
    assert_eq!(t[0].error, "err:busy");
    assert_eq!(t[0].elapsed_ms, 123);
    clear_traffic(&mut t);
    assert!(t.is_empty());
}

#[test]
fn before_translating() {
    let store = legacy_key_store("i".into(), "secret-key".into());
    let none = idkeng::keys::KeyStore { active_id: None, keys: Vec::new() };
    assert_eq!(check_source("  \n ", &store), Err("err:no_text".to_string()));
    assert_eq!(check_source(&"é".repeat(8001), &store), Err("err:too_long".to_string()));
    assert_eq!(check_source(&"é".repeat(8000), &store), Ok(()));
    assert_eq!(check_source("hi", &none), Err("err:no_key".to_string()));
    let p = empty_prefs();
    assert!(reads_clipboard(false, &p));
    let mut q = empty_prefs();
    q.hotkey.taps = 1;
    assert!(!reads_clipboard(false, &q));
    assert!(reads_clipboard(true, &q));
}

#[test]
fn application_state() {
    let mut s = AppState::new();
    assert_eq!(last_translation_text(&s), Err("Çeviri yok.".to_string()));
    remember_window(&mut s, 42);
    remember_translation(&mut s, "Merhaba".into());
    assert_eq!(s.previous_hwnd, 42);
    assert_eq!(last_translation_text(&s), Ok("Merhaba".to_string()));
}

#[test]
fn menu_close_and_clipboard() {
    assert_eq!(menu_labels("en"), ("Show window", "Settings", "Quit"));
    assert_eq!(menu_labels("xx"), ("Pencereyi göster", "Ayarlar", "Çıkış"));
    assert_eq!(menu_labels("ja"), ("ウィンドウを表示", "設定", "終了"));
    let mut p = empty_prefs();
    assert_eq!(close_action(&p), CloseAction::Hide);
    p.close_to_tray = false;
    assert_eq!(close_action(&p), CloseAction::Exit);
    assert_eq!(normalize_clipboard_text("a\r\nb"), Some("a\nb".to_string()));
    assert_eq!(normalize_clipboard_text("  \r\n "), None);
    assert_eq!(normalize_clipboard_text(""), None);
}

#[test]
fn clock_readings() {
    assert_eq!(millis_of(Some(1_234_567_890)), 1234);
    assert_eq!(millis_of(None), 0);
    assert_eq!(millis_of(Some(u128::MAX)), ((u128::MAX / 1_000_000) as u64));
    assert_eq!(id_of(Some(0)), "0");
    assert_eq!(id_of(Some(0x1a2b_3c4d_5e6f)), "1a2b3c4d5e6f");
    assert_eq!(id_of(Some(255)), "ff");
    assert_eq!(id_of(None), "key");
    assert!(now_ms() > 0);
    assert!(new_id().chars().all(|c| c.is_ascii_hexdigit()));
}
