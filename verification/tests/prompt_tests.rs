use idkeng::lang::{is_lang, language_name, localized_name};
use idkeng::prefs::empty_prefs;
use idkeng::prompts::{
    active_rules, apply_language_tokens, clean_rules, default_rules, is_target_rule, join_rules,
    numbered_body, person_rule, preview_prompt_rules, prompts_for, rule_templates,
    split_legacy_prompt, visible_rules, without_target_rule,
};
use idkeng::text::clip;

fn strings(v: &[&str]) -> Vec<String> {
    v.iter().map(|s| s.to_string()).collect()
}

#[test]
fn language_names() {
    assert_eq!(localized_name("de", "tr"), "Almanca");
    assert_eq!(localized_name("xx", "tr"), "Türkçe");
    assert_eq!(localized_name("en", "xx"), "English");
    assert_eq!(localized_name("ko", "ja"), "韓国語");
    assert_eq!(language_name("ja"), "Japanese");
    assert_eq!(language_name("xx"), "Turkish");
    assert_eq!(language_name("de"), localized_name("de", "en"));
    assert!(is_lang("zh"));
    assert!(!is_lang("EN"));
    assert!(!is_lang(""));
}

#[test]
fn english_default_rules() {
    let r = default_rules("en", "tr", "en");
    assert_eq!(r.len(), 9);
    assert_eq!(r[0], "Target language: if the source is Turkish, the output is English. If the source is not Turkish, the output is always Turkish. Do not translate into any other language.");
    assert_eq!(r[3], "Keep the person. you stays you, I stays I, he stays he. If the output is English, do not write they/them or he/she.");
    assert_eq!(r[8], "Send only the final translation.");
}

#[test]
fn turkish_default_rules() {
    let r = default_rules("tr", "tr", "de");
    assert_eq!(r[0], "Hedef dil: Kaynak Türkçe ise çıktı Almanca olur. Kaynak Türkçe değilse çıktı her zaman Türkçe olur. Başka hiçbir dile çevirme.");
    assert_eq!(r[3], "Şahıs aynen kalsın. Konuşulan kişi, konuşan kişi ve üçüncü kişi yer değiştirmesin.");
    let t = rule_templates("fr", false);
    assert_eq!(t.len(), 9);
    assert!(t[0].contains("{native}"));
    assert_eq!(person_rule("ko", true), "인칭은 그대로 둔다. 너 = you, 나 = I, 그 = he. 결과가 영어면 they/them 이나 he/she 를 쓰지 않는다.");
    assert_eq!(person_rule("xx", false), "Keep the person. Do not swap the listener, the speaker, or a third person.");
}

#[test]
fn target_rules_are_recognised() {
    assert!(is_target_rule("  Target language: anything"));
    assert!(is_target_rule("Zielsprache: x"));
    assert!(is_target_rule("目标语言：原文"));
    assert!(!is_target_rule("Keep the tone."));
    for ui in ["tr", "en", "de", "fr", "es", "it", "pt", "ru", "ar", "ja", "zh", "ko"] {
        let r = default_rules(ui, "tr", "en");
        assert!(is_target_rule(&r[0]), "{ui}");
        assert!(!is_target_rule(&r[1]), "{ui}");
    }
    assert_eq!(without_target_rule(&strings(&["Hedef dil: x", "b"])), strings(&["b"]));
    assert_eq!(without_target_rule(&strings(&["a", "Target language: y"])), strings(&["a", "Target language: y"]));
    assert_eq!(without_target_rule(&[]), Vec::<String>::new());
}

#[test]
fn cleaning_rules() {
    assert_eq!(clean_rules(&strings(&["  a  ", "   ", "b"])), strings(&["a", "b"]));
    let many: Vec<String> = (0..100).map(|i| format!("rule {i}")).collect();
    let cleaned = clean_rules(&many);
    assert_eq!(cleaned.len(), 80);
    assert_eq!(cleaned[79], "rule 79");
    let long = "x".repeat(2500);
    assert_eq!(clean_rules(&[long])[0].chars().count(), 2000);
    assert_eq!(clip("héllo", 2), "hé");
    assert_eq!(clip("abc", 5), "abc");
}

#[test]
fn joining_rules() {
    assert_eq!(join_rules(&strings(&["a ", " b"])), "1. a\n2. b");
    assert_eq!(join_rules(&[]), "");
    let ten: Vec<String> = (1..=10).map(|i| format!("r{i}")).collect();
    assert!(join_rules(&ten).ends_with("\n10. r10"));
}

#[test]
fn numbered_lines() {
    assert_eq!(numbered_body("12. Keep it "), Some("Keep it".to_string()));
    assert_eq!(numbered_body("1.x"), Some("x".to_string()));
    assert_eq!(numbered_body("12."), None);
    assert_eq!(numbered_body("3.   "), None);
    assert_eq!(numbered_body("a. x"), None);
    assert_eq!(numbered_body("3 x"), None);
    assert_eq!(numbered_body(".x"), None);
}

#[test]
fn legacy_prompts() {
    assert_eq!(
        split_legacy_prompt("Rules:\n1. First\n  - more\n2. Second\n\n•  bullet\n"),
        strings(&["First more", "Second bullet"])
    );
    assert_eq!(split_legacy_prompt("  just one rule  "), strings(&["just one rule"]));
    assert_eq!(split_legacy_prompt("1. a\r\n2. b"), strings(&["a", "b"]));
    assert_eq!(split_legacy_prompt("1. a\n-\n2. b"), strings(&["a", "b"]));
    assert_eq!(split_legacy_prompt(""), strings(&[""]));
}

#[test]
fn prompts_for_default_prefs() {
    let prefs = empty_prefs();
    let (system, user) = prompts_for("Hello", &prefs);
    assert_eq!(user, "Translate. If the source is Turkish, write English. If the source is not Turkish, write Turkish. Keep person (you/I/he). Output only the translation.\n\nHello");
    assert!(system.starts_with("1. Hedef dil: Kaynak Türkçe ise çıktı İngilizce olur."));
    assert!(system.ends_with("\n9. Bana yalnızca nihai çeviriyi gönder."));
    assert_eq!(system.lines().count(), 9);
    assert_eq!(apply_language_tokens("{native}->{foreign}", &prefs), "Türkçe->İngilizce");
}

#[test]
fn customized_rules_follow_the_target_rule() {
    let mut prefs = empty_prefs();
    prefs.ui_language = "en".to_string();
    prefs.rules_customized = true;
    prefs.prompt_rules = strings(&["Target language: mine", " my rule ", ""]);
    let rules = active_rules(&prefs);
    assert_eq!(rules.len(), 2);
    assert!(rules[0].starts_with("Target language: if the source is Turkish"));
    assert_eq!(rules[1], "my rule");
    assert_eq!(visible_rules(&prefs), rules);
}

#[test]
fn saving_the_shown_rules_changes_nothing() {
    let mut prefs = empty_prefs();
    let shown = visible_rules(&prefs);
    prefs.rules_customized = true;
    prefs.prompt_rules = clean_rules(&shown);
    assert_eq!(active_rules(&prefs), shown);
}

#[test]
fn previewing_rules() {
    assert_eq!(preview_prompt_rules("xx".into(), "tr".into(), "en".into()), Err("err:language".to_string()));
    assert_eq!(preview_prompt_rules("en".into(), "tr".into(), "zz".into()), Err("err:language".to_string()));
    let r = preview_prompt_rules("de".into(), "de".into(), "en".into()).unwrap();
    assert_eq!(r, default_rules("de", "de", "en"));
    assert!(r[0].starts_with("Zielsprache: Ist die Quelle Deutsch, ist die Ausgabe Englisch."));
}

#[test]
fn joined_rules_split_back() {
    let rules = strings(&["Keep it short", "Do not explain", "Üç. kural"]);
    assert_eq!(split_legacy_prompt(&join_rules(&rules)), rules);
    let one = strings(&["only"]);
    assert_eq!(split_legacy_prompt(&join_rules(&one)), one);
}

#[test]
fn rule_tables_in_every_language() {
    let langs = ["tr", "en", "de", "fr", "es", "it", "pt", "ru", "ar", "ja", "zh", "ko", "xx"];
    for ui in langs {
        for english in [false, true] {
            let t = rule_templates(ui, english);
            assert_eq!(t.len(), 9);
            assert!(is_target_rule(&t[0]));
            assert!(t[0].contains("{native}") && t[0].contains("{foreign}"));
            for rule in &t[1..] {
                assert!(!rule.contains("{native}") && !rule.contains("{foreign}"));
            }
            assert_eq!(t[3], person_rule(ui, english));
            assert_eq!(person_rule(ui, english).contains("they/them"), english);
        }
        let mut names: Vec<&str> = langs[..12].iter().map(|c| localized_name(c, ui)).collect();
        names.sort();
        names.dedup();
        assert_eq!(names.len(), 12);
    }
}

#[test]
fn system_prompt_ignores_the_source() {
    let prefs = empty_prefs();
    let (a, _) = prompts_for("Hello", &prefs);
    let (b, _) = prompts_for("Merhaba", &prefs);
    assert_eq!(a, b);
    assert!(a.starts_with("1. "));
}
