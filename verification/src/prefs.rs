//! Application preferences: defaults, their normalisation after loading,
//! the updates the settings page makes, and the values other parts read.
use vstd::prelude::*;
use crate::hotkey::{Hotkey, default_hotkey, format_hotkey, hotkey_error, hotkey_label_spec, validate_hotkey, spec_default_hotkey};
use crate::lang::{is_lang, spec_is_lang};
use crate::prompts::{clean_rules, cleaned, clean_rule, spec_clean_rules, spec_split_legacy_prompt, split_legacy_prompt, take_at_most};
use crate::text::{clip, clipped, is_blank, is_blank_str, owned, str_eq, trim, views};

verus! {

/// The stored preferences.
pub struct Prefs {
    pub close_to_tray: bool,
    pub start_minimized: bool,
    pub hotkey: Hotkey,
    pub ui_language: String,
    pub native_language: String,
    pub foreign_language: String,
    pub custom_prompt: String,
    pub prompt_rules: Vec<String>,
    pub rules_customized: bool,
    pub timeout_secs: u64,
    pub max_output_tokens: u32,
    pub fallback_models: bool,
}

/// The value of flags that default to on.
pub fn default_true() -> (r: bool)
    ensures
        r,
{
    true
}

/// Default interface language.
pub fn default_ui_lang() -> (r: String)
    ensures
        r@ == "tr"@,
{
    owned("tr")
}

/// Default native language.
pub fn default_native() -> (r: String)
    ensures
        r@ == "tr"@,
{
    owned("tr")
}

/// Default foreign language.
pub fn default_foreign() -> (r: String)
    ensures
        r@ == "en"@,
{
    owned("en")
}

/// Default request timeout in seconds.
pub fn default_timeout() -> (r: u64)
    ensures
        r == 20,
{
    20
}

/// Default limit on output tokens.
pub fn default_tokens() -> (r: u32)
    ensures
        r == 2048,
{
    2048
}

/// The preferences used when none are stored.
pub open spec fn is_empty_prefs(p: Prefs) -> bool {
    &&& p.close_to_tray
    &&& !p.start_minimized
    &&& p.hotkey == spec_default_hotkey()
    &&& p.ui_language@ == "tr"@
    &&& p.native_language@ == "tr"@
    &&& p.foreign_language@ == "en"@
    &&& p.custom_prompt@.len() == 0
    &&& p.prompt_rules@.len() == 0
    &&& !p.rules_customized
    &&& p.timeout_secs == 20
    &&& p.max_output_tokens == 2048
    &&& p.fallback_models
}

pub fn empty_prefs() -> (r: Prefs)
    ensures
        is_empty_prefs(r),
{
    Prefs {
        close_to_tray: default_true(),
        start_minimized: false,
        hotkey: default_hotkey(),
        ui_language: default_ui_lang(),
        native_language: default_native(),
        foreign_language: default_foreign(),
        custom_prompt: String::new(),
        prompt_rules: Vec::new(),
        rules_customized: false,
        timeout_secs: default_timeout(),
        max_output_tokens: default_tokens(),
        fallback_models: default_true(),
    }
}

/// Whether closing the window hides it to the tray.
pub fn close_to_tray(prefs: &Prefs) -> (r: bool)
    ensures
        r == prefs.close_to_tray,
{
    prefs.close_to_tray
}

/// Whether the window starts hidden.
pub fn start_minimized(prefs: &Prefs) -> (r: bool)
    ensures
        r == prefs.start_minimized,
{
    prefs.start_minimized
}

/// The configured shortcut.
pub fn hotkey(prefs: &Prefs) -> (r: Hotkey)
    ensures
        r == prefs.hotkey,
{
    prefs.hotkey
}

/// The label of the configured shortcut.
pub fn hotkey_label(prefs: &Prefs) -> (r: String)
    ensures
        r@ == hotkey_label_spec(prefs.hotkey),
{
    format_hotkey(prefs.hotkey)
}

/// The shortcut is Ctrl+C tapped at least twice, so pressing it already
/// copies the selection.
pub open spec fn spec_copies_selection(h: Hotkey) -> bool {
    h.ctrl && !h.alt && !h.shift && !h.win && h.vk == 0x43 && h.taps >= 2
}

pub fn hotkey_copies_selection(prefs: &Prefs) -> (r: bool)
    ensures
        r == spec_copies_selection(prefs.hotkey),
{
    let h = hotkey(prefs);
    h.ctrl && !h.alt && !h.shift && !h.win && h.vk == 0x43 && h.taps >= 2
}

/// Replaces the shortcut when it is valid; a refused shortcut changes
/// nothing. Once the new shortcut is saved, the keyboard watcher's pending
/// tap is cleared with `HookState::reset_pending`.
pub fn set_hotkey(prefs: &mut Prefs, hotkey: Hotkey) -> (r: Result<(), String>)
    ensures
        r is Ok <==> hotkey_error(hotkey) is None,
        r matches Err(m) ==> hotkey_error(hotkey) == Some(m@),
        r is Ok ==> *final(prefs) == (Prefs { hotkey: hotkey, ..*old(prefs) }),
        r is Err ==> *final(prefs) == *old(prefs),
{
    validate_hotkey(&hotkey)?;
    prefs.hotkey = hotkey;
    Ok(())
}

/// Sets the shortcut and returns its new label.
pub fn set_hotkey_binding(prefs: &mut Prefs, hotkey: Hotkey) -> (r: Result<String, String>)
    ensures
        r is Ok <==> hotkey_error(hotkey) is None,
        r matches Err(m) ==> hotkey_error(hotkey) == Some(m@),
        r matches Ok(label) ==> label@ == hotkey_label_spec(hotkey),
        r is Ok ==> *final(prefs) == (Prefs { hotkey: hotkey, ..*old(prefs) }),
        r is Err ==> *final(prefs) == *old(prefs),
{
    set_hotkey(prefs, hotkey)?;
    Ok(hotkey_label(prefs))
}

/// `x` brought into `[lo, hi]`.
pub open spec fn clamp(x: int, lo: int, hi: int) -> int {
    if x < lo {
        lo
    } else if x > hi {
        hi
    } else {
        x
    }
}

/// The request timeout, between 5 and 120 seconds.
pub fn timeout_secs(prefs: &Prefs) -> (r: u64)
    ensures
        r == clamp(prefs.timeout_secs as int, 5, 120),
        5 <= r <= 120,
{
    if prefs.timeout_secs < 5 {
        5
    } else if prefs.timeout_secs > 120 {
        120
    } else {
        prefs.timeout_secs
    }
}

/// The limit on output tokens, between 128 and 8192.
pub fn max_output_tokens(prefs: &Prefs) -> (r: u32)
    ensures
        r == clamp(prefs.max_output_tokens as int, 128, 8192),
        128 <= r <= 8192,
{
    if prefs.max_output_tokens < 128 {
        128
    } else if prefs.max_output_tokens > 8192 {
        8192
    } else {
        prefs.max_output_tokens
    }
}

/// The interface language.
pub fn ui_language(prefs: &Prefs) -> (r: String)
    ensures
        r@ == prefs.ui_language@,
{
    prefs.ui_language.clone()
}

/// Sets whether closing the window hides it to the tray.
pub fn set_close_to_tray(prefs: &mut Prefs, enabled: bool)
    ensures
        *final(prefs) == (Prefs { close_to_tray: enabled, ..*old(prefs) }),
{
    prefs.close_to_tray = enabled;
}

/// Sets whether the window starts hidden.
pub fn set_start_minimized(prefs: &mut Prefs, enabled: bool)
    ensures
        *final(prefs) == (Prefs { start_minimized: enabled, ..*old(prefs) }),
{
    prefs.start_minimized = enabled;
}

/// The preferences as every operation leaves them: supported and distinct
/// languages, timeout and token limit in range, at most 80 non-empty rules
/// of at most 2000 characters, and an old free-text prompt of at most 12000
/// characters.
pub open spec fn prefs_wf(p: Prefs) -> bool {
    &&& spec_is_lang(p.ui_language@)
    &&& spec_is_lang(p.native_language@)
    &&& spec_is_lang(p.foreign_language@)
    &&& p.native_language@ != p.foreign_language@
    &&& 5 <= p.timeout_secs <= 120
    &&& 128 <= p.max_output_tokens <= 8192
    &&& rules_wf(views(p.prompt_rules@))
    &&& p.custom_prompt@.len() <= 12000
}

/// At most 80 rules, each non-empty and at most 2000 characters long.
pub open spec fn rules_wf(rules: Seq<Seq<char>>) -> bool {
    &&& rules.len() <= 80
    &&& forall|i: int| 0 <= i < rules.len() ==> 0 < #[trigger] rules[i].len() <= 2000
}

/// Every cleaned rule is non-empty and at most 2000 characters long.
pub proof fn lemma_cleaned_items(rules: Seq<Seq<char>>)
    ensures
        forall|i: int| 0 <= i < cleaned(rules).len() ==> 0 < #[trigger] cleaned(rules)[i].len() <= 2000,
    decreases rules.len(),
{
    if rules.len() > 0 {
        lemma_cleaned_items(rules.drop_last());
        let c = clean_rule(rules.last());
        let prev = cleaned(rules.drop_last());
        assert(c.len() <= 2000);
        if c.len() > 0 {
            assert(cleaned(rules) == prev.push(c));
            assert forall|i: int| 0 <= i < prev.push(c).len() implies 0 < #[trigger] prev.push(
                c,
            )[i].len() <= 2000 by {
                if i < prev.len() {
                    assert(prev.push(c)[i] == prev[i]);
                }
            }
        }
    }
}

/// Cleaned rules always meet `rules_wf`.
pub proof fn lemma_clean_rules_wf(rules: Seq<Seq<char>>)
    ensures
        rules_wf(spec_clean_rules(rules)),
{
    lemma_cleaned_items(rules);
    let c = cleaned(rules);
    if c.len() > 80 {
        assert forall|i: int| 0 <= i < 80 implies 0 < #[trigger] c.take(80)[i].len() <= 2000 by {
            assert(c.take(80)[i] == c[i]);
        }
    }
}

/// The default languages are supported and differ.
pub proof fn lemma_default_languages()
    ensures
        spec_is_lang("tr"@),
        spec_is_lang("en"@),
        "tr"@ != "en"@,
{
    reveal_strlit("en");
    reveal_strlit("tr");
    assert("en"@[0] != "tr"@[0]);
}

/// The empty preferences are well formed.
pub proof fn lemma_empty_prefs_wf(p: Prefs)
    requires
        is_empty_prefs(p),
    ensures
        prefs_wf(p),
{
    lemma_default_languages();
}

/// Whether an old free-text prompt is turned into rules.
pub open spec fn takes_legacy_prompt(p: Prefs) -> bool {
    !p.rules_customized && p.prompt_rules@.len() == 0 && !is_blank(p.custom_prompt@)
}

/// `q` is `p` normalised: unsupported languages fall back to Turkish
/// (interface and native) and English (foreign), equal native and foreign
/// languages are separated, a zero timeout or token limit takes its default
/// and both are brought into range, an old free-text prompt becomes rules,
/// and rules and prompt are cleaned and clipped; the flags, the shortcut and
/// the model fallback are kept.
pub open spec fn spec_normalized(p: Prefs, q: Prefs) -> bool {
    let legacy = takes_legacy_prompt(p);
    let f0 = if spec_is_lang(p.foreign_language@) {
        p.foreign_language@
    } else {
        "en"@
    };
    &&& q.close_to_tray == p.close_to_tray
    &&& q.start_minimized == p.start_minimized
    &&& q.hotkey == p.hotkey
    &&& q.fallback_models == p.fallback_models
    &&& q.ui_language@ == (if spec_is_lang(p.ui_language@) {
        p.ui_language@
    } else {
        "tr"@
    })
    &&& q.native_language@ == (if spec_is_lang(p.native_language@) {
        p.native_language@
    } else {
        "tr"@
    })
    &&& q.foreign_language@ == (if q.native_language@ == f0 {
        if q.native_language@ == "en"@ {
            "tr"@
        } else {
            "en"@
        }
    } else {
        f0
    })
    &&& q.timeout_secs == clamp(
        if p.timeout_secs == 0 {
            20
        } else {
            p.timeout_secs as int
        },
        5,
        120,
    )
    &&& q.max_output_tokens == clamp(
        if p.max_output_tokens == 0 {
            2048
        } else {
            p.max_output_tokens as int
        },
        128,
        8192,
    )
    &&& q.rules_customized == (p.rules_customized || legacy)
    &&& views(q.prompt_rules@) == spec_clean_rules(
        if legacy {
            spec_split_legacy_prompt(p.custom_prompt@)
        } else {
            views(p.prompt_rules@)
        },
    )
    &&& q.custom_prompt@ == (if legacy {
        Seq::<char>::empty()
    } else {
        clipped(p.custom_prompt@, 12000)
    })
}

/// Repairs loaded preferences: unsupported languages fall back to Turkish
/// (interface and native) and English (foreign), equal native and foreign
/// languages are separated, a zero timeout or token limit takes its default
/// and both are brought into range, an old free-text prompt becomes rules,
/// and rules and prompt are cleaned and clipped.
pub fn normalize_prefs(prefs: &mut Prefs)
    ensures
        spec_normalized(*old(prefs), *final(prefs)),
        prefs_wf(*final(prefs)),
{
    proof {
        lemma_default_languages();
    }
    let ghost legacy = takes_legacy_prompt(*prefs);
    if !is_lang(prefs.ui_language.as_str()) {
        prefs.ui_language = default_ui_lang();
    }
    if !is_lang(prefs.native_language.as_str()) {
        prefs.native_language = default_native();
    }
    if !is_lang(prefs.foreign_language.as_str()) {
        prefs.foreign_language = default_foreign();
    }
    if str_eq(prefs.native_language.as_str(), prefs.foreign_language.as_str()) {
        prefs.foreign_language = if str_eq(prefs.native_language.as_str(), "en") {
            owned("tr")
        } else {
            owned("en")
        };
    }
    if prefs.timeout_secs == 0 {
        prefs.timeout_secs = default_timeout();
    }
    prefs.timeout_secs = if prefs.timeout_secs < 5 {
        5
    } else if prefs.timeout_secs > 120 {
        120
    } else {
        prefs.timeout_secs
    };
    if prefs.max_output_tokens == 0 {
        prefs.max_output_tokens = default_tokens();
    }
    prefs.max_output_tokens = if prefs.max_output_tokens < 128 {
        128
    } else if prefs.max_output_tokens > 8192 {
        8192
    } else {
        prefs.max_output_tokens
    };
    if !prefs.rules_customized && prefs.prompt_rules.len() == 0 && !is_blank_str(
        prefs.custom_prompt.as_str(),
    ) {
        prefs.prompt_rules = split_legacy_prompt(prefs.custom_prompt.as_str());
        prefs.rules_customized = true;
        prefs.custom_prompt = String::new();
    }
    prefs.prompt_rules = clean_rules(prefs.prompt_rules.as_slice());
    prefs.custom_prompt = clip(prefs.custom_prompt.as_str(), 12000);
    proof {
        lemma_clean_rules_wf(views(prefs.prompt_rules@));
        lemma_clean_rules_wf(if legacy {
            spec_split_legacy_prompt(old(prefs).custom_prompt@)
        } else {
            views(old(prefs).prompt_rules@)
        });
    }
}

/// `q` is `p` as read from disk and repaired: an invalid shortcut becomes
/// the default one, then the rest is normalised.
pub open spec fn spec_repaired(p: Prefs, q: Prefs) -> bool {
    let h = if hotkey_error(p.hotkey) is None {
        p.hotkey
    } else {
        spec_default_hotkey()
    };
    spec_normalized(Prefs { hotkey: h, ..p }, q)
}

/// Repairs preferences read from disk: an invalid shortcut is replaced by
/// the default one, then the rest is normalised as `normalize_prefs` does.
pub fn repair_loaded_prefs(prefs: &mut Prefs)
    ensures
        spec_repaired(*old(prefs), *final(prefs)),
        hotkey_error(final(prefs).hotkey) is None,
        prefs_wf(*final(prefs)),
{
    if validate_hotkey(&prefs.hotkey).is_err() {
        prefs.hotkey = default_hotkey();
    }
    normalize_prefs(prefs);
}

/// The preferences the settings page saves.
pub struct AppPrefsUpdate {
    pub ui_language: String,
    pub native_language: String,
    pub foreign_language: String,
    pub prompt_rules: Vec<String>,
    pub rules_customized: bool,
    pub timeout_secs: u64,
    pub max_output_tokens: u32,
    pub fallback_models: bool,
}

/// Why an update is refused, or `None` when it is accepted.
pub open spec fn update_error(u: AppPrefsUpdate) -> Option<Seq<char>> {
    if !spec_is_lang(u.ui_language@) || !spec_is_lang(u.native_language@) || !spec_is_lang(
        u.foreign_language@,
    ) {
        Some("err:language"@)
    } else if u.native_language@ == u.foreign_language@ {
        Some("err:same_language"@)
    } else if !(5 <= u.timeout_secs <= 120) {
        Some("err:timeout_range"@)
    } else if !(128 <= u.max_output_tokens <= 8192) {
        Some("err:tokens"@)
    } else {
        None
    }
}

/// Saves the settings page: refused updates change nothing; accepted ones
/// set the languages, limits and model fallback, keep the cleaned rules when
/// they are customised (none otherwise), and drop the old free-text prompt.
pub fn set_app_prefs(prefs: &mut Prefs, update: AppPrefsUpdate) -> (r: Result<(), String>)
    ensures
        r is Ok <==> update_error(update) is None,
        r matches Err(m) ==> update_error(update) == Some(m@),
        r is Err ==> *final(prefs) == *old(prefs),
        r is Ok ==> {
            &&& final(prefs).close_to_tray == old(prefs).close_to_tray
            &&& final(prefs).start_minimized == old(prefs).start_minimized
            &&& final(prefs).hotkey == old(prefs).hotkey
            &&& final(prefs).ui_language@ == update.ui_language@
            &&& final(prefs).native_language@ == update.native_language@
            &&& final(prefs).foreign_language@ == update.foreign_language@
            &&& final(prefs).rules_customized == update.rules_customized
            &&& views(final(prefs).prompt_rules@) == (if update.rules_customized {
                spec_clean_rules(views(update.prompt_rules@))
            } else {
                Seq::<Seq<char>>::empty()
            })
            &&& final(prefs).custom_prompt@.len() == 0
            &&& final(prefs).timeout_secs == update.timeout_secs
            &&& final(prefs).max_output_tokens == update.max_output_tokens
            &&& final(prefs).fallback_models == update.fallback_models
            &&& prefs_wf(*final(prefs))
        },
{
    if !is_lang(update.ui_language.as_str()) || !is_lang(update.native_language.as_str())
        || !is_lang(update.foreign_language.as_str()) {
        return Err(owned("err:language"));
    }
    if str_eq(update.native_language.as_str(), update.foreign_language.as_str()) {
        return Err(owned("err:same_language"));
    }
    if !(5 <= update.timeout_secs && update.timeout_secs <= 120) {
        return Err(owned("err:timeout_range"));
    }
    if !(128 <= update.max_output_tokens && update.max_output_tokens <= 8192) {
        return Err(owned("err:tokens"));
    }
    prefs.ui_language = update.ui_language;
    prefs.native_language = update.native_language;
    prefs.foreign_language = update.foreign_language;
    prefs.rules_customized = update.rules_customized;
    prefs.prompt_rules = if update.rules_customized {
        clean_rules(update.prompt_rules.as_slice())
    } else {
        Vec::new()
    };
    prefs.custom_prompt = String::new();
    prefs.timeout_secs = update.timeout_secs;
    prefs.max_output_tokens = update.max_output_tokens;
    prefs.fallback_models = update.fallback_models;
    proof {
        lemma_clean_rules_wf(views(update.prompt_rules@));
        assert(views(prefs.prompt_rules@) =~= if update.rules_customized {
            spec_clean_rules(views(update.prompt_rules@))
        } else {
            Seq::<Seq<char>>::empty()
        });
    }
    Ok(())
}

/// Every operation on the preferences keeps them well formed: the flag and
/// shortcut setters change one field, and an accepted settings update leaves
/// well-formed preferences.
pub proof fn lemma_setters_keep_wf(p: Prefs, enabled: bool, h: Hotkey)
    requires
        prefs_wf(p),
    ensures
        prefs_wf(Prefs { close_to_tray: enabled, ..p }),
        prefs_wf(Prefs { start_minimized: enabled, ..p }),
        prefs_wf(Prefs { hotkey: h, ..p }),
{
}

} // verus!
