//! What the application keeps between events, and the checks made before a
//! translation starts.
use vstd::prelude::*;
use crate::keys::{KeyStore, has_api_key, spec_active_key};
use crate::prefs::{Prefs, hotkey_copies_selection, spec_copies_selection};
use crate::text::{is_blank, is_blank_str, owned};

verus! {

/// Longest text, in characters, that is sent for translation.
pub const MAX_CHARS: usize = 8000;

/// The last translation shown, and the window that had the focus when the
/// shortcut was pressed.
pub struct AppState {
    pub last_translation: Option<String>,
    pub previous_hwnd: isize,
}

impl AppState {
    /// Nothing translated yet, no window remembered.
    pub fn new() -> (r: AppState)
        ensures
            r.last_translation is None,
            r.previous_hwnd == 0,
    {
        AppState { last_translation: None, previous_hwnd: 0 }
    }
}

/// Remembers the window to paste back into.
pub fn remember_window(state: &mut AppState, hwnd: isize)
    ensures
        final(state).previous_hwnd == hwnd,
        final(state).last_translation == old(state).last_translation,
{
    state.previous_hwnd = hwnd;
}

/// Remembers a finished translation.
pub fn remember_translation(state: &mut AppState, translation: String)
    ensures
        final(state).last_translation == Some(translation),
        final(state).previous_hwnd == old(state).previous_hwnd,
{
    state.last_translation = Some(translation);
}

/// The last translation, for copying or pasting; `Çeviri yok.` when there
/// is none.
pub fn last_translation_text(state: &AppState) -> (r: Result<String, String>)
    ensures
        state.last_translation matches Some(t) ==> (r matches Ok(x) && x@ == t@),
        state.last_translation is None ==> (r matches Err(m) && m@ == "Çeviri yok."@),
{
    match &state.last_translation {
        Some(t) => Ok(t.clone()),
        None => Err(owned("Çeviri yok.")),
    }
}

/// Whether the shortcut handler reads the clipboard: when the copy chord
/// changed it, or when the shortcut itself copies the selection.
pub fn reads_clipboard(copied: bool, prefs: &Prefs) -> (r: bool)
    ensures
        r == (copied || spec_copies_selection(prefs.hotkey)),
{
    copied || hotkey_copies_selection(prefs)
}

/// Why a text is not sent for translation: it is blank (`err:no_text`),
/// longer than 8000 characters (`err:too_long`), or no usable key is active
/// (`err:no_key`).
pub open spec fn source_error(text: Seq<char>, store: KeyStore) -> Option<Seq<char>> {
    if is_blank(text) {
        Some("err:no_text"@)
    } else if text.len() > MAX_CHARS {
        Some("err:too_long"@)
    } else if spec_active_key(store) is None {
        Some("err:no_key"@)
    } else {
        None
    }
}

/// The checks made before a translation starts.
pub fn check_source(text: &str, store: &KeyStore) -> (r: Result<(), String>)
    ensures
        r is Ok <==> source_error(text@, *store) is None,
        r matches Err(m) ==> source_error(text@, *store) == Some(m@),
{
    if is_blank_str(text) {
        return Err(owned("err:no_text"));
    }
    if text.unicode_len() > MAX_CHARS {
        return Err(owned("err:too_long"));
    }
    if !has_api_key(store) {
        return Err(owned("err:no_key"));
    }
    Ok(())
}

} // verus!
