//! Settings, prompt and key-store logic of a clipboard translation tool.
pub mod clock;
pub mod hook;
pub mod hotkey;
pub mod lang;
pub mod text;
pub mod prefs;
pub mod prompts;
pub mod keys;
pub mod traffic;
pub mod gemini;
pub mod clipboard;
pub mod paste;
pub mod session;
pub mod tray;
pub mod overlay;
pub mod settings;
pub mod prompt_laws;
pub mod rule_table_laws;
pub mod hotkey_laws;
