# idkeng

The rules of a desktop translator: a global shortcut (Ctrl+C twice by
default) copies the selected text, which is sent to a language model
(Gemini or an OpenAI-style endpoint) with a set of numbered rules, and the
translation is shown in a small window from which it can be copied or
pasted back.

`src/` is the library, verified with Verus: the shortcut watcher's state
machine (`hook`), shortcut rules and labels (`hotkey`, `hotkey_laws`), preferences and
their repair after loading (`prefs`), the prompt rules in twelve interface
languages (`prompts`, `lang`, `prompt_laws`, `rule_table_laws`), the key store (`keys`), the
request log (`traffic`), how replies become translations or errors and in
which order models are tried (`gemini`), and the settings page (`settings`).

`app/` is the Tauri shell around it: windows, tray, the Windows keyboard
hook and key injection, the clipboard, files, key encryption and HTTP.
