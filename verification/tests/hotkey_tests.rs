use idkeng::hook::{is_down_msg, is_up_msg, HookState, COOLDOWN_MS};
use idkeng::hotkey::{
    default_hotkey, default_taps, default_vk_c, format_hotkey, is_function_key, is_modifier_vk,
    validate_hotkey, vk_name, Hotkey,
};
use idkeng::paste::{copy_chord, paste_keys, KeyPress};

fn hk(ctrl: bool, alt: bool, shift: bool, win: bool, vk: u32, taps: u8) -> Hotkey {
    Hotkey { ctrl, alt, shift, win, vk, taps }
}

#[test]
fn default_hotkey_is_ctrl_c_twice() {
    let h = default_hotkey();
    assert_eq!(h, hk(true, false, false, false, 0x43, 2));
    assert_eq!(default_vk_c(), 0x43);
    assert_eq!(default_taps(), 2);
    assert!(validate_hotkey(&h).is_ok());
    assert_eq!(format_hotkey(h), "Ctrl+C+C");
}

#[test]
fn labels_of_shortcuts() {
    assert_eq!(format_hotkey(hk(true, true, true, true, 0x70, 1)), "Ctrl+Alt+Shift+Win+F1");
    assert_eq!(format_hotkey(hk(false, true, false, false, 0x20, 2)), "Alt+Space+Space");
    assert_eq!(format_hotkey(hk(false, false, true, false, 0x87, 1)), "Shift+F24");
}

#[test]
fn names_of_keys() {
    assert_eq!(vk_name(0x08), "Backspace");
    assert_eq!(vk_name(0x2C), "PrintScreen");
    assert_eq!(vk_name(0x30), "0");
    assert_eq!(vk_name(0x39), "9");
    assert_eq!(vk_name(0x41), "A");
    assert_eq!(vk_name(0x5A), "Z");
    assert_eq!(vk_name(0x60), "Num0");
    assert_eq!(vk_name(0x69), "Num9");
    assert_eq!(vk_name(0x6A), "Num*");
    assert_eq!(vk_name(0x6F), "Num/");
    assert_eq!(vk_name(0x70), "F1");
    assert_eq!(vk_name(0x79), "F10");
    assert_eq!(vk_name(0x87), "F24");
    assert_eq!(vk_name(0xBA), ";");
    assert_eq!(vk_name(0xDC), "\\");
    assert_eq!(vk_name(0xDE), "'");
    assert_eq!(vk_name(0x07), "Vk07");
    assert_eq!(vk_name(0xFF), "VkFF");
    assert_eq!(vk_name(0x1A2), "Vk1A2");
    assert_eq!(vk_name(0x6C), "Vk6C");
}

#[test]
fn shortcut_rules() {
    assert_eq!(validate_hotkey(&hk(true, false, false, false, 0x43, 3)), Err("Kısayol 1 veya 2 vuruş olmalı.".to_string()));
    assert_eq!(validate_hotkey(&hk(true, false, false, false, 0x43, 0)), Err("Kısayol 1 veya 2 vuruş olmalı.".to_string()));
    assert_eq!(validate_hotkey(&hk(true, false, false, false, 0x11, 1)), Err("Yalnızca Ctrl, Alt, Shift veya Win yetmez.".to_string()));
    assert_eq!(validate_hotkey(&hk(true, false, false, false, 0xA5, 1)), Err("Yalnızca Ctrl, Alt, Shift veya Win yetmez.".to_string()));
    assert_eq!(validate_hotkey(&hk(true, false, false, false, 0x1B, 1)), Err("Esc kısayol olarak kullanılamaz.".to_string()));
    assert_eq!(validate_hotkey(&hk(false, false, false, false, 0x41, 1)), Err("Harf tuşu için Ctrl, Alt, Shift veya Win kullan.".to_string()));
    assert_eq!(validate_hotkey(&hk(false, false, false, false, 0x71, 1)), Ok(()));
    assert_eq!(validate_hotkey(&hk(false, false, false, true, 0x41, 2)), Ok(()));
    assert!(is_modifier_vk(0x5C));
    assert!(!is_modifier_vk(0x43));
    assert!(is_function_key(0x70));
    assert!(is_function_key(0x87));
    assert!(!is_function_key(0x88));
}

#[test]
fn messages_of_the_hook() {
    assert!(is_down_msg(0x0100));
    assert!(is_down_msg(0x0104));
    assert!(!is_down_msg(0x0101));
    assert!(is_up_msg(0x0101));
    assert!(is_up_msg(0x0105));
    assert!(!is_up_msg(0x0100));
}

#[test]
fn modifiers_are_tracked() {
    let mut s = HookState::new();
    assert!(s.set_modifier(0xA2, true));
    assert!(s.ctrl);
    assert!(s.mods_match(default_hotkey()));
    assert!(s.set_modifier(0x10, true));
    assert!(!s.mods_match(default_hotkey()));
    assert!(s.set_modifier(0xA1, false));
    assert!(s.mods_match(default_hotkey()));
    assert!(!s.set_modifier(0x43, true));
}

#[test]
fn double_tap_starts_a_translation() {
    let h = default_hotkey();
    let mut s = HookState::new();
    s.set_modifier(0x11, true);
    let a = s.handle_trigger_at(h, true, false, 0x43, 10_000);
    assert!(!a.send && !a.consume);
    assert_eq!(s.last_tap_ms, 10_000);
    // auto-repeat while held does nothing
    let a = s.handle_trigger_at(h, true, false, 0x43, 10_050);
    assert!(!a.send);
    let a = s.handle_trigger_at(h, false, true, 0x43, 10_100);
    assert!(!a.send);
    assert!(!s.trigger_held);
    let a = s.handle_trigger_at(h, true, false, 0x43, 10_300);
    assert!(a.send);
    assert!(!a.consume);
    assert_eq!(s.last_trigger_ms, 10_300);
    assert_eq!(s.last_tap_ms, 0);
}

#[test]
fn slow_second_tap_only_arms_again() {
    let h = default_hotkey();
    let mut s = HookState::new();
    s.set_modifier(0x11, true);
    s.handle_trigger_at(h, true, false, 0x43, 10_000);
    s.handle_trigger_at(h, false, true, 0x43, 10_100);
    let a = s.handle_trigger_at(h, true, false, 0x43, 10_501);
    assert!(!a.send);
    assert_eq!(s.last_tap_ms, 10_501);
}

#[test]
fn cooldown_and_single_tap() {
    let h = hk(false, false, false, false, 0x71, 1);
    let mut s = HookState::new();
    let a = s.handle_trigger_at(h, true, false, 0x71, 5_000);
    assert!(a.send && a.consume);
    s.handle_trigger_at(h, false, true, 0x71, 5_100);
    let a = s.handle_trigger_at(h, true, false, 0x71, 5_000 + COOLDOWN_MS - 1);
    assert!(!a.send);
    s.handle_trigger_at(h, false, true, 0x71, 5_700);
    let a = s.handle_trigger_at(h, true, false, 0x71, 5_000 + COOLDOWN_MS);
    assert!(a.send);
}

#[test]
fn other_keys_and_wrong_modifiers_cancel() {
    let h = default_hotkey();
    let mut s = HookState::new();
    s.set_modifier(0x11, true);
    s.handle_trigger_at(h, true, false, 0x43, 10_000);
    s.handle_trigger_at(h, false, true, 0x43, 10_050);
    s.handle_trigger_at(h, true, false, 0x44, 10_100);
    assert_eq!(s.last_tap_ms, 0);
    s.set_modifier(0x12, true);
    let a = s.handle_trigger_at(h, true, false, 0x43, 10_200);
    assert!(!a.send);
    assert_eq!(s.last_tap_ms, 0);
    assert!(s.trigger_held);
    s.reset_pending();
    assert!(!s.trigger_held);
}

#[test]
fn handle_trigger_reads_the_clock() {
    let h = default_hotkey();
    let mut s = HookState::new();
    s.set_modifier(0x11, true);
    let a = s.handle_trigger(h, true, false, 0x43);
    assert!(!a.send);
    assert!(s.last_tap_ms > 0);
}

#[test]
fn key_presses() {
    let p = paste_keys();
    assert_eq!(
        p,
        vec![
            KeyPress { vk: 0x11, up: false },
            KeyPress { vk: 0x56, up: false },
            KeyPress { vk: 0x56, up: true },
            KeyPress { vk: 0x11, up: true },
        ]
    );
    let c = copy_chord(default_hotkey());
    assert_eq!(c.len(), 4);
    let c = copy_chord(hk(false, true, true, true, 0x71, 1));
    assert_eq!(
        c,
        vec![
            KeyPress { vk: 0x71, up: true },
            KeyPress { vk: 0x10, up: true },
            KeyPress { vk: 0x12, up: true },
            KeyPress { vk: 0x5B, up: true },
            KeyPress { vk: 0x5C, up: true },
            KeyPress { vk: 0x11, up: false },
            KeyPress { vk: 0x43, up: false },
            KeyPress { vk: 0x43, up: true },
            KeyPress { vk: 0x11, up: true },
        ]
    );
}

#[test]
fn sends_stay_a_cooldown_apart() {
    let h = hk(true, false, false, true, 0x51, 1);
    let mut s = HookState::new();
    s.set_modifier(0x11, true);
    s.set_modifier(0x5B, true);
    let mut sent: Vec<u64> = Vec::new();
    let mut t: u64 = 600;
    while t < 5000 {
        if s.handle_trigger_at(h, true, false, 0x51, t).send {
            sent.push(t);
        }
        s.handle_trigger_at(h, false, true, 0x51, t);
        t += 150;
    }
    assert_eq!(sent, vec![600, 1200, 1800, 2400, 3000, 3600, 4200, 4800]);
    for w in sent.windows(2) {
        assert!(w[1] - w[0] >= COOLDOWN_MS);
    }
}

#[test]
fn key_labels_are_distinct() {
    let mut labels: Vec<String> = (0u32..=300).map(vk_name).collect();
    labels.push(vk_name(0x1234_5678));
    assert!(labels.iter().all(|l| !l.is_empty()));
    let n = labels.len();
    labels.sort();
    labels.dedup();
    assert_eq!(labels.len(), n);
}
