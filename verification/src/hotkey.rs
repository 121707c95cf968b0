//! The global shortcut: its shape, the rules a shortcut must meet, and the
//! label shown for it.
use vstd::prelude::*;
use crate::text::{dec_digits, digit_char, hex2, hex_digits, owned, push_char, decimal, hex_upper};

verus! {

/// A keyboard shortcut: modifier keys, a Windows virtual-key code, and how
/// many times the key is tapped (once or twice).
#[derive(Clone, Copy, Debug, PartialEq, Eq, Structural)]
pub struct Hotkey {
    pub ctrl: bool,
    pub alt: bool,
    pub shift: bool,
    pub win: bool,
    pub vk: u32,
    pub taps: u8,
}

/// Virtual-key code of the C key.
pub fn default_vk_c() -> (r: u32)
    ensures
        r == 0x43,
{
    0x43
}

/// Number of taps of the default shortcut.
pub fn default_taps() -> (r: u8)
    ensures
        r == 2,
{
    2
}

/// The default shortcut: Ctrl+C pressed twice.
pub open spec fn spec_default_hotkey() -> Hotkey {
    Hotkey { ctrl: true, alt: false, shift: false, win: false, vk: 0x43, taps: 2 }
}

pub fn default_hotkey() -> (r: Hotkey)
    ensures
        r == spec_default_hotkey(),
{
    Hotkey {
        ctrl: true,
        alt: false,
        shift: false,
        win: false,
        vk: default_vk_c(),
        taps: default_taps(),
    }
}

/// Ctrl, Alt, Shift and Win, left, right or either.
pub open spec fn spec_is_modifier_vk(vk: u32) -> bool {
    vk == 0x10 || vk == 0x11 || vk == 0x12 || vk == 0x5B || vk == 0x5C || (0xA0 <= vk
        && vk <= 0xA5)
}

pub fn is_modifier_vk(vk: u32) -> (r: bool)
    ensures
        r == spec_is_modifier_vk(vk),
{
    vk == 0x10 || vk == 0x11 || vk == 0x12 || vk == 0x5B || vk == 0x5C || (0xA0 <= vk && vk
        <= 0xA5)
}

/// F1 through F24.
pub open spec fn spec_is_function_key(vk: u32) -> bool {
    0x70 <= vk && vk <= 0x87
}

pub fn is_function_key(vk: u32) -> (r: bool)
    ensures
        r == spec_is_function_key(vk),
{
    0x70 <= vk && vk <= 0x87
}

/// Why a shortcut is refused, or `None` when it is accepted.
pub open spec fn hotkey_error(h: Hotkey) -> Option<Seq<char>> {
    if h.taps != 1 && h.taps != 2 {
        Some("Kısayol 1 veya 2 vuruş olmalı."@)
    } else if spec_is_modifier_vk(h.vk) {
        Some("Yalnızca Ctrl, Alt, Shift veya Win yetmez."@)
    } else if h.vk == 0x1B {
        Some("Esc kısayol olarak kullanılamaz."@)
    } else if !(h.ctrl || h.alt || h.shift || h.win) && !spec_is_function_key(h.vk) {
        Some("Harf tuşu için Ctrl, Alt, Shift veya Win kullan."@)
    } else {
        None
    }
}

/// Checks that a shortcut can be used: one or two taps, a key that is not a
/// modifier or Esc, and a modifier unless the key is a function key.
pub fn validate_hotkey(hotkey: &Hotkey) -> (r: Result<(), String>)
    ensures
        r is Ok <==> hotkey_error(*hotkey) is None,
        r matches Err(m) ==> hotkey_error(*hotkey) == Some(m@),
{
    if hotkey.taps != 1 && hotkey.taps != 2 {
        return Err(owned("Kısayol 1 veya 2 vuruş olmalı."));
    }
    if is_modifier_vk(hotkey.vk) {
        return Err(owned("Yalnızca Ctrl, Alt, Shift veya Win yetmez."));
    }
    if hotkey.vk == 0x1B {
        return Err(owned("Esc kısayol olarak kullanılamaz."));
    }
    let has_mod = hotkey.ctrl || hotkey.alt || hotkey.shift || hotkey.win;
    if !has_mod && !is_function_key(hotkey.vk) {
        return Err(owned("Harf tuşu için Ctrl, Alt, Shift veya Win kullan."));
    }
    Ok(())
}

/// The name shown for a virtual-key code.
pub open spec fn vk_name_spec(vk: u32) -> Seq<char> {
    if vk == 0x08 {
        "Backspace"@
    } else if vk == 0x09 {
        "Tab"@
    } else if vk == 0x0D {
        "Enter"@
    } else if vk == 0x1B {
        "Esc"@
    } else if vk == 0x20 {
        "Space"@
    } else if vk == 0x21 {
        "PageUp"@
    } else if vk == 0x22 {
        "PageDown"@
    } else if vk == 0x23 {
        "End"@
    } else if vk == 0x24 {
        "Home"@
    } else if vk == 0x25 {
        "Left"@
    } else if vk == 0x26 {
        "Up"@
    } else if vk == 0x27 {
        "Right"@
    } else if vk == 0x28 {
        "Down"@
    } else if vk == 0x2C {
        "PrintScreen"@
    } else if vk == 0x2D {
        "Insert"@
    } else if vk == 0x2E {
        "Delete"@
    } else if 0x30 <= vk && vk <= 0x39 {
        seq![digit_char((vk - 0x30) as nat)]
    } else if 0x41 <= vk && vk <= 0x5A {
        seq![((('A' as u32) + (vk - 0x41)) as u8) as char]
    } else if 0x60 <= vk && vk <= 0x69 {
        "Num"@ + dec_digits((vk - 0x60) as nat)
    } else if vk == 0x6A {
        "Num*"@
    } else if vk == 0x6B {
        "Num+"@
    } else if vk == 0x6D {
        "Num-"@
    } else if vk == 0x6E {
        "Num."@
    } else if vk == 0x6F {
        "Num/"@
    } else if 0x70 <= vk && vk <= 0x87 {
        "F"@ + dec_digits((vk - 0x6F) as nat)
    } else if vk == 0xBA {
        ";"@
    } else if vk == 0xBB {
        "="@
    } else if vk == 0xBC {
        ","@
    } else if vk == 0xBD {
        "-"@
    } else if vk == 0xBE {
        "."@
    } else if vk == 0xBF {
        "/"@
    } else if vk == 0xC0 {
        "`"@
    } else if vk == 0xDB {
        "["@
    } else if vk == 0xDC {
        "\\"@
    } else if vk == 0xDD {
        "]"@
    } else if vk == 0xDE {
        "'"@
    } else {
        "Vk"@ + hex2(vk as nat)
    }
}

/// The name of a virtual-key code: named keys, digits, letters, numpad and
/// function keys, punctuation, and `Vk` with the code in hexadecimal otherwise.
pub fn vk_name(vk: u32) -> (r: String)
    ensures
        r@ == vk_name_spec(vk),
{
    if vk == 0x08 {
        owned("Backspace")
    } else if vk == 0x09 {
        owned("Tab")
    } else if vk == 0x0D {
        owned("Enter")
    } else if vk == 0x1B {
        owned("Esc")
    } else if vk == 0x20 {
        owned("Space")
    } else if vk == 0x21 {
        owned("PageUp")
    } else if vk == 0x22 {
        owned("PageDown")
    } else if vk == 0x23 {
        owned("End")
    } else if vk == 0x24 {
        owned("Home")
    } else if vk == 0x25 {
        owned("Left")
    } else if vk == 0x26 {
        owned("Up")
    } else if vk == 0x27 {
        owned("Right")
    } else if vk == 0x28 {
        owned("Down")
    } else if vk == 0x2C {
        owned("PrintScreen")
    } else if vk == 0x2D {
        owned("Insert")
    } else if vk == 0x2E {
        owned("Delete")
    } else if 0x30 <= vk && vk <= 0x39 {
        let mut r = String::new();
        push_char(&mut r, ((48u8) + ((vk - 0x30) as u8)) as char);
        r
    } else if 0x41 <= vk && vk <= 0x5A {
        let mut r = String::new();
        push_char(&mut r, ((65u8) + ((vk - 0x41) as u8)) as char);
        r
    } else if 0x60 <= vk && vk <= 0x69 {
        let mut r = owned("Num");
        let d = decimal((vk - 0x60) as u64);
        r.append(d.as_str());
        r
    } else if vk == 0x6A {
        owned("Num*")
    } else if vk == 0x6B {
        owned("Num+")
    } else if vk == 0x6D {
        owned("Num-")
    } else if vk == 0x6E {
        owned("Num.")
    } else if vk == 0x6F {
        owned("Num/")
    } else if 0x70 <= vk && vk <= 0x87 {
        let mut r = owned("F");
        let d = decimal((vk - 0x6F) as u64);
        r.append(d.as_str());
        r
    } else if vk == 0xBA {
        owned(";")
    } else if vk == 0xBB {
        owned("=")
    } else if vk == 0xBC {
        owned(",")
    } else if vk == 0xBD {
        owned("-")
    } else if vk == 0xBE {
        owned(".")
    } else if vk == 0xBF {
        owned("/")
    } else if vk == 0xC0 {
        owned("`")
    } else if vk == 0xDB {
        owned("[")
    } else if vk == 0xDC {
        owned("\\")
    } else if vk == 0xDD {
        owned("]")
    } else if vk == 0xDE {
        owned("'")
    } else {
        let mut r = owned("Vk");
        if vk < 16 {
            push_char(&mut r, '0');
        }
        let h = hex_upper(vk);
        r.append(h.as_str());
        assert(vk < 16 ==> r@ =~= "Vk"@ + (seq!['0'] + hex_digits(vk as nat)));
        r
    }
}

/// The label of a shortcut: its modifiers, the key, and the key again when
/// it is tapped twice, joined by `+` (for example `Ctrl+C+C`).
pub open spec fn hotkey_label_spec(h: Hotkey) -> Seq<char> {
    let key = vk_name_spec(h.vk);
    (if h.ctrl {
        "Ctrl+"@
    } else {
        Seq::<char>::empty()
    }) + (if h.alt {
        "Alt+"@
    } else {
        Seq::<char>::empty()
    }) + (if h.shift {
        "Shift+"@
    } else {
        Seq::<char>::empty()
    }) + (if h.win {
        "Win+"@
    } else {
        Seq::<char>::empty()
    }) + key + (if h.taps == 2 {
        "+"@ + key
    } else {
        Seq::<char>::empty()
    })
}

pub fn format_hotkey(hotkey: Hotkey) -> (r: String)
    ensures
        r@ == hotkey_label_spec(hotkey),
{
    let mut r = String::new();
    if hotkey.ctrl {
        r.append("Ctrl+");
    }
    let ghost a = r@;
    if hotkey.alt {
        r.append("Alt+");
    }
    let ghost b = r@;
    if hotkey.shift {
        r.append("Shift+");
    }
    let ghost c = r@;
    if hotkey.win {
        r.append("Win+");
    }
    let ghost d = r@;
    let key = vk_name(hotkey.vk);
    r.append(key.as_str());
    if hotkey.taps == 2 {
        r.append("+");
        r.append(key.as_str());
    }
    let ghost key_v = vk_name_spec(hotkey.vk);
    assert(a =~= (if hotkey.ctrl {
        "Ctrl+"@
    } else {
        Seq::<char>::empty()
    }));
    assert(b =~= a + (if hotkey.alt {
        "Alt+"@
    } else {
        Seq::<char>::empty()
    }));
    assert(c =~= b + (if hotkey.shift {
        "Shift+"@
    } else {
        Seq::<char>::empty()
    }));
    assert(d =~= c + (if hotkey.win {
        "Win+"@
    } else {
        Seq::<char>::empty()
    }));
    assert(r@ =~= d + key_v + (if hotkey.taps == 2 {
        "+"@ + key_v
    } else {
        Seq::<char>::empty()
    }));
    r
}

/// The default shortcut passes `validate_hotkey`.
pub proof fn lemma_default_hotkey_valid()
    ensures
        hotkey_error(spec_default_hotkey()) is None,
{
}


/// Every key gets a label: no key's label is empty.
pub proof fn lemma_vk_name_not_empty(vk: u32)
    ensures
        vk_name_spec(vk).len() > 0,
{
    reveal_strlit("Backspace");
    reveal_strlit("Tab");
    reveal_strlit("Enter");
    reveal_strlit("Esc");
    reveal_strlit("Space");
    reveal_strlit("PageUp");
    reveal_strlit("PageDown");
    reveal_strlit("End");
    reveal_strlit("Home");
    reveal_strlit("Left");
    reveal_strlit("Up");
    reveal_strlit("Right");
    reveal_strlit("Down");
    reveal_strlit("PrintScreen");
    reveal_strlit("Insert");
    reveal_strlit("Delete");
    reveal_strlit("Num");
    reveal_strlit("Num*");
    reveal_strlit("Num+");
    reveal_strlit("Num-");
    reveal_strlit("Num.");
    reveal_strlit("Num/");
    reveal_strlit("F");
    reveal_strlit(";");
    reveal_strlit("=");
    reveal_strlit(",");
    reveal_strlit("-");
    reveal_strlit(".");
    reveal_strlit("/");
    reveal_strlit("`");
    reveal_strlit("[");
    reveal_strlit("\\");
    reveal_strlit("]");
    reveal_strlit("'");
    reveal_strlit("Vk");
    if 0x60 <= vk && vk <= 0x69 {
        assert(dec_digits((vk - 0x60) as nat).len() > 0);
    } else if 0x70 <= vk && vk <= 0x87 {
        assert(dec_digits((vk - 0x6F) as nat).len() > 0);
    }
}


/// Any one of the four modifiers is enough: a shortcut of one or two taps
/// on a key that is not Ctrl, Alt, Shift, Win (left, right or either) or
/// Esc is accepted as soon as Ctrl, Alt, Shift or Win is part of it; a
/// function key F1 to F24 needs no modifier.
pub proof fn lemma_one_modifier_is_enough(h: Hotkey)
    requires
        h.taps == 1 || h.taps == 2,
        h.vk != 0x10 && h.vk != 0x11 && h.vk != 0x12 && h.vk != 0x5B && h.vk != 0x5C,
        !(0xA0 <= h.vk && h.vk <= 0xA5),
        h.vk != 0x1B,
    ensures
        (h.ctrl || h.alt || h.shift || h.win) ==> hotkey_error(h) is None,
        (0x70 <= h.vk && h.vk <= 0x87) ==> hotkey_error(h) is None,
        (!(h.ctrl || h.alt || h.shift || h.win) && !(0x70 <= h.vk && h.vk <= 0x87)) ==> hotkey_error(h) is Some,
{
}

} // verus!
