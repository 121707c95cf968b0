//! Key labels can be read back: every virtual-key code gets a label from
//! which the code is recovered, so different keys never share a label.
use vstd::prelude::*;
use crate::hotkey::vk_name_spec;
use crate::prompt_laws::lemma_dec_digits_are_digits;
use crate::text::{dec_digits, digit_char, hex2, hex_char, hex_digits};

verus! {

/// The value of a decimal digit character.
pub open spec fn digit_value(c: char) -> int {
    (c as int) - 48
}

/// The value of an upper-case hexadecimal digit character.
pub open spec fn hex_digit_value(c: char) -> int {
    if (c as int) <= 57 {
        (c as int) - 48
    } else {
        (c as int) - 55
    }
}

/// The number written in decimal by `s`.
pub open spec fn dec_value(s: Seq<char>) -> int
    decreases s.len(),
{
    if s.len() == 0 {
        0
    } else {
        dec_value(s.drop_last()) * 10 + digit_value(s.last())
    }
}

/// The number written in hexadecimal by `s`.
pub open spec fn hex_value(s: Seq<char>) -> int
    decreases s.len(),
{
    if s.len() == 0 {
        0
    } else {
        hex_value(s.drop_last()) * 16 + hex_digit_value(s.last())
    }
}

/// The character of a decimal digit has the digit's code.
pub proof fn lemma_digit_char(d: nat)
    requires
        d < 10,
    ensures
        digit_char(d) as int == 48 + d,
{
}

/// The character of a hexadecimal digit has the digit's code.
pub proof fn lemma_hex_char(d: nat)
    requires
        d < 16,
    ensures
        hex_char(d) as int == if d < 10 {
            48 + d
        } else {
            55 + d
        },
{
}

/// Reading back a decimal representation gives the number.
pub proof fn lemma_dec_value(n: nat)
    ensures
        dec_value(dec_digits(n)) == n,
    decreases n,
{
    lemma_digit_char((n % 10) as nat);
    if n >= 10 {
        lemma_dec_value(n / 10);
        let d = dec_digits(n / 10);
        let c = digit_char((n % 10) as nat);
        assert(d.push(c).drop_last() =~= d);
        assert(dec_value(d.push(c)) == dec_value(d) * 10 + digit_value(c));
        assert(n == (n / 10) * 10 + n % 10);
    } else {
        assert(seq![digit_char(n)].drop_last() =~= Seq::<char>::empty());
        assert(dec_value(seq![digit_char(n)]) == dec_value(Seq::<char>::empty()) * 10 + digit_value(digit_char(n)));
    }
}


/// Reading back a hexadecimal representation gives the number.
pub proof fn lemma_hex_value(n: nat)
    ensures
        hex_value(hex_digits(n)) == n,
    decreases n,
{
    lemma_hex_char((n % 16) as nat);
    if n >= 16 {
        lemma_hex_value(n / 16);
        let d = hex_digits(n / 16);
        let c = hex_char((n % 16) as nat);
        assert(d.push(c).drop_last() =~= d);
        assert(hex_value(d.push(c)) == hex_value(d) * 16 + hex_digit_value(c));
        assert(n == (n / 16) * 16 + n % 16);
    } else {
        assert(seq![hex_char(n)].drop_last() =~= Seq::<char>::empty());
        assert(hex_value(seq![hex_char(n)]) == hex_value(Seq::<char>::empty()) * 16 + hex_digit_value(hex_char(n)));
    }
}

/// Reading back a two-digit hexadecimal representation gives the number.
pub proof fn lemma_hex2_value(n: nat)
    ensures
        hex_value(hex2(n)) == n,
        hex2(n).len() >= 2,
{
    lemma_hex_value(n);
    if n < 16 {
        let h = hex2(n);
        assert(h =~= seq!['0', hex_char(n)]);
        assert(h.drop_last() =~= seq!['0']);
        assert(seq!['0'].drop_last() =~= Seq::<char>::empty());
        assert(hex_value(seq!['0']) == hex_value(Seq::<char>::empty()) * 16 + hex_digit_value('0'));
        assert(('0' as int) == 48);
        assert(hex_value(h) == hex_value(seq!['0']) * 16 + hex_digit_value(hex_char(n)));
        lemma_hex_char(n);
    } else {
        assert(hex_digits(n) == hex_digits(n / 16).push(hex_char((n % 16) as nat)));
        assert(hex_digits(n / 16).len() > 0);
    }
}


/// The code of a one-character label: a digit, a capital letter, or a
/// punctuation key; -1 for any other character.
pub open spec fn single_code(c: char) -> int {
    if '0' <= c && c <= '9' {
        c as int
    } else if 'A' <= c && c <= 'Z' {
        c as int
    } else if c == ';' {
        0xBA
    } else if c == '=' {
        0xBB
    } else if c == ',' {
        0xBC
    } else if c == '-' {
        0xBD
    } else if c == '.' {
        0xBE
    } else if c == '/' {
        0xBF
    } else if c == '`' {
        0xC0
    } else if c == '[' {
        0xDB
    } else if c == '\\' {
        0xDC
    } else if c == ']' {
        0xDD
    } else if c == '\'' {
        0xDE
    } else {
        -1
    }
}

/// The virtual-key code a label is read back as: one character, `Vk` and
/// hexadecimal digits, `F` and a decimal number, `Num` and a digit, or one of
/// the named keys; -1 for any other text.
pub open spec fn vk_of_label(l: Seq<char>) -> int {
    if l.len() == 1 {
        single_code(l[0])
    } else if l[0] == 'V' {
        hex_value(l.skip(2))
    } else if l[0] == 'F' && '0' <= l[1] && l[1] <= '9' {
        0x6F + dec_value(l.skip(1))
    } else if l.len() == 4 && l[0] == 'N' && '0' <= l[3] && l[3] <= '9' {
        0x60 + digit_value(l[3])
    } else if l == "Backspace"@ {
        0x8
    } else if l == "Tab"@ {
        0x9
    } else if l == "Enter"@ {
        0xD
    } else if l == "Esc"@ {
        0x1B
    } else if l == "Space"@ {
        0x20
    } else if l == "PageUp"@ {
        0x21
    } else if l == "PageDown"@ {
        0x22
    } else if l == "End"@ {
        0x23
    } else if l == "Home"@ {
        0x24
    } else if l == "Left"@ {
        0x25
    } else if l == "Up"@ {
        0x26
    } else if l == "Right"@ {
        0x27
    } else if l == "Down"@ {
        0x28
    } else if l == "PrintScreen"@ {
        0x2C
    } else if l == "Insert"@ {
        0x2D
    } else if l == "Delete"@ {
        0x2E
    } else if l == "Num*"@ {
        0x6A
    } else if l == "Num+"@ {
        0x6B
    } else if l == "Num-"@ {
        0x6D
    } else if l == "Num."@ {
        0x6E
    } else if l == "Num/"@ {
        0x6F
    } else {
        -1
    }
}

/// The character of a capital letter has the letter's code.
pub proof fn lemma_letter_char(d: nat)
    requires
        d < 26,
    ensures
        (((('A' as u32) + d) as u8) as char) as int == 65 + d,
{
}

/// Every key's label reads back as its code.
pub proof fn lemma_label_reads_back(vk: u32)
    ensures
        vk_of_label(vk_name_spec(vk)) == vk as int,
{
    reveal_strlit("Vk");
    reveal_strlit("F");
    reveal_strlit("Num");
    reveal_strlit("Backspace");
    reveal_strlit("Tab");
    reveal_strlit("Enter");
    reveal_strlit("Esc");
    reveal_strlit("Space");
    reveal_strlit("PageUp");
    reveal_strlit("PageDown");
    reveal_strlit("End");
    reveal_strlit("Home");
    reveal_strlit("Left");
    reveal_strlit("Up");
    reveal_strlit("Right");
    reveal_strlit("Down");
    reveal_strlit("PrintScreen");
    reveal_strlit("Insert");
    reveal_strlit("Delete");
    reveal_strlit("Num*");
    reveal_strlit("Num+");
    reveal_strlit("Num-");
    reveal_strlit("Num.");
    reveal_strlit("Num/");
    reveal_strlit(";");
    reveal_strlit("=");
    reveal_strlit(",");
    reveal_strlit("-");
    reveal_strlit(".");
    reveal_strlit("/");
    reveal_strlit("`");
    reveal_strlit("[");
    reveal_strlit("\\");
    reveal_strlit("]");
    reveal_strlit("'");
    if vk == 0x8 {
        assert("Backspace"@[0] == 'B');
    } else if vk == 0x9 {
        assert("Tab"@[0] == 'T');
    } else if vk == 0xD {
        assert("Enter"@[0] == 'E');
    } else if vk == 0x1B {
        assert("Esc"@[0] != "Tab"@[0]);
        assert("Esc"@[0] == 'E');
    } else if vk == 0x20 {
        assert("Space"@[0] != "Enter"@[0]);
        assert("Space"@[0] == 'S');
    } else if vk == 0x21 {
        assert("PageUp"@[0] == 'P');
    } else if vk == 0x22 {
        assert("PageDown"@[0] == 'P');
    } else if vk == 0x23 {
        assert("End"@[0] != "Tab"@[0]);
        assert("End"@[1] != "Esc"@[1]);
        assert("End"@[0] == 'E');
    } else if vk == 0x24 {
        assert("Home"@[0] == 'H');
        assert("Home"@[3] == 'e');
    } else if vk == 0x25 {
        assert("Left"@[0] != "Home"@[0]);
        assert("Left"@[0] == 'L');
        assert("Left"@[3] == 't');
    } else if vk == 0x26 {
        assert("Up"@[0] == 'U');
    } else if vk == 0x27 {
        assert("Right"@[0] != "Enter"@[0]);
        assert("Right"@[0] != "Space"@[0]);
        assert("Right"@[0] == 'R');
    } else if vk == 0x28 {
        assert("Down"@[0] != "Home"@[0]);
        assert("Down"@[0] != "Left"@[0]);
        assert("Down"@[0] == 'D');
        assert("Down"@[3] == 'n');
    } else if vk == 0x2C {
        assert("PrintScreen"@[0] == 'P');
    } else if vk == 0x2D {
        assert("Insert"@[0] != "PageUp"@[0]);
        assert("Insert"@[0] == 'I');
    } else if vk == 0x2E {
        assert("Delete"@[0] != "PageUp"@[0]);
        assert("Delete"@[0] != "Insert"@[0]);
        assert("Delete"@[0] == 'D');
    } else if 0x30 <= vk && vk <= 0x39 {
        let d = (vk - 0x30) as nat;
        lemma_digit_char(d);
        assert(vk_name_spec(vk) == seq![digit_char(d)]);
    } else if 0x41 <= vk && vk <= 0x5A {
        let d = (vk - 0x41) as nat;
        lemma_letter_char(d);
    } else if 0x60 <= vk && vk <= 0x69 {
        let d = (vk - 0x60) as nat;
        lemma_digit_char(d);
        let l = vk_name_spec(vk);
        assert(dec_digits(d) == seq![digit_char(d)]);
        assert(l =~= seq!['N', 'u', 'm', digit_char(d)]);
    } else if vk == 0x6A {
        assert("Num*"@[0] != "Home"@[0]);
        assert("Num*"@[0] != "Left"@[0]);
        assert("Num*"@[0] != "Down"@[0]);
        assert("Num*"@[0] == 'N');
        assert("Num*"@[3] == '*');
    } else if vk == 0x6B {
        assert("Num+"@[0] != "Home"@[0]);
        assert("Num+"@[0] != "Left"@[0]);
        assert("Num+"@[0] != "Down"@[0]);
        assert("Num+"@[3] != "Num*"@[3]);
        assert("Num+"@[0] == 'N');
        assert("Num+"@[3] == '+');
    } else if vk == 0x6D {
        assert("Num-"@[0] != "Home"@[0]);
        assert("Num-"@[0] != "Left"@[0]);
        assert("Num-"@[0] != "Down"@[0]);
        assert("Num-"@[3] != "Num*"@[3]);
        assert("Num-"@[3] != "Num+"@[3]);
        assert("Num-"@[0] == 'N');
        assert("Num-"@[3] == '-');
    } else if vk == 0x6E {
        assert("Num."@[0] != "Home"@[0]);
        assert("Num."@[0] != "Left"@[0]);
        assert("Num."@[0] != "Down"@[0]);
        assert("Num."@[3] != "Num*"@[3]);
        assert("Num."@[3] != "Num+"@[3]);
        assert("Num."@[3] != "Num-"@[3]);
        assert("Num."@[0] == 'N');
        assert("Num."@[3] == '.');
    } else if vk == 0x6F {
        assert("Num/"@[0] != "Home"@[0]);
        assert("Num/"@[0] != "Left"@[0]);
        assert("Num/"@[0] != "Down"@[0]);
        assert("Num/"@[3] != "Num*"@[3]);
        assert("Num/"@[3] != "Num+"@[3]);
        assert("Num/"@[3] != "Num-"@[3]);
        assert("Num/"@[3] != "Num."@[3]);
        assert("Num/"@[0] == 'N');
        assert("Num/"@[3] == '/');
    } else if 0x70 <= vk && vk <= 0x87 {
        let n = (vk - 0x6F) as nat;
        let l = vk_name_spec(vk);
        lemma_dec_digits_are_digits(n);
        lemma_dec_value(n);
        assert(l[0] == 'F');
        assert(l[1] == dec_digits(n)[0]);
        assert(l.skip(1) =~= dec_digits(n));
    } else if vk == 0xBA {

    } else if vk == 0xBB {

    } else if vk == 0xBC {

    } else if vk == 0xBD {

    } else if vk == 0xBE {

    } else if vk == 0xBF {

    } else if vk == 0xC0 {

    } else if vk == 0xDB {

    } else if vk == 0xDC {

    } else if vk == 0xDD {

    } else if vk == 0xDE {

    } else {
        let l = vk_name_spec(vk);
        lemma_hex2_value(vk as nat);
        assert(l[0] == 'V');
        assert(l.skip(2) =~= hex2(vk as nat));
    }
}

/// Different keys never get the same label.
pub proof fn lemma_vk_names_distinct(a: u32, b: u32)
    requires
        a != b,
    ensures
        vk_name_spec(a) != vk_name_spec(b),
{
    lemma_label_reads_back(a);
    lemma_label_reads_back(b);
}

} // verus!
