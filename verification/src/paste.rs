//! The key presses sent to copy a selection and to paste a translation.
use vstd::prelude::*;
use crate::hotkey::Hotkey;

verus! {

/// Virtual-key codes of the keys pressed.
pub const VK_SHIFT: u16 = 0x10;
pub const VK_CONTROL: u16 = 0x11;
pub const VK_MENU: u16 = 0x12;
pub const VK_LWIN: u16 = 0x5B;
pub const VK_RWIN: u16 = 0x5C;
pub const VK_C: u16 = 0x43;
pub const VK_V: u16 = 0x56;

/// A key going down or up.
#[derive(Clone, Copy, Debug, PartialEq, Eq, Structural)]
pub struct KeyPress {
    pub vk: u16,
    pub up: bool,
}

pub open spec fn press(vk: u16) -> KeyPress {
    KeyPress { vk: vk, up: false }
}

pub open spec fn release(vk: u16) -> KeyPress {
    KeyPress { vk: vk, up: true }
}

/// Ctrl+V.
pub open spec fn spec_paste_keys() -> Seq<KeyPress> {
    seq![press(VK_CONTROL), press(VK_V), release(VK_V), release(VK_CONTROL)]
}

pub fn paste_keys() -> (r: Vec<KeyPress>)
    ensures
        r@ == spec_paste_keys(),
{
    let mut v: Vec<KeyPress> = Vec::new();
    v.push(KeyPress { vk: VK_CONTROL, up: false });
    v.push(KeyPress { vk: VK_V, up: false });
    v.push(KeyPress { vk: VK_V, up: true });
    v.push(KeyPress { vk: VK_CONTROL, up: true });
    assert(v@ =~= spec_paste_keys());
    v
}

/// Releases the shortcut's key (unless it is C) and its Shift, Alt and Win
/// modifiers, then presses Ctrl+C.
pub open spec fn spec_copy_chord(h: Hotkey) -> Seq<KeyPress> {
    (if h.vk != 0x43 {
        seq![release(h.vk as u16)]
    } else {
        Seq::empty()
    }) + (if h.shift {
        seq![release(VK_SHIFT)]
    } else {
        Seq::empty()
    }) + (if h.alt {
        seq![release(VK_MENU)]
    } else {
        Seq::empty()
    }) + (if h.win {
        seq![release(VK_LWIN), release(VK_RWIN)]
    } else {
        Seq::empty()
    }) + seq![press(VK_CONTROL), press(VK_C), release(VK_C), release(VK_CONTROL)]
}

/// The key presses that copy the selection while the shortcut may still be
/// held.
pub fn copy_chord(hotkey: Hotkey) -> (r: Vec<KeyPress>)
    ensures
        r@ == spec_copy_chord(hotkey),
{
    let mut v: Vec<KeyPress> = Vec::new();
    if hotkey.vk != 0x43 {
        v.push(KeyPress { vk: hotkey.vk as u16, up: true });
    }
    let ghost a = v@;
    if hotkey.shift {
        v.push(KeyPress { vk: VK_SHIFT, up: true });
    }
    let ghost b = v@;
    if hotkey.alt {
        v.push(KeyPress { vk: VK_MENU, up: true });
    }
    let ghost c = v@;
    if hotkey.win {
        v.push(KeyPress { vk: VK_LWIN, up: true });
        v.push(KeyPress { vk: VK_RWIN, up: true });
    }
    let ghost d = v@;
    v.push(KeyPress { vk: VK_CONTROL, up: false });
    v.push(KeyPress { vk: VK_C, up: false });
    v.push(KeyPress { vk: VK_C, up: true });
    v.push(KeyPress { vk: VK_CONTROL, up: true });
    assert(a =~= (if hotkey.vk != 0x43 {
        seq![release(hotkey.vk as u16)]
    } else {
        Seq::empty()
    }));
    assert(b =~= a + (if hotkey.shift {
        seq![release(VK_SHIFT)]
    } else {
        Seq::empty()
    }));
    assert(c =~= b + (if hotkey.alt {
        seq![release(VK_MENU)]
    } else {
        Seq::empty()
    }));
    assert(d =~= c + (if hotkey.win {
        seq![release(VK_LWIN), release(VK_RWIN)]
    } else {
        Seq::empty()
    }));
    assert(v@ =~= d + seq![press(VK_CONTROL), press(VK_C), release(VK_C), release(VK_CONTROL)]);
    v
}


/// The copy chord releases the shortcut's Shift, Alt and Win (both Win keys)
/// when the shortcut holds them, and the shortcut's key unless it is C,
/// before pressing anything; it then presses Ctrl, presses C, releases C and
/// releases Ctrl, in that order, and presses no other key.
pub proof fn lemma_copy_chord_shape(h: Hotkey)
    ensures
        ({
            let c = spec_copy_chord(h);
            let n = c.len();
            &&& n >= 4
            &&& c[n - 4] == (KeyPress { vk: 0x11, up: false })
            &&& c[n - 3] == (KeyPress { vk: 0x43, up: false })
            &&& c[n - 2] == (KeyPress { vk: 0x43, up: true })
            &&& c[n - 1] == (KeyPress { vk: 0x11, up: true })
            &&& forall|i: int| 0 <= i < n - 4 ==> (#[trigger] c[i]).up
            &&& h.shift ==> c.contains(KeyPress { vk: 0x10, up: true })
            &&& h.alt ==> c.contains(KeyPress { vk: 0x12, up: true })
            &&& h.win ==> c.contains(KeyPress { vk: 0x5B, up: true }) && c.contains(KeyPress { vk: 0x5C, up: true })
            &&& h.vk != 0x43 ==> c[0] == (KeyPress { vk: h.vk as u16, up: true })
            &&& n == 4 + (if h.vk != 0x43 { 1int } else { 0 }) + (if h.shift { 1int } else { 0 })
                + (if h.alt { 1int } else { 0 }) + (if h.win { 2int } else { 0 })
        }),
{
    let a = if h.vk != 0x43 {
        seq![release(h.vk as u16)]
    } else {
        Seq::empty()
    };
    let b = if h.shift {
        seq![release(VK_SHIFT)]
    } else {
        Seq::empty()
    };
    let d = if h.alt {
        seq![release(VK_MENU)]
    } else {
        Seq::empty()
    };
    let w = if h.win {
        seq![release(VK_LWIN), release(VK_RWIN)]
    } else {
        Seq::empty()
    };
    let tail = seq![press(VK_CONTROL), press(VK_C), release(VK_C), release(VK_CONTROL)];
    let head = a + b + d + w;
    let c = spec_copy_chord(h);
    assert(c == head + tail);
    assert forall|i: int| 0 <= i < head.len() implies (#[trigger] head[i]).up by {
        if i < a.len() {
            assert(head[i] == a[i]);
        } else if i < a.len() + b.len() {
            assert(head[i] == b[i - a.len()]);
        } else if i < a.len() + b.len() + d.len() {
            assert(head[i] == d[i - a.len() - b.len()]);
        } else {
            assert(head[i] == w[i - a.len() - b.len() - d.len()]);
        }
    }
    assert forall|i: int| 0 <= i < c.len() - 4 implies (#[trigger] c[i]).up by {
        assert(c[i] == head[i]);
    }
    if h.shift {
        assert(c[a.len() as int] == release(VK_SHIFT));
    }
    if h.alt {
        assert(c[(a.len() + b.len()) as int] == release(VK_MENU));
    }
    if h.win {
        assert(c[(a.len() + b.len() + d.len()) as int] == release(VK_LWIN));
        assert(c[(a.len() + b.len() + d.len() + 1) as int] == release(VK_RWIN));
    }
    if h.vk != 0x43 {
        assert(c[0] == a[0]);
    }
}

} // verus!
