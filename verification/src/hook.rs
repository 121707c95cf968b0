//! Decisions of the low-level keyboard watcher: which modifiers are down,
//! whether a key event completes the shortcut, and the double-tap and
//! cooldown timing.
use vstd::prelude::*;
use crate::clock::now_ms;
use crate::hotkey::Hotkey;

verus! {

/// Longest gap between the two taps of a double-tap shortcut, in ms.
pub const DOUBLE_TAP_MS: u64 = 500;

/// Shortest gap between two translations started by the shortcut, in ms.
pub const COOLDOWN_MS: u64 = 600;

/// `WM_KEYDOWN`, `WM_SYSKEYDOWN`, `WM_KEYUP` and `WM_SYSKEYUP`.
pub const WM_KEYDOWN: u32 = 0x0100;
pub const WM_KEYUP: u32 = 0x0101;
pub const WM_SYSKEYDOWN: u32 = 0x0104;
pub const WM_SYSKEYUP: u32 = 0x0105;

/// What the watcher remembers between key events.
#[derive(Clone, Copy, Debug, PartialEq, Eq, Structural)]
pub struct HookState {
    /// Time of the first tap of a pending double tap, or 0.
    pub last_tap_ms: u64,
    /// Time of the last translation started.
    pub last_trigger_ms: u64,
    /// The shortcut key is held down.
    pub trigger_held: bool,
    pub ctrl: bool,
    pub alt: bool,
    pub shift: bool,
    pub win: bool,
}

/// What to do with a key event.
#[derive(Clone, Copy, Debug, PartialEq, Eq, Structural)]
pub struct TriggerAction {
    /// Swallow the event instead of passing it on.
    pub consume: bool,
    /// Start a translation of the foreground window's selection.
    pub send: bool,
}

/// `a - b`, or 0 when `b > a`.
pub open spec fn sat_sub(a: u64, b: u64) -> int {
    if a >= b {
        a - b
    } else {
        0
    }
}

/// The state with no pending tap and the key not held.
pub open spec fn spec_reset(s: HookState) -> HookState {
    HookState { last_tap_ms: 0, trigger_held: false, ..s }
}

/// The state after a modifier key goes down or up, and whether `vk` was a
/// modifier at all.
pub open spec fn spec_set_modifier(s: HookState, vk: u32, down: bool) -> (HookState, bool) {
    if vk == 0x11 || vk == 0xA2 || vk == 0xA3 {
        (HookState { ctrl: down, ..s }, true)
    } else if vk == 0x12 || vk == 0xA4 || vk == 0xA5 {
        (HookState { alt: down, ..s }, true)
    } else if vk == 0x10 || vk == 0xA0 || vk == 0xA1 {
        (HookState { shift: down, ..s }, true)
    } else if vk == 0x5B || vk == 0x5C {
        (HookState { win: down, ..s }, true)
    } else {
        (s, false)
    }
}

/// The modifiers held are exactly those of the shortcut.
pub open spec fn spec_mods_match(s: HookState, h: Hotkey) -> bool {
    s.ctrl == h.ctrl && s.alt == h.alt && s.shift == h.shift && s.win == h.win
}

pub open spec fn no_action() -> TriggerAction {
    TriggerAction { consume: false, send: false }
}

/// The state and action after a non-modifier key event at time `t`.
pub open spec fn spec_handle(
    s: HookState,
    h: Hotkey,
    down: bool,
    up: bool,
    vk: u32,
    t: u64,
) -> (HookState, TriggerAction) {
    if up {
        (if vk == h.vk {
            HookState { trigger_held: false, ..s }
        } else {
            s
        }, no_action())
    } else if !down {
        (s, no_action())
    } else if vk != h.vk {
        (HookState { last_tap_ms: 0, ..s }, no_action())
    } else if s.trigger_held {
        (s, no_action())
    } else {
        let s1 = HookState { trigger_held: true, ..s };
        if !spec_mods_match(s1, h) {
            (HookState { last_tap_ms: 0, ..s1 }, no_action())
        } else if sat_sub(t, s1.last_trigger_ms) < COOLDOWN_MS {
            (s1, no_action())
        } else if h.taps <= 1 {
            (
                HookState { last_trigger_ms: t, last_tap_ms: 0, ..s1 },
                TriggerAction { consume: true, send: true },
            )
        } else if s1.last_tap_ms != 0 && sat_sub(t, s1.last_tap_ms) <= DOUBLE_TAP_MS {
            (
                HookState { last_tap_ms: 0, last_trigger_ms: t, ..s1 },
                TriggerAction { consume: false, send: true },
            )
        } else {
            (HookState { last_tap_ms: t, ..s1 }, no_action())
        }
    }
}

impl HookState {
    /// The state at start-up: nothing pressed, nothing pending.
    pub fn new() -> (r: HookState)
        ensures
            r == (HookState {
                last_tap_ms: 0,
                last_trigger_ms: 0,
                trigger_held: false,
                ctrl: false,
                alt: false,
                shift: false,
                win: false,
            }),
    {
        HookState {
            last_tap_ms: 0,
            last_trigger_ms: 0,
            trigger_held: false,
            ctrl: false,
            alt: false,
            shift: false,
            win: false,
        }
    }

    /// Forgets a pending first tap and a held key.
    pub fn reset_pending(&mut self)
        ensures
            *final(self) == spec_reset(*old(self)),
    {
        self.last_tap_ms = 0;
        self.trigger_held = false;
    }

    /// Records a modifier key going down or up; returns whether `vk` is a
    /// modifier.
    pub fn set_modifier(&mut self, vk: u32, down: bool) -> (r: bool)
        ensures
            (*final(self), r) == spec_set_modifier(*old(self), vk, down),
    {
        if vk == 0x11 || vk == 0xA2 || vk == 0xA3 {
            self.ctrl = down;
            true
        } else if vk == 0x12 || vk == 0xA4 || vk == 0xA5 {
            self.alt = down;
            true
        } else if vk == 0x10 || vk == 0xA0 || vk == 0xA1 {
            self.shift = down;
            true
        } else if vk == 0x5B || vk == 0x5C {
            self.win = down;
            true
        } else {
            false
        }
    }

    /// Whether the modifiers held are exactly those of the shortcut.
    pub fn mods_match(&self, hotkey: Hotkey) -> (r: bool)
        ensures
            r == spec_mods_match(*self, hotkey),
    {
        self.ctrl == hotkey.ctrl && self.alt == hotkey.alt && self.shift == hotkey.shift
            && self.win == hotkey.win
    }

    /// Handles a non-modifier key event at time `t` (ms).
    pub fn handle_trigger_at(&mut self, hotkey: Hotkey, down: bool, up: bool, vk: u32, t: u64) -> (r:
        TriggerAction)
        ensures
            (*final(self), r) == spec_handle(*old(self), hotkey, down, up, vk, t),
    {
        let none = TriggerAction { consume: false, send: false };
        if up {
            if vk == hotkey.vk {
                self.trigger_held = false;
            }
            return none;
        }
        if !down {
            return none;
        }
        if vk != hotkey.vk {
            self.last_tap_ms = 0;
            return none;
        }
        if self.trigger_held {
            return none;
        }
        self.trigger_held = true;
        if !self.mods_match(hotkey) {
            self.last_tap_ms = 0;
            return none;
        }
        let since_trigger = if t >= self.last_trigger_ms {
            t - self.last_trigger_ms
        } else {
            0
        };
        if since_trigger < COOLDOWN_MS {
            return none;
        }
        if hotkey.taps <= 1 {
            self.last_trigger_ms = t;
            self.last_tap_ms = 0;
            return TriggerAction { consume: true, send: true };
        }
        let last = self.last_tap_ms;
        let since_tap = if t >= last {
            t - last
        } else {
            0
        };
        if last != 0 && since_tap <= DOUBLE_TAP_MS {
            self.last_tap_ms = 0;
            self.last_trigger_ms = t;
            return TriggerAction { consume: false, send: true };
        }
        self.last_tap_ms = t;
        none
    }

    /// Handles a non-modifier key event now.
    pub fn handle_trigger(&mut self, hotkey: Hotkey, down: bool, up: bool, vk: u32) -> (r:
        TriggerAction)
        ensures
            exists|t: u64| (*final(self), r) == spec_handle(*old(self), hotkey, down, up, vk, t),
    {
        let t = now_ms();
        let r = self.handle_trigger_at(hotkey, down, up, vk, t);
        assert((*self, r) == spec_handle(*old(self), hotkey, down, up, vk, t));
        r
    }
}

/// A key-down message.
pub fn is_down_msg(message: u32) -> (r: bool)
    ensures
        r == (message == WM_KEYDOWN || message == WM_SYSKEYDOWN),
{
    message == WM_KEYDOWN || message == WM_SYSKEYDOWN
}

/// A key-up message.
pub fn is_up_msg(message: u32) -> (r: bool)
    ensures
        r == (message == WM_KEYUP || message == WM_SYSKEYUP),
{
    message == WM_KEYUP || message == WM_SYSKEYUP
}

/// A translation is only started when the cooldown since the previous one
/// has passed, and the time of the new one is remembered.
pub proof fn lemma_send_respects_cooldown(
    s: HookState,
    h: Hotkey,
    down: bool,
    up: bool,
    vk: u32,
    t: u64,
)
    ensures
        spec_handle(s, h, down, up, vk, t).1.send ==> sat_sub(t, s.last_trigger_ms) >= 600
            && spec_handle(s, h, down, up, vk, t).0.last_trigger_ms == t,
{
}

/// Holding the shortcut key down (auto-repeat) never starts a translation.
pub proof fn lemma_held_key_does_not_repeat(
    s: HookState,
    h: Hotkey,
    down: bool,
    up: bool,
    vk: u32,
    t: u64,
)
    requires
        s.trigger_held,
    ensures
        !spec_handle(s, h, down, up, vk, t).1.send,
{
}

/// With a double-tap shortcut, a first tap only arms the shortcut: it starts
/// nothing until a second tap follows within the double-tap window.
pub proof fn lemma_first_tap_only_arms(
    s: HookState,
    h: Hotkey,
    vk: u32,
    t: u64,
)
    requires
        h.taps >= 2,
        s.last_tap_ms == 0,
    ensures
        !spec_handle(s, h, true, false, vk, t).1.send,
{
}


/// Pressing a double-tap shortcut twice, with its modifiers held and the
/// second press within the double-tap window of the first, starts one
/// translation on the second press (and none on the first), once the
/// cooldown since the previous translation has passed.
pub proof fn lemma_double_tap_sends(s: HookState, h: Hotkey, t1: u64, t2: u64)
    requires
        h.taps >= 2,
        !s.trigger_held,
        s.last_tap_ms == 0,
        spec_mods_match(s, h),
        0 < t1 <= t2,
        t2 - t1 <= 500,
        sat_sub(t1, s.last_trigger_ms) >= 600,
    ensures
        ({
            let (s1, a1) = spec_handle(s, h, true, false, h.vk, t1);
            let (s2, a2) = spec_handle(s1, h, false, true, h.vk, t2);
            let (s3, a3) = spec_handle(s2, h, true, false, h.vk, t2);
            &&& !a1.send && !a2.send
            &&& a3.send && !a3.consume
            &&& s3.last_trigger_ms == t2
            &&& s3.last_tap_ms == 0
        }),
{
}

/// Pressing a single-tap shortcut with its modifiers held, once the
/// cooldown has passed, starts a translation and swallows the key press.
pub proof fn lemma_single_tap_sends(s: HookState, h: Hotkey, t: u64)
    requires
        h.taps <= 1,
        !s.trigger_held,
        spec_mods_match(s, h),
        sat_sub(t, s.last_trigger_ms) >= 600,
    ensures
        spec_handle(s, h, true, false, h.vk, t).1 == (TriggerAction { consume: true, send: true }),
{
}


/// One thing that reaches the keyboard watcher: a key event handled at time
/// `t` with the shortcut then in force, a modifier going down or up, or the
/// pending tap being cleared.
pub enum WatchEvent {
    Key { hotkey: Hotkey, down: bool, up: bool, vk: u32, t: u64 },
    Modifier { vk: u32, down: bool },
    Reset,
}

/// The state after one event, and the time of the translation it started,
/// if any.
pub open spec fn watch_step(s: HookState, e: WatchEvent) -> (HookState, Option<u64>) {
    match e {
        WatchEvent::Key { hotkey, down, up, vk, t } => {
            let (s2, a) = spec_handle(s, hotkey, down, up, vk, t);
            (s2, if a.send {
                Some(t)
            } else {
                None
            })
        },
        WatchEvent::Modifier { vk, down } => (spec_set_modifier(s, vk, down).0, None),
        WatchEvent::Reset => (spec_reset(s), None),
    }
}

/// The state after a sequence of events, and the times of the translations
/// they started, in order.
pub open spec fn watch_run(s: HookState, es: Seq<WatchEvent>) -> (HookState, Seq<u64>)
    decreases es.len(),
{
    if es.len() == 0 {
        (s, Seq::empty())
    } else {
        let (p, ts) = watch_run(s, es.drop_last());
        let (q, o) = watch_step(p, es.last());
        (q, match o {
            Some(t) => ts.push(t),
            None => ts,
        })
    }
}

/// Over any sequence of key events, modifier changes, resets and shortcut
/// changes, two translations are started at least the cooldown apart, and
/// the first at least the cooldown after the last one before the sequence.
pub proof fn lemma_sends_keep_cooldown(s: HookState, es: Seq<WatchEvent>)
    ensures
        ({
            let (q, ts) = watch_run(s, es);
            &&& forall|i: int, j: int| 0 <= i < j < ts.len() ==> #[trigger] ts[i] + 600 <= #[trigger] ts[j]
            &&& forall|i: int| 0 <= i < ts.len() ==> s.last_trigger_ms + 600 <= #[trigger] ts[i]
            &&& q.last_trigger_ms == if ts.len() > 0 {
                ts.last()
            } else {
                s.last_trigger_ms
            }
            &&& ts.len() > 0 ==> forall|i: int| 0 <= i < ts.len() ==> #[trigger] ts[i] <= ts.last()
        }),
    decreases es.len(),
{
    if es.len() > 0 {
        lemma_sends_keep_cooldown(s, es.drop_last());
        let (p, ts) = watch_run(s, es.drop_last());
        let (q, o) = watch_step(p, es.last());
        if let Some(t) = o {
            let ts2 = ts.push(t);
            assert(sat_sub(t, p.last_trigger_ms) >= 600);
            assert forall|i: int, j: int| 0 <= i < j < ts2.len() implies #[trigger] ts2[i] + 600 <= #[trigger] ts2[j] by {
                if j < ts.len() {
                    assert(ts2[i] == ts[i] && ts2[j] == ts[j]);
                } else {
                    assert(ts2[i] == ts[i]);
                }
            }
            assert forall|i: int| 0 <= i < ts2.len() implies s.last_trigger_ms + 600 <= #[trigger] ts2[i] by {
                if i < ts.len() {
                    assert(ts2[i] == ts[i]);
                }
            }
            assert forall|i: int| 0 <= i < ts2.len() implies #[trigger] ts2[i] <= ts2.last() by {
                if i < ts.len() {
                    assert(ts2[i] == ts[i]);
                }
            }
        }
    }
}


/// A key event starts a translation only when it is the shortcut key going
/// down, the key was not already held, and the modifiers held are exactly
/// the shortcut's (Ctrl, Alt, Shift and Win each down exactly when the
/// shortcut has it); the key press is swallowed only when a translation
/// starts. The shortcut key pressed with other modifiers also disarms a
/// pending first tap.
pub proof fn lemma_send_needs_exact_modifiers(
    s: HookState,
    h: Hotkey,
    down: bool,
    up: bool,
    vk: u32,
    t: u64,
)
    ensures
        spec_handle(s, h, down, up, vk, t).1.send ==> {
            &&& down && !up && vk == h.vk && !s.trigger_held
            &&& s.ctrl == h.ctrl
            &&& s.alt == h.alt
            &&& s.shift == h.shift
            &&& s.win == h.win
        },
        spec_handle(s, h, down, up, vk, t).1.consume ==> spec_handle(s, h, down, up, vk, t).1.send,
        ((s.ctrl != h.ctrl || s.alt != h.alt || s.shift != h.shift || s.win != h.win) && down && !up
            && vk == h.vk && !s.trigger_held) ==> {
            &&& spec_handle(s, h, down, up, vk, t).0.last_tap_ms == 0
            &&& spec_handle(s, h, down, up, vk, t).0.last_trigger_ms == s.last_trigger_ms
        },
{
}

} // verus!
