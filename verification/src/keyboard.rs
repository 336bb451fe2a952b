//! The key-remap rules: `Ctrl+B` becomes `Ctrl+Shift+V` while Excel is in
//! front and remapping is on; everything else passes.
//!
//! The Windows hook that feeds these rules, and the `SendInput` call that
//! plays the strokes, belong to the program.

use vstd::prelude::*;

use crate::text::{after_last_any, after_last_any_exec, chars_of, eq_ignore_case, eq_ignore_case_exec};

verus! {

/// Marks input sent by this program (`dwExtraInfo`), so the hook can tell
/// it from the user's keys.
pub const EXTRA_INFO_SIGNATURE: usize = 0x0A7A_1A57;

/// Virtual key `B`.
pub const VK_B: u32 = 0x42;
/// Virtual key `V`.
pub const VK_V: u16 = 0x56;
/// Virtual key Shift.
pub const VK_SHIFT: u16 = 0x10;

pub const WM_KEYDOWN: u32 = 0x0100;
pub const WM_KEYUP: u32 = 0x0101;
pub const WM_SYSKEYDOWN: u32 = 0x0104;
pub const WM_SYSKEYUP: u32 = 0x0105;

/// The remap switch and the press in progress.
///
/// `enabled` starts on and lives in memory only. `b_active` is set while a
/// remapped `B` is held, so that auto-repeat sends the paste once and the
/// release of that `B` is swallowed too.
pub struct KeyHook {
    pub enabled: bool,
    pub b_active: bool,
}

/// One event that the low-level keyboard hook received.
pub struct KeyEvent {
    /// The hook code; below zero the event is not to be handled.
    pub code: i32,
    /// `WM_KEYDOWN`, `WM_KEYUP`, `WM_SYSKEYDOWN` or `WM_SYSKEYUP`.
    pub message: u32,
    /// `LLKHF_INJECTED` was set.
    pub injected: bool,
    /// The event's `dwExtraInfo`.
    pub extra_info: usize,
    /// The virtual key.
    pub vk_code: u32,
    /// Ctrl is down and Shift, Alt and both Windows keys are up.
    pub ctrl_only: bool,
}

/// What the hook does with an event.
#[derive(Debug, Clone, Copy, PartialEq, Eq)]
pub enum KeyAction {
    /// Hand the event on to the next hook.
    Pass,
    /// Swallow the event.
    Swallow,
    /// Send `Ctrl+Shift+V`, then swallow the event.
    SendPasteAndSwallow,
}

/// One key press or release to send.
#[derive(Debug, Clone, Copy, PartialEq, Eq)]
pub struct KeyStroke {
    pub vk: u16,
    pub up: bool,
}

pub open spec fn is_key_down(message: u32) -> bool {
    message == WM_KEYDOWN || message == WM_SYSKEYDOWN
}

pub open spec fn is_key_up(message: u32) -> bool {
    message == WM_KEYUP || message == WM_SYSKEYUP
}

/// An event that the remap looks at: handled, from the user (neither
/// injected nor sent by this program), and for the key `B`.
pub open spec fn is_users_b(ev: KeyEvent) -> bool {
    ev.code >= 0 && !ev.injected && ev.extra_info != EXTRA_INFO_SIGNATURE && ev.vk_code == VK_B
}

/// A press of `B` that asks for the remap, provided Excel is in front.
pub open spec fn asks_for_remap(hook: KeyHook, ev: KeyEvent) -> bool {
    is_users_b(ev) && is_key_down(ev.message) && ev.ctrl_only && hook.enabled
}

/// The state after the switch is flipped.
pub open spec fn toggled(h: KeyHook) -> KeyHook {
    KeyHook { enabled: !h.enabled, b_active: h.b_active }
}

/// What the hook does with `ev`, and its next state.
pub open spec fn key_step(hook: KeyHook, ev: KeyEvent, excel_in_front: bool) -> (KeyAction, KeyHook) {
    if !is_users_b(ev) {
        (KeyAction::Pass, hook)
    } else if is_key_down(ev.message) {
        if ev.ctrl_only && hook.enabled && excel_in_front {
            if hook.b_active {
                (KeyAction::Swallow, hook)
            } else {
                (KeyAction::SendPasteAndSwallow, KeyHook { enabled: hook.enabled, b_active: true })
            }
        } else {
            (KeyAction::Pass, hook)
        }
    } else if is_key_up(ev.message) {
        if hook.b_active {
            (KeyAction::Swallow, KeyHook { enabled: hook.enabled, b_active: false })
        } else {
            (KeyAction::Pass, hook)
        }
    } else {
        (KeyAction::Pass, hook)
    }
}

impl KeyHook {
    /// Remapping on, no press in progress.
    pub fn new() -> (r: KeyHook)
        ensures
            r.enabled,
            !r.b_active,
    {
        KeyHook { enabled: true, b_active: false }
    }

    /// Whether remapping is on.
    pub fn is_enabled(&self) -> (r: bool)
        ensures
            r == self.enabled,
    {
        self.enabled
    }

    /// Turns remapping on or off.
    pub fn set_enabled(&mut self, value: bool)
        ensures
            final(self).enabled == value,
            final(self).b_active == old(self).b_active,
    {
        self.enabled = value;
    }

    /// Flips remapping and returns the new setting.
    pub fn toggle(&mut self) -> (r: bool)
        ensures
            *final(self) == toggled(*old(self)),
            r == final(self).enabled,
    {
        self.enabled = !self.enabled;
        self.enabled
    }

    /// Whether the hook must find out if Excel is in front to decide on
    /// `ev` (the check is costly, so it is made only then).
    pub fn wants_foreground_check(&self, ev: &KeyEvent) -> (r: bool)
        ensures
            r == asks_for_remap(*self, *ev),
    {
        ev.code >= 0 && !ev.injected && ev.extra_info != EXTRA_INFO_SIGNATURE && ev.vk_code == VK_B
            && (ev.message == WM_KEYDOWN || ev.message == WM_SYSKEYDOWN) && ev.ctrl_only
            && self.enabled
    }

    /// Decides on one hook event. `excel_in_front` only matters where
    /// [`KeyHook::wants_foreground_check`] holds.
    pub fn handle(&mut self, ev: &KeyEvent, excel_in_front: bool) -> (r: KeyAction)
        ensures
            (r, *final(self)) == key_step(*old(self), *ev, excel_in_front),
    {
        let users_b = ev.code >= 0 && !ev.injected && ev.extra_info != EXTRA_INFO_SIGNATURE
            && ev.vk_code == VK_B;
        if !users_b {
            return KeyAction::Pass;
        }
        if ev.message == WM_KEYDOWN || ev.message == WM_SYSKEYDOWN {
            if ev.ctrl_only && self.enabled && excel_in_front {
                if self.b_active {
                    KeyAction::Swallow
                } else {
                    self.b_active = true;
                    KeyAction::SendPasteAndSwallow
                }
            } else {
                KeyAction::Pass
            }
        } else if ev.message == WM_KEYUP || ev.message == WM_SYSKEYUP {
            if self.b_active {
                self.b_active = false;
                KeyAction::Swallow
            } else {
                KeyAction::Pass
            }
        } else {
            KeyAction::Pass
        }
    }
}

/// Ctrl alone: Ctrl down, Shift, Alt and both Windows keys up.
pub fn ctrl_only(ctrl: bool, shift: bool, alt: bool, lwin: bool, rwin: bool) -> (r: bool)
    ensures
        r == (ctrl && !shift && !alt && !lwin && !rwin),
{
    ctrl && !shift && !alt && !lwin && !rwin
}

/// The strokes that make `Ctrl+Shift+V` while Ctrl is held by hand:
/// Shift down, V down, V up, Shift up.
pub fn ctrl_shift_v_strokes() -> (r: Vec<KeyStroke>)
    ensures
        r@ == seq![
            KeyStroke { vk: VK_SHIFT, up: false },
            KeyStroke { vk: VK_V, up: false },
            KeyStroke { vk: VK_V, up: true },
            KeyStroke { vk: VK_SHIFT, up: true },
        ],
{
    let mut r: Vec<KeyStroke> = Vec::new();
    r.push(KeyStroke { vk: VK_SHIFT, up: false });
    r.push(KeyStroke { vk: VK_V, up: false });
    r.push(KeyStroke { vk: VK_V, up: true });
    r.push(KeyStroke { vk: VK_SHIFT, up: true });
    r
}

/// Whether a process image path names Excel: its file name (after the last
/// `\` or `/`) is `EXCEL.EXE` in any case.
pub open spec fn names_excel(full_path: Seq<char>) -> bool {
    eq_ignore_case(after_last_any(full_path, seq!['\\', '/']), "EXCEL.EXE"@)
}

/// Whether the image path of the foreground process is Excel's.
pub fn is_excel_image_path(full_path: &str) -> (r: bool)
    ensures
        r == names_excel(full_path@),
{
    let path = chars_of(full_path);
    let seps = ['\\', '/'];
    assert(seps@ == seq!['\\', '/']);
    let file_name = after_last_any_exec(&path, &seps);
    let excel = chars_of("EXCEL.EXE");
    eq_ignore_case_exec(&file_name, &excel)
}

// ---------------------------------------------------------------------------
// Laws
// ---------------------------------------------------------------------------

/// Flipping the switch twice restores the state.
pub proof fn law_toggle_twice(h: KeyHook)
    ensures
        toggled(toggled(h)) == h,
{
}

/// Holding the key: a press that comes while a remapped press is held is
/// swallowed without sending again, so auto-repeat pastes once.
pub proof fn law_auto_repeat_sends_once(h: KeyHook, ev: KeyEvent, excel: bool)
    requires
        h.b_active,
    ensures
        key_step(h, ev, excel).0 != KeyAction::SendPasteAndSwallow,
{
}

/// The release of a remapped `B` is swallowed too, and ends the press.
pub proof fn law_release_after_remap_is_swallowed(h: KeyHook, down: KeyEvent, up: KeyEvent)
    requires
        asks_for_remap(h, down),
        is_users_b(up),
        is_key_up(up.message),
    ensures
        ({
            let h1 = key_step(h, down, true).1;
            let (a2, h2) = key_step(h1, up, true);
            a2 == KeyAction::Swallow && !h2.b_active
        }),
{
}

/// Input that this program sent, injected input, other keys, and events
/// with a negative hook code always pass and change nothing.
pub proof fn law_foreign_input_passes(h: KeyHook, ev: KeyEvent, excel: bool)
    requires
        !is_users_b(ev),
    ensures
        key_step(h, ev, excel) == (KeyAction::Pass, h),
{
}

/// With remapping off, no event is remapped.
pub proof fn law_off_never_sends(h: KeyHook, ev: KeyEvent, excel: bool)
    requires
        !h.enabled,
    ensures
        key_step(h, ev, excel).0 != KeyAction::SendPasteAndSwallow,
{
}

/// Outside Excel, `Ctrl+B` is never remapped, and a press that no remap is
/// holding passes through as it is.
pub proof fn law_only_in_excel(h: KeyHook, ev: KeyEvent)
    ensures
        key_step(h, ev, false).0 != KeyAction::SendPasteAndSwallow,
        !h.b_active ==> key_step(h, ev, false) == (KeyAction::Pass, h),
{
}


/// The foreground check is skipped only where it cannot change the
/// outcome: deciding with "Excel in front" asked only when
/// [`KeyHook::wants_foreground_check`] holds gives the same action and
/// state as deciding with the true answer, for every hook and event.
/// In particular, with Excel in front and remapping on, a user's `Ctrl+B`
/// press is never passed on to Excel, whether it is the first press (it
/// is remapped) or an auto-repeat of a held one (it is swallowed).
pub proof fn law_foreground_check_covers_every_remap_press(h: KeyHook, ev: KeyEvent, excel: bool)
    ensures
        key_step(h, ev, asks_for_remap(h, ev) && excel) == key_step(h, ev, excel),
        is_users_b(ev) && is_key_down(ev.message) && ev.ctrl_only && h.enabled ==> key_step(
            h,
            ev,
            asks_for_remap(h, ev) && true,
        ).0 != KeyAction::Pass,
        is_users_b(ev) && is_key_down(ev.message) && ev.ctrl_only && h.enabled && h.b_active
            ==> key_step(h, ev, asks_for_remap(h, ev) && true) == (KeyAction::Swallow, h),
{
}

} // verus!
