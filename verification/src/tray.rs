//! The tray menu's messages and labels. The tray icon itself is the
//! program's part.

use vstd::prelude::*;

use crate::text::push_char;

verus! {

/// What the tray menu and the update worker tell the main loop.
pub enum TrayMessage {
    /// Flip the key remap.
    Toggle,
    /// Flip start at logon.
    ToggleStartup,
    /// Check for updates (from the menu).
    CheckUpdate,
    /// Download progress of an update, in percent.
    UpdateProgress(u64),
    /// The update work is over (restore the tooltip).
    UpdateFinished,
    /// Quit.
    Quit,
}

/// Resource name of the icon shown while remapping is on.
pub const ICON_ON: &'static str = "icon_on";
/// Resource name of the icon shown while remapping is off.
pub const ICON_OFF: &'static str = "icon_off";

/// The icon for the remap setting.
pub fn icon_for(enabled: bool) -> (r: &'static str)
    ensures
        r@ == (if enabled {
            ICON_ON@
        } else {
            ICON_OFF@
        }),
{
    if enabled {
        ICON_ON
    } else {
        ICON_OFF
    }
}

/// The mark in front of a label that is on: `✔` and a space.
pub open spec fn mark_on() -> Seq<char> {
    seq!['\u{2714}', ' ']
}

/// The mark in front of a label that is off: an ideographic space (as
/// wide as `✔`) and a space, so the labels line up.
pub open spec fn mark_off() -> Seq<char> {
    seq!['\u{3000}', ' ']
}

/// A menu label with its on/off mark in front.
pub fn labeled(text: &str, checked: bool) -> (r: String)
    ensures
        r@ == (if checked {
            mark_on()
        } else {
            mark_off()
        }) + text@,
{
    let mut s = String::new();
    if checked {
        push_char(&mut s, '\u{2714}');
    } else {
        push_char(&mut s, '\u{3000}');
    }
    push_char(&mut s, ' ');
    s.append(text);
    s
}


/// What the main loop does with a message.
pub enum LoopAction {
    /// Flip the key remap and update the icon and the menu.
    FlipRemap,
    /// Flip start at logon and update the menu.
    FlipStartup,
    /// Start an update run on a thread of its own (`manual`: from the menu).
    StartUpdate { manual: bool },
    /// Show the download progress in the tooltip.
    ShowProgress(u64),
    /// Restore the tooltip.
    ClearProgress,
    /// Wait for a running update to finish, then quit.
    WaitAndQuit,
}

/// The main loop's answer to each message: only the menu's check starts
/// an update run (from the menu); the others do not reach the network.
pub open spec fn loop_action_of(msg: TrayMessage) -> LoopAction {
    match msg {
        TrayMessage::Toggle => LoopAction::FlipRemap,
        TrayMessage::ToggleStartup => LoopAction::FlipStartup,
        TrayMessage::CheckUpdate => LoopAction::StartUpdate { manual: true },
        TrayMessage::UpdateProgress(p) => LoopAction::ShowProgress(p),
        TrayMessage::UpdateFinished => LoopAction::ClearProgress,
        TrayMessage::Quit => LoopAction::WaitAndQuit,
    }
}

/// What the main loop does with `msg`.
pub fn loop_action(msg: &TrayMessage) -> (r: LoopAction)
    ensures
        r == loop_action_of(*msg),
{
    match msg {
        TrayMessage::Toggle => LoopAction::FlipRemap,
        TrayMessage::ToggleStartup => LoopAction::FlipStartup,
        TrayMessage::CheckUpdate => LoopAction::StartUpdate { manual: true },
        TrayMessage::UpdateProgress(p) => LoopAction::ShowProgress(*p),
        TrayMessage::UpdateFinished => LoopAction::ClearProgress,
        TrayMessage::Quit => LoopAction::WaitAndQuit,
    }
}

/// The update run started with the program: a startup run (not from the
/// menu) where the settings ask for it, none otherwise.
pub fn startup_update(check_on_startup: bool) -> (r: Option<bool>)
    ensures
        r == (if check_on_startup {
            Some(false)
        } else {
            None::<bool>
        }),
{
    if check_on_startup {
        Some(false)
    } else {
        None
    }
}

/// Update runs, the only work that reaches the network, start in two
/// places alone: at startup, where `check_on_startup` asks for it, and
/// from the menu's check. With `check_on_startup` off, only the menu does.
pub proof fn law_updates_start_only_at_startup_or_from_the_menu(msg: TrayMessage)
    ensures
        loop_action_of(msg) matches LoopAction::StartUpdate { manual } ==> manual && msg
            is CheckUpdate,
        msg is CheckUpdate ==> loop_action_of(msg) == (LoopAction::StartUpdate { manual: true }),
{
}

} // verus!
