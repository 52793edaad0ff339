//! Which global action a key press stands for.
use vstd::prelude::*;

use crate::commands::{AppCommand, AppCommandView, command_view};
use crate::models::{HotkeyConfig, HotkeyConfigView};
use crate::text::same_text;

verus! {

/// The command a press of `key` triggers; the bindings are tried in the order
/// record, play/stop, pause, emergency stop.
pub open spec fn hotkey_command(key: Seq<char>, hotkeys: HotkeyConfigView) -> Option<
    AppCommandView,
> {
    if key == hotkeys.record {
        Some(AppCommandView::StartRecording)
    } else if key == hotkeys.play_stop {
        Some(AppCommandView::TogglePlay)
    } else if key == hotkeys.pause {
        Some(AppCommandView::TogglePause)
    } else if key == hotkeys.emergency_stop {
        Some(AppCommandView::EmergencyStop)
    } else {
        None
    }
}

/// Whether `key` is bound to one of the four actions.
pub open spec fn is_bound_key(key: Seq<char>, hotkeys: HotkeyConfigView) -> bool {
    key == hotkeys.record || key == hotkeys.play_stop || key == hotkeys.pause || key
        == hotkeys.emergency_stop
}

/// The command that a press of `key` triggers, if it is a hotkey.
pub fn command_for_key_press(key: &str, hotkeys: &HotkeyConfig) -> (command: Option<AppCommand>)
    ensures
        command_view(command) == hotkey_command(key@, hotkeys@),
{
    if same_text(key, hotkeys.record.as_str()) {
        Some(AppCommand::StartRecording)
    } else if same_text(key, hotkeys.play_stop.as_str()) {
        Some(AppCommand::TogglePlay)
    } else if same_text(key, hotkeys.pause.as_str()) {
        Some(AppCommand::TogglePause)
    } else if same_text(key, hotkeys.emergency_stop.as_str()) {
        Some(AppCommand::EmergencyStop)
    } else {
        None
    }
}

/// Whether `key` is bound to one of the four actions.
pub fn is_hotkey(key: &str, hotkeys: &HotkeyConfig) -> (bound: bool)
    ensures
        bound == is_bound_key(key@, hotkeys@),
{
    same_text(key, hotkeys.record.as_str()) || same_text(key, hotkeys.play_stop.as_str())
        || same_text(key, hotkeys.pause.as_str()) || same_text(key, hotkeys.emergency_stop.as_str())
}

/// Law: a key triggers a command exactly when it is a hotkey.
pub proof fn lemma_command_iff_hotkey(key: Seq<char>, hotkeys: HotkeyConfigView)
    ensures
        hotkey_command(key, hotkeys) is Some <==> is_bound_key(key, hotkeys),
{
}

} // verus!
