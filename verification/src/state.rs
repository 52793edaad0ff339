//! The application state machine: the macro library, the recording buffer,
//! the playback status and the hotkey settings, driven by commands.
//!
//! Work that leaves the process (writing files, signalling the playback task,
//! telling the input recorder what to do, starting a playback) is not done
//! here: each operation appends the [`AppEffect`]s it asks for to
//! `AppState::effects`, in the order it asks for them, and the caller carries
//! them out.
use vstd::prelude::*;

use crate::commands::{AppCommand, AppCommandView};
use crate::hotkeys::{command_for_key_press, hotkey_command, is_bound_key, is_hotkey};
use crate::models::{
    Config, ConfigView, EventKind, EventKindView, HotkeyConfig, HotkeyConfigView, InputEvent,
    InputEventView, MacroFile, MacroFileView, MACRO_FORMAT_VERSION, clone_events, events_view,
    is_random_uuid_text, new_macro_id,
};
use crate::scheduler::LoopMode;
use crate::ui::{loop_label, spec_loop_label};
use crate::text::{
    push_text, push_unsigned, digits, same_text, sanitize_file_name, sanitized_file_name, trim,
    trimmed,
};

verus! {

/// What the application is doing.
#[derive(Debug, PartialEq, Eq)]
pub enum AppStatus {
    Idle,
    Recording,
    Playing,
    Paused,
    Error(String),
}

/// The view of an [`AppStatus`].
pub enum AppStatusView {
    Idle,
    Recording,
    Playing,
    Paused,
    Error(Seq<char>),
}

impl View for AppStatus {
    type V = AppStatusView;

    open spec fn view(&self) -> AppStatusView {
        match self {
            AppStatus::Idle => AppStatusView::Idle,
            AppStatus::Recording => AppStatusView::Recording,
            AppStatus::Playing => AppStatusView::Playing,
            AppStatus::Paused => AppStatusView::Paused,
            AppStatus::Error(m) => AppStatusView::Error(m@),
        }
    }
}

impl Clone for AppStatus {
    fn clone(&self) -> (copy: Self)
        ensures
            copy@ == self@,
    {
        match self {
            AppStatus::Idle => AppStatus::Idle,
            AppStatus::Recording => AppStatus::Recording,
            AppStatus::Playing => AppStatus::Playing,
            AppStatus::Paused => AppStatus::Paused,
            AppStatus::Error(m) => AppStatus::Error(m.clone()),
        }
    }
}

/// Work outside the state that an operation asks the caller to carry out.
#[derive(Debug)]
pub enum AppEffect {
    /// Write the macro file; when that fails and a context is given, report
    /// the failure with [`AppState::report_failure`] under that context.
    SaveMacro { macro_file: MacroFile, failure_context: Option<String> },
    /// Write the settings file; report a failure under `Could not save config`.
    SaveConfig(Config),
    /// Set the flag that tells a running playback to stop.
    SetStopFlag(bool),
    /// Tell a running playback to pause (`true`) or to go on (`false`).
    SetPaused(bool),
    /// Set the flag that says whether a playback is running.
    SetPlayingFlag(bool),
    /// Tell the input recorder that recording starts now.
    BeginRecording,
    /// Tell the input recorder that recording has ended.
    EndRecording,
    /// Give the input recorder the current hotkeys.
    SetRecorderHotkeys(HotkeyConfig),
    /// Tell the input recorder which action, if any, is being rebound.
    SetRecorderRebinding(Option<String>),
    /// Start playing `events`; report completion with
    /// `AppCommand::PlaybackCompleteFor(generation)`.
    StartPlayback { events: Vec<InputEvent>, loop_mode: LoopMode, speed_percent: u32, generation: u64 },
}

/// The view of an [`AppEffect`].
pub enum AppEffectView {
    SaveMacro { macro_file: MacroFileView, failure_context: Option<Seq<char>> },
    SaveConfig(ConfigView),
    SetStopFlag(bool),
    SetPaused(bool),
    SetPlayingFlag(bool),
    BeginRecording,
    EndRecording,
    SetRecorderHotkeys(HotkeyConfigView),
    SetRecorderRebinding(Option<Seq<char>>),
    StartPlayback {
        events: Seq<InputEventView>,
        loop_mode: LoopMode,
        speed_percent: u32,
        generation: u64,
    },
}

/// The view of an optional string.
pub open spec fn opt_text(o: Option<String>) -> Option<Seq<char>> {
    match o {
        Some(s) => Some(s@),
        None => None,
    }
}

impl View for AppEffect {
    type V = AppEffectView;

    open spec fn view(&self) -> AppEffectView {
        match self {
            AppEffect::SaveMacro { macro_file, failure_context } => AppEffectView::SaveMacro {
                macro_file: macro_file@,
                failure_context: opt_text(*failure_context),
            },
            AppEffect::SaveConfig(c) => AppEffectView::SaveConfig(c@),
            AppEffect::SetStopFlag(b) => AppEffectView::SetStopFlag(*b),
            AppEffect::SetPaused(b) => AppEffectView::SetPaused(*b),
            AppEffect::SetPlayingFlag(b) => AppEffectView::SetPlayingFlag(*b),
            AppEffect::BeginRecording => AppEffectView::BeginRecording,
            AppEffect::EndRecording => AppEffectView::EndRecording,
            AppEffect::SetRecorderHotkeys(h) => AppEffectView::SetRecorderHotkeys(h@),
            AppEffect::SetRecorderRebinding(a) => AppEffectView::SetRecorderRebinding(opt_text(*a)),
            AppEffect::StartPlayback { events, loop_mode, speed_percent, generation } =>
                AppEffectView::StartPlayback {
                events: events_view(events@),
                loop_mode: *loop_mode,
                speed_percent: *speed_percent,
                generation: *generation,
            },
        }
    }
}

/// The views of a list of macros.
pub open spec fn macros_view(macros: Seq<MacroFile>) -> Seq<MacroFileView> {
    macros.map_values(|m: MacroFile| m@)
}

/// The views of a list of effects.
pub open spec fn effects_view(effects: Seq<AppEffect>) -> Seq<AppEffectView> {
    effects.map_values(|e: AppEffect| e@)
}

/// The state of the application. `speed_percent` is the playback speed in
/// hundredths of real time (25, 50, 100, 200 or 400).
pub struct AppState {
    pub macros: Vec<MacroFile>,
    pub selected_macro_index: Option<usize>,
    pub status: AppStatus,
    pub recording_buffer: Vec<InputEvent>,
    pub loop_mode: LoopMode,
    pub speed_percent: u32,
    pub config: Config,
    pub show_settings: bool,
    pub rebinding_action: Option<String>,
    pub duplicate_hotkey_warning: Option<String>,
    pub delete_confirm_index: Option<usize>,
    pub rename_index: Option<usize>,
    pub rename_buffer: String,
    pub loop_count_buffer: String,
    pub compact_mode: bool,
    pub positioned: bool,
    pub playback_total_events: usize,
    pub playback_generation: u64,
    pub last_error: Option<String>,
    pub effects: Vec<AppEffect>,
}

/// The view of an [`AppState`].
#[verifier::ext_equal]
pub struct AppStateView {
    pub macros: Seq<MacroFileView>,
    pub selected_macro_index: Option<usize>,
    pub status: AppStatusView,
    pub recording_buffer: Seq<InputEventView>,
    pub loop_mode: LoopMode,
    pub speed_percent: u32,
    pub config: ConfigView,
    pub show_settings: bool,
    pub rebinding_action: Option<Seq<char>>,
    pub duplicate_hotkey_warning: Option<Seq<char>>,
    pub delete_confirm_index: Option<usize>,
    pub rename_index: Option<usize>,
    pub rename_buffer: Seq<char>,
    pub loop_count_buffer: Seq<char>,
    pub compact_mode: bool,
    pub positioned: bool,
    pub playback_total_events: usize,
    pub playback_generation: u64,
    pub last_error: Option<Seq<char>>,
    pub effects: Seq<AppEffectView>,
}

impl View for AppState {
    type V = AppStateView;

    open spec fn view(&self) -> AppStateView {
        AppStateView {
            macros: macros_view(self.macros@),
            selected_macro_index: self.selected_macro_index,
            status: self.status@,
            recording_buffer: events_view(self.recording_buffer@),
            loop_mode: self.loop_mode,
            speed_percent: self.speed_percent,
            config: self.config@,
            show_settings: self.show_settings,
            rebinding_action: opt_text(self.rebinding_action),
            duplicate_hotkey_warning: opt_text(self.duplicate_hotkey_warning),
            delete_confirm_index: self.delete_confirm_index,
            rename_index: self.rename_index,
            rename_buffer: self.rename_buffer@,
            loop_count_buffer: self.loop_count_buffer@,
            compact_mode: self.compact_mode,
            positioned: self.positioned,
            playback_total_events: self.playback_total_events,
            playback_generation: self.playback_generation,
            last_error: opt_text(self.last_error),
            effects: effects_view(self.effects@),
        }
    }
}

// ---------------------------------------------------------------------------
// The transitions, stated over views.
// ---------------------------------------------------------------------------

/// `v` with one more effect asked for.
pub open spec fn emit(v: AppStateView, e: AppEffectView) -> AppStateView {
    AppStateView { effects: v.effects.push(e), ..v }
}

/// `v` after a failure described by `message`.
pub open spec fn with_error(v: AppStateView, message: Seq<char>) -> AppStateView {
    AppStateView { last_error: Some(message), status: AppStatusView::Error(message), ..v }
}

/// Whether the status is `Recording`.
pub open spec fn spec_is_recording(v: AppStateView) -> bool {
    v.status is Recording
}

/// Whether the status is `Playing` or `Paused`.
pub open spec fn spec_is_playing_or_paused(v: AppStateView) -> bool {
    v.status is Playing || v.status is Paused
}

/// Whether the status is `Recording`, `Playing` or `Paused`.
pub open spec fn spec_is_busy(v: AppStateView) -> bool {
    v.status is Recording || v.status is Playing || v.status is Paused
}

/// The selected macro, when the selection points into the library.
pub open spec fn spec_selected(v: AppStateView) -> Option<MacroFileView> {
    match v.selected_macro_index {
        Some(i) => if i < v.macros.len() {
            Some(v.macros[i as int])
        } else {
            None
        },
        None => None,
    }
}

/// The events the timeline shows: the recording buffer while recording,
/// otherwise the selected macro's events, or none.
pub open spec fn spec_selected_events(v: AppStateView) -> Seq<InputEventView> {
    if spec_is_recording(v) {
        v.recording_buffer
    } else {
        match spec_selected(v) {
            Some(m) => m.events,
            None => Seq::empty(),
        }
    }
}

/// `v` with no rename or delete confirmation open.
pub open spec fn spec_cancel_inline_states(v: AppStateView) -> AppStateView {
    AppStateView { rename_index: None, delete_confirm_index: None, ..v }
}

/// `v` after starting (or, with `None`, ending) the rebinding of an action.
pub open spec fn spec_set_rebinding_action(
    v: AppStateView,
    action: Option<Seq<char>>,
) -> AppStateView {
    emit(
        AppStateView { rebinding_action: action, duplicate_hotkey_warning: None, ..v },
        AppEffectView::SetRecorderRebinding(action),
    )
}

/// `v` after asking for the settings to be written and handing the hotkeys to the recorder.
pub open spec fn spec_save_config(v: AppStateView) -> AppStateView {
    emit(
        emit(v, AppEffectView::SaveConfig(v.config)),
        AppEffectView::SetRecorderHotkeys(v.config.hotkeys),
    )
}

/// The macro that `create_macro` adds under a fresh identifier `id`.
pub open spec fn untitled_macro(id: Seq<char>) -> MacroFileView {
    MacroFileView {
        id,
        name: "Untitled"@,
        version: MACRO_FORMAT_VERSION,
        events: Seq::empty(),
    }
}

/// `v` after opening the rename field of macro `index`, when it exists.
pub open spec fn spec_start_rename(v: AppStateView, index: usize) -> AppStateView {
    if index < v.macros.len() {
        AppStateView {
            rename_index: Some(index),
            rename_buffer: v.macros[index as int].name,
            delete_confirm_index: None,
            ..v
        }
    } else {
        v
    }
}

/// `v` after adding a new untitled macro with identifier `id`, selecting it and
/// opening its rename field; a failure to save it is reported under `context`.
pub open spec fn spec_create_macro(
    v: AppStateView,
    id: Seq<char>,
    context: Option<Seq<char>>,
) -> AppStateView {
    let m = untitled_macro(id);
    let w = AppStateView {
        macros: v.macros.push(m),
        selected_macro_index: Some(v.macros.len() as usize),
        effects: v.effects.push(AppEffectView::SaveMacro { macro_file: m, failure_context: context }),
        ..v
    };
    spec_start_rename(w, v.macros.len() as usize)
}

/// An event list shifted so that it starts at time 0: each timestamp less the
/// first one, stopping at 0.
pub open spec fn dead_time_trimmed(events: Seq<InputEventView>) -> Seq<InputEventView> {
    if events.len() == 0 {
        events
    } else {
        events.map_values(
            |e: InputEventView|
                InputEventView {
                    timestamp_ms: if e.timestamp_ms >= events[0].timestamp_ms {
                        (e.timestamp_ms - events[0].timestamp_ms) as u64
                    } else {
                        0
                    },
                    kind: e.kind,
                },
        )
    }
}

/// `v` after a recording ends: the trimmed recording replaces the events of
/// the selected macro, which is saved, and the status returns to `Idle`.
pub open spec fn spec_stop_recording(v: AppStateView) -> AppStateView {
    if !spec_is_recording(v) {
        v
    } else {
        let events = dead_time_trimmed(v.recording_buffer);
        let w = match v.selected_macro_index {
            Some(i) => if i < v.macros.len() {
                let m = MacroFileView { events, ..v.macros[i as int] };
                AppStateView {
                    macros: v.macros.update(i as int, m),
                    effects: v.effects.push(
                        AppEffectView::SaveMacro {
                            macro_file: m,
                            failure_context: Some("Could not save recording"@),
                        },
                    ),
                    ..v
                }
            } else {
                v
            },
            None => v,
        };
        emit(
            AppStateView { recording_buffer: Seq::empty(), status: AppStatusView::Idle, ..w },
            AppEffectView::EndRecording,
        )
    }
}

/// `v` after the record command: a running recording stops; while playing
/// nothing happens; otherwise a new recording starts, with an untitled macro
/// (identifier `id`) created first when the library is empty.
pub open spec fn spec_start_recording(v: AppStateView, id: Seq<char>) -> AppStateView {
    if spec_is_recording(v) {
        spec_stop_recording(v)
    } else if spec_is_playing_or_paused(v) {
        v
    } else {
        let w = if v.macros.len() == 0 {
            spec_create_macro(v, id, None)
        } else {
            v
        };
        AppStateView {
            recording_buffer: Seq::empty(),
            playback_total_events: 0,
            status: AppStatusView::Recording,
            last_error: None,
            effects: w.effects + seq![
                AppEffectView::SetStopFlag(false),
                AppEffectView::SetPaused(false),
                AppEffectView::BeginRecording,
            ],
            ..w
        }
    }
}

/// `g + 1`, wrapping to 0.
pub open spec fn next_generation(g: u64) -> u64 {
    if g == u64::MAX {
        0
    } else {
        (g + 1) as u64
    }
}

/// `v` after asking to play the selected macro: nothing happens without a
/// selected macro with events; otherwise playback starts under a new generation.
pub open spec fn spec_start_playback(v: AppStateView) -> AppStateView {
    match spec_selected(v) {
        None => v,
        Some(m) => if m.events.len() == 0 {
            v
        } else {
            let g = next_generation(v.playback_generation);
            AppStateView {
                playback_total_events: m.events.len() as usize,
                status: AppStatusView::Playing,
                playback_generation: g,
                effects: v.effects + seq![
                    AppEffectView::SetStopFlag(false),
                    AppEffectView::SetPaused(false),
                    AppEffectView::StartPlayback {
                        events: m.events,
                        loop_mode: v.loop_mode,
                        speed_percent: v.speed_percent,
                        generation: g,
                    },
                ],
                ..v
            }
        },
    }
}

/// `v` after the play/stop command.
pub open spec fn spec_toggle_play(v: AppStateView) -> AppStateView {
    match v.status {
        AppStatusView::Idle | AppStatusView::Error(_) => spec_start_playback(v),
        AppStatusView::Playing | AppStatusView::Paused => AppStateView {
            status: AppStatusView::Idle,
            effects: v.effects + seq![
                AppEffectView::SetStopFlag(true),
                AppEffectView::SetPaused(false),
            ],
            ..v
        },
        AppStatusView::Recording => v,
    }
}

/// `v` after the pause command.
pub open spec fn spec_toggle_pause(v: AppStateView) -> AppStateView {
    match v.status {
        AppStatusView::Playing => AppStateView {
            status: AppStatusView::Paused,
            effects: v.effects.push(AppEffectView::SetPaused(true)),
            ..v
        },
        AppStatusView::Paused => AppStateView {
            status: AppStatusView::Playing,
            effects: v.effects.push(AppEffectView::SetPaused(false)),
            ..v
        },
        _ => v,
    }
}

/// `v` after the emergency stop: playback and recording end, the status is
/// `Idle`, and rebinding, renaming and delete confirmation are cancelled.
pub open spec fn spec_emergency_stop(v: AppStateView) -> AppStateView {
    let w = AppStateView {
        status: AppStatusView::Idle,
        effects: v.effects + seq![
            AppEffectView::SetStopFlag(true),
            AppEffectView::SetPaused(false),
            AppEffectView::SetPlayingFlag(false),
            AppEffectView::EndRecording,
        ],
        ..v
    };
    spec_cancel_inline_states(spec_set_rebinding_action(w, None))
}

/// `v` after an event arrives: it joins the buffer while recording.
pub open spec fn spec_record_event(v: AppStateView, e: InputEventView) -> AppStateView {
    if spec_is_recording(v) {
        AppStateView { recording_buffer: v.recording_buffer.push(e), ..v }
    } else {
        v
    }
}

/// `v` after the playback of generation `g` reports that it has finished; a
/// report from an older playback changes nothing.
pub open spec fn spec_playback_complete_for(v: AppStateView, g: u64) -> AppStateView {
    if g == v.playback_generation {
        let w = emit(v, AppEffectView::SetPlayingFlag(false));
        if spec_is_playing_or_paused(w) {
            AppStateView { status: AppStatusView::Idle, ..w }
        } else {
            w
        }
    } else {
        v
    }
}

/// Whether `key` is a modifier key, which cannot serve as a hotkey.
pub open spec fn spec_is_modifier_key(key: Seq<char>) -> bool {
    key == "ShiftLeft"@ || key == "ShiftRight"@ || key == "ControlLeft"@ || key
        == "ControlRight"@ || key == "Alt"@ || key == "AltGr"@ || key == "MetaLeft"@ || key
        == "MetaRight"@ || key == "CapsLock"@
}

/// Whether an action other than `action` is already bound to `key`.
pub open spec fn spec_hotkey_duplicate(
    hotkeys: HotkeyConfigView,
    action: Seq<char>,
    key: Seq<char>,
) -> bool {
    ||| action != "record"@ && hotkeys.record == key
    ||| action != "play_stop"@ && hotkeys.play_stop == key
    ||| action != "pause"@ && hotkeys.pause == key
    ||| action != "emergency_stop"@ && hotkeys.emergency_stop == key
}

/// `hotkeys` with `action` bound to `key`; an unknown action changes nothing.
pub open spec fn rebound(
    hotkeys: HotkeyConfigView,
    action: Seq<char>,
    key: Seq<char>,
) -> HotkeyConfigView {
    if action == "record"@ {
        HotkeyConfigView { record: key, ..hotkeys }
    } else if action == "play_stop"@ {
        HotkeyConfigView { play_stop: key, ..hotkeys }
    } else if action == "pause"@ {
        HotkeyConfigView { pause: key, ..hotkeys }
    } else if action == "emergency_stop"@ {
        HotkeyConfigView { emergency_stop: key, ..hotkeys }
    } else {
        hotkeys
    }
}

/// `v` after `key` is pressed while an action is being rebound: Escape
/// cancels; a modifier or a key bound to another action is refused with a
/// warning; any other key becomes the action's hotkey and the settings are saved.
pub open spec fn spec_capture_rebind(v: AppStateView, key: Seq<char>) -> AppStateView {
    match v.rebinding_action {
        None => v,
        Some(action) => if key == "Escape"@ || key == "Esc"@ {
            spec_set_rebinding_action(v, None)
        } else if spec_is_modifier_key(key) {
            emit(
                AppStateView {
                    duplicate_hotkey_warning: Some("Modifier keys cannot be used as hotkeys"@),
                    ..v
                },
                AppEffectView::SetRecorderRebinding(Some(action)),
            )
        } else if spec_hotkey_duplicate(v.config.hotkeys, action, key) {
            emit(
                AppStateView { duplicate_hotkey_warning: Some(key + " is already assigned"@), ..v },
                AppEffectView::SetRecorderRebinding(Some(action)),
            )
        } else {
            let h = rebound(v.config.hotkeys, action, key);
            let w = emit(
                AppStateView { config: ConfigView { hotkeys: h, ..v.config }, ..v },
                AppEffectView::SetRecorderHotkeys(h),
            );
            spec_set_rebinding_action(spec_save_config(w), None)
        },
    }
}

/// `v` after `command`; `id` is the identifier a macro created on the way gets.
pub open spec fn spec_handle_command(
    v: AppStateView,
    command: AppCommandView,
    id: Seq<char>,
) -> AppStateView {
    match command {
        AppCommandView::StartRecording => spec_start_recording(v, id),
        AppCommandView::StopRecording => spec_stop_recording(v),
        AppCommandView::TogglePlay => spec_toggle_play(v),
        AppCommandView::TogglePause => spec_toggle_pause(v),
        AppCommandView::EmergencyStop => spec_emergency_stop(v),
        AppCommandView::RecordedEvent(e) => spec_record_event(v, e),
        AppCommandView::PlaybackCompleteFor(g) => spec_playback_complete_for(v, g),
        AppCommandView::RebindCapture(k) => spec_capture_rebind(v, k),
    }
}

/// Whether handling `command` in `v` creates a macro.
pub open spec fn command_creates_macro(v: AppStateView, command: AppCommandView) -> bool {
    command is StartRecording && !spec_is_recording(v) && !spec_is_playing_or_paused(v)
        && v.macros.len() == 0
}

/// `v` after a key press seen by the window: it goes to a running rebind, or
/// triggers its hotkey, or is recorded as a key-down at `timestamp` when a
/// recording is running and nothing is playing.
pub open spec fn spec_key_press(
    v: AppStateView,
    key: Seq<char>,
    timestamp: Option<u64>,
    id: Seq<char>,
) -> AppStateView {
    if v.rebinding_action is Some {
        spec_capture_rebind(v, key)
    } else {
        match hotkey_command(key, v.config.hotkeys) {
            Some(c) => spec_handle_command(v, c, id),
            None => if spec_is_playing_or_paused(v) {
                v
            } else {
                match timestamp {
                    None => v,
                    Some(t) => spec_record_event(
                        v,
                        InputEventView { timestamp_ms: t, kind: EventKindView::KeyDown { key } },
                    ),
                }
            },
        }
    }
}

/// `v` after a key release seen by the window: recorded as a key-up at
/// `timestamp` unless it is a hotkey, a rebind runs, or something is playing.
pub open spec fn spec_key_release(
    v: AppStateView,
    key: Seq<char>,
    timestamp: Option<u64>,
) -> AppStateView {
    if v.rebinding_action is Some || is_bound_key(key, v.config.hotkeys) {
        v
    } else if spec_is_playing_or_paused(v) {
        v
    } else {
        match timestamp {
            None => v,
            Some(t) => spec_record_event(
                v,
                InputEventView { timestamp_ms: t, kind: EventKindView::KeyUp { key } },
            ),
        }
    }
}

/// The selection after moving one macro back, wrapping from the first to the last.
pub open spec fn spec_select_previous(v: AppStateView) -> AppStateView {
    if v.macros.len() == 0 {
        AppStateView { selected_macro_index: None, ..v }
    } else {
        let current: usize = match v.selected_macro_index {
            Some(i) => i,
            None => 0,
        };
        spec_cancel_inline_states(
            AppStateView {
                selected_macro_index: Some(
                    if current == 0 {
                        (v.macros.len() - 1) as usize
                    } else {
                        (current - 1) as usize
                    },
                ),
                ..v
            },
        )
    }
}

/// The selection after moving one macro on, wrapping from the last to the first.
pub open spec fn spec_select_next(v: AppStateView) -> AppStateView {
    if v.macros.len() == 0 {
        AppStateView { selected_macro_index: None, ..v }
    } else {
        let current: usize = match v.selected_macro_index {
            Some(i) => i,
            None => 0,
        };
        spec_cancel_inline_states(
            AppStateView {
                selected_macro_index: Some(((current + 1) % (v.macros.len() as int)) as usize),
                ..v
            },
        )
    }
}

/// The name a rename commits: the trimmed text, or `Untitled` when nothing is left.
pub open spec fn committed_name(buffer: Seq<char>) -> Seq<char> {
    if trimmed(buffer).len() == 0 {
        "Untitled"@
    } else {
        trimmed(buffer)
    }
}

/// `v` after the rename field is committed.
pub open spec fn spec_commit_rename(v: AppStateView) -> AppStateView {
    match v.rename_index {
        None => v,
        Some(i) => {
            let w = if i < v.macros.len() {
                let m = MacroFileView { name: committed_name(v.rename_buffer), ..v.macros[i as int] };
                AppStateView {
                    macros: v.macros.update(i as int, m),
                    effects: v.effects.push(
                        AppEffectView::SaveMacro {
                            macro_file: m,
                            failure_context: Some("Could not rename macro"@),
                        },
                    ),
                    ..v
                }
            } else {
                v
            };
            AppStateView { rename_index: None, rename_buffer: Seq::empty(), ..w }
        },
    }
}

/// `v` after macro `index` is duplicated under the identifier `id`: the copy
/// is called `<name> (copy)`, has the same events, is saved and selected.
pub open spec fn spec_duplicate_macro(v: AppStateView, index: usize, id: Seq<char>) -> AppStateView {
    if index >= v.macros.len() {
        v
    } else {
        let m = MacroFileView {
            id,
            name: v.macros[index as int].name + " (copy)"@,
            version: MACRO_FORMAT_VERSION,
            events: v.macros[index as int].events,
        };
        AppStateView {
            macros: v.macros.push(m),
            selected_macro_index: Some(v.macros.len() as usize),
            effects: v.effects.push(
                AppEffectView::SaveMacro {
                    macro_file: m,
                    failure_context: Some("Could not duplicate macro"@),
                },
            ),
            ..v
        }
    }
}

/// The selection after the macro at `index` has been removed, leaving `remaining` macros.
pub open spec fn selection_after_removal(remaining: nat, index: usize) -> Option<usize> {
    if remaining == 0 {
        None
    } else if index >= remaining {
        Some((remaining - 1) as usize)
    } else {
        Some(index)
    }
}

/// `v` after deleting macro `index`, whose file removal failed with
/// `file_error` when that is given (the macro then stays).
pub open spec fn spec_delete_macro(
    v: AppStateView,
    index: usize,
    file_error: Option<Seq<char>>,
) -> AppStateView {
    if index >= v.macros.len() {
        v
    } else {
        match file_error {
            Some(e) => with_error(v, "Could not delete macro: "@ + e),
            None => {
                let rest = v.macros.remove(index as int);
                AppStateView {
                    macros: rest,
                    delete_confirm_index: None,
                    rename_index: None,
                    selected_macro_index: selection_after_removal(rest.len(), index),
                    ..v
                }
            },
        }
    }
}

/// Whether a macro in `macros` has the identifier `id`.
pub open spec fn id_taken(macros: Seq<MacroFileView>, id: Seq<char>) -> bool {
    exists|j: int| 0 <= j < macros.len() && #[trigger] macros[j].id == id
}

/// The macro that an import adds: as read, or under the fresh identifier
/// `id` when its own is already in the library.
pub open spec fn imported_macro(v: AppStateView, m: MacroFileView, id: Seq<char>) -> MacroFileView {
    if id_taken(v.macros, m.id) {
        MacroFileView { id, ..m }
    } else {
        m
    }
}

/// `v` after importing a macro file that was read as `parsed` (`None` when it
/// could not be read): a macro of the current format is added, saved and
/// selected; anything else is reported as an invalid file.
pub open spec fn spec_import_macro(
    v: AppStateView,
    parsed: Option<MacroFileView>,
    id: Seq<char>,
) -> AppStateView {
    match parsed {
        Some(m) => if m.version == MACRO_FORMAT_VERSION {
            let added = imported_macro(v, m, id);
            AppStateView {
                macros: v.macros.push(added),
                selected_macro_index: Some(v.macros.len() as usize),
                effects: v.effects.push(
                    AppEffectView::SaveMacro {
                        macro_file: added,
                        failure_context: Some("Could not save imported macro"@),
                    },
                ),
                ..v
            }
        } else {
            with_error(v, "Invalid macro file"@)
        },
        None => with_error(v, "Invalid macro file"@),
    }
}

/// `v` after asking to save the selected macro.
pub open spec fn spec_save_selected_macro(v: AppStateView) -> AppStateView {
    match spec_selected(v) {
        Some(m) => emit(
            v,
            AppEffectView::SaveMacro { macro_file: m, failure_context: Some("Could not save macro"@) },
        ),
        None => v,
    }
}

/// The key bound to the action called `action`, empty for an unknown action.
pub open spec fn spec_hotkey_value(hotkeys: HotkeyConfigView, action: Seq<char>) -> Seq<char> {
    if action == "record"@ {
        hotkeys.record
    } else if action == "play_stop"@ {
        hotkeys.play_stop
    } else if action == "pause"@ {
        hotkeys.pause
    } else if action == "emergency_stop"@ {
        hotkeys.emergency_stop
    } else {
        ""@
    }
}

/// The status line: `Idle`, `<n> events` while recording, `Playing`,
/// `Paused`, or the error message.
pub open spec fn spec_status_text(v: AppStateView) -> Seq<char> {
    match v.status {
        AppStatusView::Idle => "Idle"@,
        AppStatusView::Recording => digits(v.recording_buffer.len()) + " events"@,
        AppStatusView::Playing => "Playing"@,
        AppStatusView::Paused => "Paused"@,
        AppStatusView::Error(m) => m,
    }
}

/// The speed after the speed button: 25, 50, 100, 200 and 400 percent in a
/// ring; any other speed counts as 100 and goes to 200.
pub open spec fn next_speed(speed_percent: u32) -> u32 {
    if speed_percent == 25 {
        50
    } else if speed_percent == 50 {
        100
    } else if speed_percent == 200 {
        400
    } else if speed_percent == 400 {
        25
    } else {
        200
    }
}

/// The loop mode after the compact loop button: once, twice, five times,
/// endlessly, and back to once.
pub open spec fn next_compact_loop(mode: LoopMode) -> LoopMode {
    match mode {
        LoopMode::Once => LoopMode::Count(2),
        LoopMode::Count(2) => LoopMode::Count(5),
        LoopMode::Count(5) => LoopMode::Infinite,
        _ => LoopMode::Once,
    }
}

/// Whether nothing runs: the status is `Idle` or an error.
pub open spec fn spec_is_idle(v: AppStateView) -> bool {
    v.status is Idle || v.status is Error
}

/// Whether the selected macro has events to play.
pub open spec fn spec_has_playable_macro(v: AppStateView) -> bool {
    match spec_selected(v) {
        Some(m) => m.events.len() > 0,
        None => false,
    }
}

/// The short status the compact bar shows: `Idle`, `<n> ev` while recording,
/// the loop label while playing, `Paused`, or a dash after an error.
pub open spec fn spec_compact_status_text(v: AppStateView) -> Seq<char> {
    match v.status {
        AppStatusView::Idle => "Idle"@,
        AppStatusView::Recording => digits(v.recording_buffer.len()) + " ev"@,
        AppStatusView::Playing => spec_loop_label(v.loop_mode),
        AppStatusView::Paused => "Paused"@,
        AppStatusView::Error(_) => "—"@,
    }
}

/// The status bar text of the full window: a reminder of the record and play
/// hotkeys when idle, the number of events while recording, `Playing`,
/// `Paused`, or the error message.
pub open spec fn spec_status_bar_text(v: AppStateView) -> Seq<char> {
    match v.status {
        AppStatusView::Idle => "Idle — "@ + v.config.hotkeys.record + " to record · "@
            + v.config.hotkeys.play_stop + " to play"@,
        AppStatusView::Recording => "Recording — "@ + digits(v.recording_buffer.len()) + " events"@,
        AppStatusView::Playing => "Playing"@,
        AppStatusView::Paused => "Paused"@,
        AppStatusView::Error(m) => m,
    }
}

/// The loop count field after the loop dropdown is drawn: the count of a
/// counted loop mode, otherwise unchanged.
pub open spec fn spec_loop_count_buffer(v: AppStateView) -> Seq<char> {
    match v.loop_mode {
        LoopMode::Count(n) => digits(n as nat),
        _ => v.loop_count_buffer,
    }
}

/// The text of the loop dropdown for the current loop mode.
pub open spec fn spec_loop_dropdown_text(v: AppStateView) -> Seq<char> {
    match v.loop_mode {
        LoopMode::Once => "Once"@,
        LoopMode::Count(2) => "2×"@,
        LoopMode::Count(5) => "5×"@,
        LoopMode::Count(10) => "10×"@,
        LoopMode::Infinite => "Infinite"@,
        LoopMode::Count(_) => spec_loop_count_buffer(v) + "×"@,
    }
}

// ---------------------------------------------------------------------------
// The operations.
// ---------------------------------------------------------------------------

impl AppState {
    /// A fresh state over the settings and the macros loaded at start-up; the
    /// first macro is selected when there is one.
    pub fn new(config: Config, macros: Vec<MacroFile>) -> (state: Self)
        ensures
            state@ == (AppStateView {
                macros: macros_view(macros@),
                selected_macro_index: if macros@.len() == 0 {
                    None
                } else {
                    Some(0usize)
                },
                status: AppStatusView::Idle,
                recording_buffer: Seq::empty(),
                loop_mode: LoopMode::Once,
                speed_percent: 100,
                config: config@,
                show_settings: false,
                rebinding_action: None,
                duplicate_hotkey_warning: None,
                delete_confirm_index: None,
                rename_index: None,
                rename_buffer: Seq::empty(),
                loop_count_buffer: "2"@,
                compact_mode: config.start_compact,
                positioned: false,
                playback_total_events: 0,
                playback_generation: 0,
                last_error: None,
                effects: Seq::empty(),
            }),
    {
        let selected_macro_index = if macros.len() == 0 {
            None
        } else {
            Some(0)
        };
        let compact_mode = config.start_compact;
        let state = AppState {
            macros,
            selected_macro_index,
            status: AppStatus::Idle,
            recording_buffer: Vec::new(),
            loop_mode: LoopMode::Once,
            speed_percent: 100,
            config,
            show_settings: false,
            rebinding_action: None,
            duplicate_hotkey_warning: None,
            delete_confirm_index: None,
            rename_index: None,
            rename_buffer: String::new(),
            loop_count_buffer: "2".to_owned(),
            compact_mode,
            positioned: false,
            playback_total_events: 0,
            playback_generation: 0,
            last_error: None,
            effects: Vec::new(),
        };
        proof {
            assert(events_view(state.recording_buffer@) =~= Seq::<InputEventView>::empty());
            assert(effects_view(state.effects@) =~= Seq::<AppEffectView>::empty());
        }
        state
    }

    /// Appends an effect to the outbox.
    fn emit(&mut self, e: AppEffect)
        ensures
            final(self)@ == emit(old(self)@, e@),
    {
        self.effects.push(e);
        proof {
            assert(effects_view(self.effects@) =~= effects_view(old(self).effects@).push(e@));
        }
    }

    /// Hands over the effects asked for so far and empties the outbox.
    pub fn take_effects(&mut self) -> (effects: Vec<AppEffect>)
        ensures
            effects_view(effects@) == old(self)@.effects,
            final(self)@ == (AppStateView { effects: Seq::empty(), ..old(self)@ }),
    {
        let mut effects: Vec<AppEffect> = Vec::new();
        std::mem::swap(&mut effects, &mut self.effects);
        proof {
            assert(effects_view(self.effects@) =~= Seq::<AppEffectView>::empty());
        }
        effects
    }

    /// Whether a recording or a playback is running.
    pub fn is_busy(&self) -> (busy: bool)
        ensures
            busy == spec_is_busy(self@),
    {
        match self.status {
            AppStatus::Recording | AppStatus::Playing | AppStatus::Paused => true,
            _ => false,
        }
    }

    /// Whether a recording is running.
    pub fn is_recording(&self) -> (recording: bool)
        ensures
            recording == spec_is_recording(self@),
    {
        match self.status {
            AppStatus::Recording => true,
            _ => false,
        }
    }

    /// Whether a playback is running, paused or not.
    pub fn is_playing_or_paused(&self) -> (playing: bool)
        ensures
            playing == spec_is_playing_or_paused(self@),
    {
        match self.status {
            AppStatus::Playing | AppStatus::Paused => true,
            _ => false,
        }
    }

    /// The selected macro, when the selection points into the library.
    pub fn selected_macro(&self) -> (selected: Option<&MacroFile>)
        ensures
            match selected {
                Some(m) => spec_selected(self@) == Some(m@),
                None => spec_selected(self@) is None,
            },
    {
        match self.selected_macro_index {
            Some(index) => if index < self.macros.len() {
                Some(&self.macros[index])
            } else {
                None
            },
            None => None,
        }
    }

    /// The selected macro for changing in place, when the selection points
    /// into the library; the change lands in the library.
    pub fn selected_macro_mut(&mut self) -> (selected: Option<&mut MacroFile>)
        ensures
            match old(self).selected_macro_index {
                Some(i) => if i < old(self).macros.len() {
                    &&& selected matches Some(m) && *m == old(self).macros@[i as int]
                        && final(self).macros@ == old(self).macros@.update(i as int, *final(m))
                        && final(self)@ == (AppStateView {
                        macros: old(self)@.macros.update(i as int, final(m)@),
                        ..old(self)@
                    })
                } else {
                    selected is None && *final(self) == *old(self)
                },
                None => selected is None && *final(self) == *old(self),
            },
    {
        match self.selected_macro_index {
            Some(index) => if index < self.macros.len() {
                Some(&mut self.macros[index])
            } else {
                None
            },
            None => None,
        }
    }

    /// The events the timeline shows: the recording buffer while recording,
    /// otherwise the selected macro's events.
    pub fn selected_events(&self) -> (events: &[InputEvent])
        ensures
            events_view(events@) == spec_selected_events(self@),
    {
        if self.is_recording() {
            self.recording_buffer.as_slice()
        } else {
            match self.selected_macro() {
                Some(m) => m.events.as_slice(),
                None => {
                    let none: &[InputEvent] = &[];
                    proof {
                        assert(events_view(none@) =~= Seq::<InputEventView>::empty());
                    }
                    none
                },
            }
        }
    }

    /// Records a failure: it becomes the last error and the status.
    fn set_error(&mut self, message: String)
        ensures
            final(self)@ == with_error(old(self)@, message@),
    {
        self.last_error = Some(message.clone());
        self.status = AppStatus::Error(message);
    }

    /// Records a failure of outside work, described as `context: detail`.
    pub fn report_failure(&mut self, context: &str, detail: &str)
        ensures
            final(self)@ == with_error(old(self)@, context@ + ": "@ + detail@),
    {
        let mut message = context.to_owned();
        push_text(&mut message, ": ");
        push_text(&mut message, detail);
        self.set_error(message);
    }

    /// Closes the rename field and the delete confirmation.
    fn cancel_inline_states(&mut self)
        ensures
            final(self)@ == spec_cancel_inline_states(old(self)@),
    {
        self.rename_index = None;
        self.delete_confirm_index = None;
    }

    /// Starts rebinding `action`, or with `None` stops rebinding.
    pub fn set_rebinding_action(&mut self, action: Option<String>)
        ensures
            final(self)@ == spec_set_rebinding_action(old(self)@, opt_text(action)),
    {
        let copy = match &action {
            Some(a) => Some(a.clone()),
            None => None,
        };
        self.rebinding_action = copy;
        self.duplicate_hotkey_warning = None;
        self.emit(AppEffect::SetRecorderRebinding(action));
    }

    /// Stops rebinding.
    pub fn cancel_rebind(&mut self)
        ensures
            final(self)@ == spec_set_rebinding_action(old(self)@, None),
    {
        self.set_rebinding_action(None);
    }

    /// Asks for the settings to be written and hands the hotkeys to the recorder.
    fn save_config(&mut self)
        ensures
            final(self)@ == spec_save_config(old(self)@),
    {
        let config = self.config.clone();
        self.emit(AppEffect::SaveConfig(config));
        let hotkeys = self.config.hotkeys.clone();
        self.emit(AppEffect::SetRecorderHotkeys(hotkeys));
    }

    /// Flips the always-on-top setting and saves the settings.
    pub fn toggle_always_on_top(&mut self)
        ensures
            final(self)@ == spec_save_config(
                AppStateView {
                    config: ConfigView {
                        always_on_top: !old(self)@.config.always_on_top,
                        ..old(self)@.config
                    },
                    ..old(self)@
                },
            ),
    {
        self.config.always_on_top = !self.config.always_on_top;
        self.save_config();
    }

    /// Sets whether the application starts in compact mode and saves the settings.
    pub fn set_start_compact(&mut self, start_compact: bool)
        ensures
            final(self)@ == spec_save_config(
                AppStateView {
                    config: ConfigView { start_compact, ..old(self)@.config },
                    ..old(self)@
                },
            ),
    {
        self.config.start_compact = start_compact;
        self.save_config();
    }

    /// Selects the previous macro, wrapping around; closes rename and delete confirmation.
    pub fn select_previous_macro(&mut self)
        ensures
            final(self)@ == spec_select_previous(old(self)@),
    {
        if self.macros.len() == 0 {
            self.selected_macro_index = None;
            return;
        }
        let current = match self.selected_macro_index {
            Some(i) => i,
            None => 0,
        };
        self.selected_macro_index = Some(
            if current == 0 {
                self.macros.len() - 1
            } else {
                current - 1
            },
        );
        self.cancel_inline_states();
    }

    /// Selects the next macro, wrapping around; closes rename and delete confirmation.
    pub fn select_next_macro(&mut self)
        requires
            old(self).selected_macro_index != Some(usize::MAX),
        ensures
            final(self)@ == spec_select_next(old(self)@),
    {
        if self.macros.len() == 0 {
            self.selected_macro_index = None;
            return;
        }
        let current = match self.selected_macro_index {
            Some(i) => i,
            None => 0,
        };
        self.selected_macro_index = Some((current + 1) % self.macros.len());
        self.cancel_inline_states();
    }

    /// Opens the rename field of macro `index`, filled with its name.
    pub fn start_rename(&mut self, index: usize)
        ensures
            final(self)@ == spec_start_rename(old(self)@, index),
    {
        if index < self.macros.len() {
            self.rename_index = Some(index);
            self.rename_buffer = self.macros[index].name.clone();
            self.delete_confirm_index = None;
        }
    }

    /// Adds `m` at the end of the library.
    fn push_macro(&mut self, m: MacroFile)
        ensures
            final(self).macros@.len() == old(self).macros@.len() + 1,
            final(self)@ == (AppStateView { macros: old(self)@.macros.push(m@), ..old(self)@ }),
    {
        self.macros.push(m);
        proof {
            assert(macros_view(self.macros@) =~= macros_view(old(self).macros@).push(m@));
        }
    }

    /// Replaces macro `index` with `m`.
    fn replace_macro(&mut self, index: usize, m: MacroFile)
        requires
            index < old(self).macros.len(),
        ensures
            final(self)@ == (AppStateView {
                macros: old(self)@.macros.update(index as int, m@),
                ..old(self)@
            }),
    {
        self.macros.set(index, m);
        proof {
            assert(macros_view(self.macros@) =~= macros_view(old(self).macros@).update(
                index as int,
                m@,
            ));
        }
    }

    /// Adds a new untitled macro, selects it and opens its rename field; a
    /// failure to save it is reported under `context`.
    fn add_untitled_macro(&mut self, context: Option<String>)
        ensures
            is_random_uuid_text(final(self)@.macros.last().id),
            final(self)@ == spec_create_macro(
                old(self)@,
                final(self)@.macros.last().id,
                opt_text(context),
            ),
    {
        let macro_file = MacroFile::new("Untitled".to_owned());
        let ghost id = macro_file@.id;
        proof {
            assert(macro_file@ == untitled_macro(id));
        }
        let saved = macro_file.clone();
        self.emit(AppEffect::SaveMacro { macro_file: saved, failure_context: context });
        self.push_macro(macro_file);
        let index = self.macros.len() - 1;
        self.selected_macro_index = Some(index);
        self.start_rename(index);
    }

    /// Adds a new untitled macro under a fresh identifier, selects it and opens its rename field.
    pub fn create_macro(&mut self)
        ensures
            is_random_uuid_text(final(self)@.macros.last().id),
            final(self)@ == spec_create_macro(
                old(self)@,
                final(self)@.macros.last().id,
                Some("Could not save new macro"@),
            ),
    {
        self.add_untitled_macro(Some("Could not save new macro".to_owned()));
    }

    /// Commits the rename field: the trimmed text (or `Untitled`) becomes the
    /// macro's name and the macro is saved; the field closes.
    pub fn commit_rename(&mut self)
        ensures
            final(self)@ == spec_commit_rename(old(self)@),
    {
        let index = match self.rename_index {
            Some(i) => i,
            None => {
                return;
            },
        };
        let t = trim(self.rename_buffer.as_str());
        let new_name = if t.as_str().is_empty() {
            "Untitled".to_owned()
        } else {
            t
        };
        if index < self.macros.len() {
            let mut m = self.macros[index].clone();
            m.name = new_name;
            let saved = m.clone();
            self.replace_macro(index, m);
            self.emit(
                AppEffect::SaveMacro {
                    macro_file: saved,
                    failure_context: Some("Could not rename macro".to_owned()),
                },
            );
        }
        self.rename_index = None;
        self.rename_buffer = String::new();
    }

    /// Adds a copy of macro `index`, called `<name> (copy)`, under a fresh
    /// identifier; it is saved and selected.
    pub fn duplicate_macro(&mut self, index: usize)
        ensures
            index < old(self).macros.len() ==> is_random_uuid_text(final(self)@.macros.last().id),
            final(self)@ == spec_duplicate_macro(old(self)@, index, final(self)@.macros.last().id),
    {
        if index >= self.macros.len() {
            return;
        }
        let mut name = self.macros[index].name.clone();
        push_text(&mut name, " (copy)");
        let mut duplicate = MacroFile::new(name);
        duplicate.events = clone_events(&self.macros[index].events);
        let saved = duplicate.clone();
        self.emit(
            AppEffect::SaveMacro {
                macro_file: saved,
                failure_context: Some("Could not duplicate macro".to_owned()),
            },
        );
        self.push_macro(duplicate);
        self.selected_macro_index = Some(self.macros.len() - 1);
    }

    /// Deletes macro `index` after its file was removed; `file_error` is the
    /// description of the failure when removing the file failed, and the macro
    /// then stays and the failure is reported.
    pub fn delete_macro(&mut self, index: usize, file_error: Option<String>)
        ensures
            final(self)@ == spec_delete_macro(old(self)@, index, opt_text(file_error)),
    {
        if index >= self.macros.len() {
            return;
        }
        match file_error {
            Some(e) => {
                self.report_failure("Could not delete macro", e.as_str());
                proof {
                    assert("Could not delete macro"@ + ": "@ + e@ =~= "Could not delete macro: "@
                        + e@) by {
                        reveal_strlit("Could not delete macro");
                        reveal_strlit(": ");
                        reveal_strlit("Could not delete macro: ");
                    }
                }
                return;
            },
            None => {},
        }
        let _removed = self.macros.remove(index);
        proof {
            assert(macros_view(self.macros@) =~= macros_view(old(self).macros@).remove(
                index as int,
            ));
        }
        self.delete_confirm_index = None;
        self.rename_index = None;
        let remaining = self.macros.len();
        self.selected_macro_index = if remaining == 0 {
            None
        } else if index >= remaining {
            Some(remaining - 1)
        } else {
            Some(index)
        };
    }

    /// Whether a macro in the library has the identifier `id`.
    fn has_macro_id(&self, id: &str) -> (taken: bool)
        ensures
            taken == id_taken(self@.macros, id@),
    {
        let mut j: usize = 0;
        while j < self.macros.len()
            invariant
                j <= self.macros.len(),
                forall|k: int| 0 <= k < j ==> self@.macros[k].id != id@,
            decreases self.macros.len() - j,
        {
            if same_text(self.macros[j].id.as_str(), id) {
                assert(self@.macros[j as int].id == id@);
                return true;
            }
            j = j + 1;
        }
        false
    }

    /// Imports a macro file read as `parsed` (`None` when it could not be
    /// read or parsed). A macro of the current format is added, under a fresh
    /// identifier when its own is taken, saved and selected; anything else is
    /// reported as an invalid macro file.
    pub fn import_macro(&mut self, parsed: Option<MacroFile>)
        ensures
            final(self)@ == spec_import_macro(
                old(self)@,
                match parsed {
                    Some(m) => Some(m@),
                    None => None,
                },
                final(self)@.macros.last().id,
            ),
            parsed matches Some(m) && m.version == MACRO_FORMAT_VERSION && id_taken(
                old(self)@.macros,
                m@.id,
            ) ==> is_random_uuid_text(final(self)@.macros.last().id),
    {
        match parsed {
            Some(mut m) => {
                if m.version == MACRO_FORMAT_VERSION {
                    if self.has_macro_id(m.id.as_str()) {
                        m.id = new_macro_id();
                    }
                    let saved = m.clone();
                    self.emit(
                        AppEffect::SaveMacro {
                            macro_file: saved,
                            failure_context: Some("Could not save imported macro".to_owned()),
                        },
                    );
                    self.push_macro(m);
                    self.selected_macro_index = Some(self.macros.len() - 1);
                } else {
                    self.set_error("Invalid macro file".to_owned());
                }
            },
            None => {
                self.set_error("Invalid macro file".to_owned());
            },
        }
    }

    /// The file name that macro `index` is offered for export under:
    /// `<sanitised name>.json`.
    pub fn export_file_name(&self, index: usize) -> (file_name: Option<String>)
        ensures
            match file_name {
                Some(f) => index < self.macros.len() && f@ == sanitized_file_name(
                    self@.macros[index as int].name,
                ) + ".json"@,
                None => index >= self.macros.len(),
            },
    {
        if index < self.macros.len() {
            let mut f = sanitize_file_name(self.macros[index].name.as_str());
            push_text(&mut f, ".json");
            Some(f)
        } else {
            None
        }
    }

    /// Asks for the selected macro to be saved.
    pub fn save_selected_macro(&mut self)
        ensures
            final(self)@ == spec_save_selected_macro(old(self)@),
    {
        let m = match self.selected_macro() {
            Some(m) => m.clone(),
            None => {
                return;
            },
        };
        self.emit(
            AppEffect::SaveMacro {
                macro_file: m,
                failure_context: Some("Could not save macro".to_owned()),
            },
        );
    }

    /// The key bound to the action called `action` (`record`, `play_stop`,
    /// `pause` or `emergency_stop`), empty for any other name.
    pub fn hotkey_value(&self, action: &str) -> (key: &str)
        ensures
            key@ == spec_hotkey_value(self@.config.hotkeys, action@),
    {
        if same_text(action, "record") {
            self.config.hotkeys.record.as_str()
        } else if same_text(action, "play_stop") {
            self.config.hotkeys.play_stop.as_str()
        } else if same_text(action, "pause") {
            self.config.hotkeys.pause.as_str()
        } else if same_text(action, "emergency_stop") {
            self.config.hotkeys.emergency_stop.as_str()
        } else {
            ""
        }
    }

    /// The status line shown to the user.
    pub fn status_text(&self) -> (text: String)
        ensures
            text@ == spec_status_text(self@),
    {
        match &self.status {
            AppStatus::Idle => "Idle".to_owned(),
            AppStatus::Recording => {
                let mut s = String::new();
                push_unsigned(&mut s, self.recording_buffer.len() as u64);
                push_text(&mut s, " events");
                s
            },
            AppStatus::Playing => "Playing".to_owned(),
            AppStatus::Paused => "Paused".to_owned(),
            AppStatus::Error(message) => message.clone(),
        }
    }

    /// Moves the playback speed to the next of 25, 50, 100, 200 and 400 percent.
    pub fn cycle_speed(&mut self)
        ensures
            final(self)@ == (AppStateView {
                speed_percent: next_speed(old(self)@.speed_percent),
                ..old(self)@
            }),
    {
        let speeds: [u32; 5] = [25, 50, 100, 200, 400];
        let mut current: usize = 2;
        let mut found = false;
        let mut i: usize = 0;
        while i < 5
            invariant
                i <= 5,
                speeds@ == seq![25u32, 50, 100, 200, 400],
                found ==> current < i && speeds@[current as int] == self.speed_percent,
                !found ==> current == 2 && forall|k: int| 0 <= k < i ==> speeds@[k]
                    != self.speed_percent,
            decreases 5 - i,
        {
            if !found && speeds[i] == self.speed_percent {
                current = i;
                found = true;
            }
            i = i + 1;
        }
        self.speed_percent = speeds[(current + 1) % 5];
    }

    /// Moves the loop mode through once, twice, five times and endlessly.
    pub fn cycle_compact_loop(&mut self)
        ensures
            final(self)@ == (AppStateView {
                loop_mode: next_compact_loop(old(self)@.loop_mode),
                ..old(self)@
            }),
    {
        self.loop_mode = match self.loop_mode {
            LoopMode::Once => LoopMode::Count(2),
            LoopMode::Count(2) => LoopMode::Count(5),
            LoopMode::Count(5) => LoopMode::Infinite,
            _ => LoopMode::Once,
        };
    }

    /// Starts a recording, or stops the running one.
    fn start_recording(&mut self)
        ensures
            final(self)@ == spec_start_recording(old(self)@, final(self)@.macros.last().id),
            command_creates_macro(old(self)@, AppCommandView::StartRecording)
                ==> is_random_uuid_text(final(self)@.macros.last().id),
    {
        if self.is_recording() {
            self.stop_recording();
            return;
        }
        if self.is_playing_or_paused() {
            return;
        }
        if self.macros.len() == 0 {
            self.add_untitled_macro(None);
        }
        let ghost created = self@;
        self.effects.push(AppEffect::SetStopFlag(false));
        self.effects.push(AppEffect::SetPaused(false));
        self.recording_buffer = Vec::new();
        self.playback_total_events = 0;
        self.status = AppStatus::Recording;
        self.last_error = None;
        self.effects.push(AppEffect::BeginRecording);
        proof {
            assert(effects_view(self.effects@) =~= created.effects + seq![
                AppEffectView::SetStopFlag(false),
                AppEffectView::SetPaused(false),
                AppEffectView::BeginRecording,
            ]);
            assert(events_view(self.recording_buffer@) =~= Seq::<InputEventView>::empty());
        }
    }

    /// Shifts a recording so that it starts at time 0.
    fn trim_dead_time(events: &mut Vec<InputEvent>)
        ensures
            events_view(final(events)@) == dead_time_trimmed(events_view(old(events)@)),
    {
        if events.len() == 0 {
            return;
        }
        let first_ts = events[0].timestamp_ms;
        let ghost initial = events_view(events@);
        let mut i: usize = 0;
        while i < events.len()
            invariant
                i <= events.len(),
                events.len() == initial.len(),
                initial.len() > 0,
                first_ts == initial[0].timestamp_ms,
                forall|k: int|
                    0 <= k < i ==> #[trigger] events_view(events@)[k] == dead_time_trimmed(
                        initial,
                    )[k],
                forall|k: int| i <= k < events.len() ==> #[trigger] events_view(events@)[k] == initial[k],
            decreases events.len() - i,
        {
            let mut e = events[i].clone();
            e.timestamp_ms = e.timestamp_ms.saturating_sub(first_ts);
            let ghost before = events@;
            events.set(i, e);
            proof {
                assert(events_view(events@)[i as int] == events@[i as int]@);
                assert(dead_time_trimmed(initial)[i as int] == InputEventView {
                    timestamp_ms: if initial[i as int].timestamp_ms >= first_ts {
                        (initial[i as int].timestamp_ms - first_ts) as u64
                    } else {
                        0
                    },
                    kind: initial[i as int].kind,
                });
                assert forall|k: int| 0 <= k < events.len() && k != i implies #[trigger] events_view(
                    events@,
                )[k] == events_view(before)[k] by {
                    assert(events@[k] == before[k]);
                }
                assert forall|k: int| 0 <= k < i + 1 implies #[trigger] events_view(events@)[k]
                    == dead_time_trimmed(initial)[k] by {
                    if k < i {
                        assert(events@[k] == before[k]);
                        assert(events_view(before)[k] == dead_time_trimmed(initial)[k]);
                    } else {
                        assert(events_view(before)[k] == initial[k]);
                        assert(before[k]@ == initial[k]);
                    }
                }
            }
            i = i + 1;
        }
        proof {
            assert(events_view(events@) =~= dead_time_trimmed(initial));
        }
    }

    /// Ends a running recording: the trimmed events replace those of the
    /// selected macro, which is saved, and the status returns to `Idle`.
    fn stop_recording(&mut self)
        ensures
            final(self)@ == spec_stop_recording(old(self)@),
    {
        if !self.is_recording() {
            return;
        }
        let mut events: Vec<InputEvent> = Vec::new();
        std::mem::swap(&mut events, &mut self.recording_buffer);
        Self::trim_dead_time(&mut events);
        proof {
            assert(events_view(self.recording_buffer@) =~= Seq::<InputEventView>::empty());
        }
        match self.selected_macro_index {
            Some(index) => {
                if index < self.macros.len() {
                    let mut m = self.macros[index].clone();
                    m.events = events;
                    let saved = m.clone();
                    self.replace_macro(index, m);
                    self.emit(
                        AppEffect::SaveMacro {
                            macro_file: saved,
                            failure_context: Some("Could not save recording".to_owned()),
                        },
                    );
                }
            },
            None => {},
        }
        self.status = AppStatus::Idle;
        self.emit(AppEffect::EndRecording);
    }

    /// Starts playing the selected macro, when it has events.
    fn start_playback(&mut self)
        ensures
            final(self)@ == spec_start_playback(old(self)@),
    {
        let events = match self.selected_macro() {
            Some(m) => clone_events(&m.events),
            None => {
                return;
            },
        };
        if events.len() == 0 {
            return;
        }
        let ghost before = self@;
        self.effects.push(AppEffect::SetStopFlag(false));
        self.effects.push(AppEffect::SetPaused(false));
        self.playback_total_events = events.len();
        self.status = AppStatus::Playing;
        self.playback_generation = self.playback_generation.wrapping_add(1);
        let generation = self.playback_generation;
        self.effects.push(
            AppEffect::StartPlayback {
                events,
                loop_mode: self.loop_mode,
                speed_percent: self.speed_percent,
                generation,
            },
        );
        proof {
            assert(self.playback_generation == next_generation(before.playback_generation));
            assert(effects_view(self.effects@) =~= before.effects + seq![
                AppEffectView::SetStopFlag(false),
                AppEffectView::SetPaused(false),
                AppEffectView::StartPlayback {
                    events: spec_selected(before)->0.events,
                    loop_mode: before.loop_mode,
                    speed_percent: before.speed_percent,
                    generation: self.playback_generation,
                },
            ]);
        }
    }

    /// Plays the selected macro, or stops the running playback.
    fn toggle_play(&mut self)
        ensures
            final(self)@ == spec_toggle_play(old(self)@),
    {
        match self.status {
            AppStatus::Idle | AppStatus::Error(_) => self.start_playback(),
            AppStatus::Playing | AppStatus::Paused => {
                self.emit(AppEffect::SetStopFlag(true));
                self.emit(AppEffect::SetPaused(false));
                self.status = AppStatus::Idle;
                proof {
                    assert(self@.effects =~= old(self)@.effects + seq![
                        AppEffectView::SetStopFlag(true),
                        AppEffectView::SetPaused(false),
                    ]);
                }
            },
            AppStatus::Recording => {},
        }
    }

    /// Pauses a playing macro, or resumes a paused one.
    fn toggle_pause(&mut self)
        ensures
            final(self)@ == spec_toggle_pause(old(self)@),
    {
        match self.status {
            AppStatus::Playing => {
                self.emit(AppEffect::SetPaused(true));
                self.status = AppStatus::Paused;
            },
            AppStatus::Paused => {
                self.emit(AppEffect::SetPaused(false));
                self.status = AppStatus::Playing;
            },
            _ => {},
        }
    }

    /// Stops everything: playback, recording, rebinding and inline editing.
    fn emergency_stop(&mut self)
        ensures
            final(self)@ == spec_emergency_stop(old(self)@),
    {
        self.emit(AppEffect::SetStopFlag(true));
        self.emit(AppEffect::SetPaused(false));
        self.emit(AppEffect::SetPlayingFlag(false));
        self.emit(AppEffect::EndRecording);
        self.status = AppStatus::Idle;
        proof {
            assert(self@.effects =~= old(self)@.effects + seq![
                AppEffectView::SetStopFlag(true),
                AppEffectView::SetPaused(false),
                AppEffectView::SetPlayingFlag(false),
                AppEffectView::EndRecording,
            ]);
        }
        self.cancel_rebind();
        self.cancel_inline_states();
    }

    /// Adds an event to the recording, when one is running.
    fn record_event(&mut self, event: InputEvent)
        ensures
            final(self)@ == spec_record_event(old(self)@, event@),
    {
        if self.is_recording() {
            self.recording_buffer.push(event);
            proof {
                assert(events_view(self.recording_buffer@) =~= events_view(
                    old(self).recording_buffer@,
                ).push(event@));
            }
        }
    }

    /// Handles the end of a playback.
    fn playback_complete(&mut self)
        ensures
            final(self)@ == spec_playback_complete_for(old(self)@, old(self)@.playback_generation),
    {
        self.emit(AppEffect::SetPlayingFlag(false));
        if self.is_playing_or_paused() {
            self.status = AppStatus::Idle;
        }
    }

    /// Handles the end of the playback of generation `generation`; the end of
    /// an older playback is ignored.
    fn playback_complete_for(&mut self, generation: u64)
        ensures
            final(self)@ == spec_playback_complete_for(old(self)@, generation),
    {
        if generation == self.playback_generation {
            self.playback_complete();
        }
    }

    /// Whether an action other than `action` is already bound to `key`.
    fn hotkey_duplicate(&self, action: &str, key: &str) -> (taken: bool)
        ensures
            taken == spec_hotkey_duplicate(self@.config.hotkeys, action@, key@),
    {
        let h = &self.config.hotkeys;
        (!same_text(action, "record") && same_text(h.record.as_str(), key)) || (!same_text(
            action,
            "play_stop",
        ) && same_text(h.play_stop.as_str(), key)) || (!same_text(action, "pause") && same_text(
            h.pause.as_str(),
            key,
        )) || (!same_text(action, "emergency_stop") && same_text(h.emergency_stop.as_str(), key))
    }

    /// Binds `key` to the action being rebound, unless it is Escape (which
    /// cancels), a modifier key, or a key bound to another action.
    fn capture_rebind(&mut self, key: String)
        ensures
            final(self)@ == spec_capture_rebind(old(self)@, key@),
    {
        let action = match &self.rebinding_action {
            Some(a) => a.clone(),
            None => {
                return;
            },
        };
        if same_text(key.as_str(), "Escape") || same_text(key.as_str(), "Esc") {
            self.cancel_rebind();
            return;
        }
        if is_modifier_key(key.as_str()) {
            self.duplicate_hotkey_warning = Some(
                "Modifier keys cannot be used as hotkeys".to_owned(),
            );
            self.emit(AppEffect::SetRecorderRebinding(Some(action)));
            return;
        }
        if self.hotkey_duplicate(action.as_str(), key.as_str()) {
            let mut warning = key.clone();
            push_text(&mut warning, " is already assigned");
            self.duplicate_hotkey_warning = Some(warning);
            self.emit(AppEffect::SetRecorderRebinding(Some(action)));
            return;
        }
        if same_text(action.as_str(), "record") {
            self.config.hotkeys.record = key;
        } else if same_text(action.as_str(), "play_stop") {
            self.config.hotkeys.play_stop = key;
        } else if same_text(action.as_str(), "pause") {
            self.config.hotkeys.pause = key;
        } else if same_text(action.as_str(), "emergency_stop") {
            self.config.hotkeys.emergency_stop = key;
        }
        let hotkeys = self.config.hotkeys.clone();
        self.emit(AppEffect::SetRecorderHotkeys(hotkeys));
        self.save_config();
        self.set_rebinding_action(None);
    }

    /// Carries out a command.
    pub fn handle_command(&mut self, command: AppCommand)
        ensures
            final(self)@ == spec_handle_command(old(self)@, command@, final(self)@.macros.last().id),
            command_creates_macro(old(self)@, command@) ==> is_random_uuid_text(
                final(self)@.macros.last().id,
            ),
    {
        match command {
            AppCommand::StartRecording => self.start_recording(),
            AppCommand::StopRecording => self.stop_recording(),
            AppCommand::TogglePlay => self.toggle_play(),
            AppCommand::TogglePause => self.toggle_pause(),
            AppCommand::EmergencyStop => self.emergency_stop(),
            AppCommand::RecordedEvent(event) => self.record_event(event),
            AppCommand::PlaybackCompleteFor(generation) => self.playback_complete_for(generation),
            AppCommand::RebindCapture(key) => self.capture_rebind(key),
        }
    }

    /// Handles a key press seen by the window. `recording_timestamp_ms` is the
    /// recorder's time stamp for it, `None` when no recording is running.
    pub fn handle_local_key_press(&mut self, key: String, recording_timestamp_ms: Option<u64>)
        ensures
            final(self)@ == spec_key_press(
                old(self)@,
                key@,
                recording_timestamp_ms,
                final(self)@.macros.last().id,
            ),
            old(self)@.rebinding_action is None && (match hotkey_command(
                key@,
                old(self)@.config.hotkeys,
            ) {
                Some(c) => command_creates_macro(old(self)@, c),
                None => false,
            }) ==> is_random_uuid_text(final(self)@.macros.last().id),
    {
        if self.rebinding_action.is_some() {
            self.capture_rebind(key);
            return;
        }
        match command_for_key_press(key.as_str(), &self.config.hotkeys) {
            Some(command) => {
                self.handle_command(command);
                return;
            },
            None => {},
        }
        if self.is_playing_or_paused() {
            return;
        }
        match recording_timestamp_ms {
            Some(timestamp_ms) => {
                self.record_event(InputEvent::new(timestamp_ms, EventKind::KeyDown { key }));
            },
            None => {},
        }
    }

    /// Handles a key release seen by the window. `recording_timestamp_ms` is
    /// the recorder's time stamp for it, `None` when no recording is running.
    pub fn handle_local_key_release(&mut self, key: String, recording_timestamp_ms: Option<u64>)
        ensures
            final(self)@ == spec_key_release(old(self)@, key@, recording_timestamp_ms),
    {
        if self.rebinding_action.is_some() || is_hotkey(key.as_str(), &self.config.hotkeys) {
            return;
        }
        if self.is_playing_or_paused() {
            return;
        }
        match recording_timestamp_ms {
            Some(timestamp_ms) => {
                self.record_event(InputEvent::new(timestamp_ms, EventKind::KeyUp { key }));
            },
            None => {},
        }
    }

    /// Whether nothing runs: the status is `Idle` or an error.
    pub fn is_idle(&self) -> (idle: bool)
        ensures
            idle == spec_is_idle(self@),
    {
        match self.status {
            AppStatus::Idle | AppStatus::Error(_) => true,
            _ => false,
        }
    }

    /// Whether the selected macro has events to play.
    pub fn has_playable_macro(&self) -> (playable: bool)
        ensures
            playable == spec_has_playable_macro(self@),
    {
        match self.selected_macro() {
            Some(m) => m.events.len() > 0,
            None => false,
        }
    }

    /// The short status the compact bar shows.
    pub fn compact_status_text(&self) -> (text: String)
        ensures
            text@ == spec_compact_status_text(self@),
    {
        match &self.status {
            AppStatus::Idle => "Idle".to_owned(),
            AppStatus::Recording => {
                let mut s = String::new();
                push_unsigned(&mut s, self.recording_buffer.len() as u64);
                push_text(&mut s, " ev");
                s
            },
            AppStatus::Playing => loop_label(&self.loop_mode),
            AppStatus::Paused => "Paused".to_owned(),
            AppStatus::Error(_) => "—".to_owned(),
        }
    }

    /// The status bar text of the full window.
    pub fn status_bar_text(&self) -> (text: String)
        ensures
            text@ == spec_status_bar_text(self@),
    {
        match &self.status {
            AppStatus::Idle => {
                let mut s = "Idle — ".to_owned();
                push_text(&mut s, self.config.hotkeys.record.as_str());
                push_text(&mut s, " to record · ");
                push_text(&mut s, self.config.hotkeys.play_stop.as_str());
                push_text(&mut s, " to play");
                s
            },
            AppStatus::Recording => {
                let mut s = "Recording — ".to_owned();
                push_unsigned(&mut s, self.recording_buffer.len() as u64);
                push_text(&mut s, " events");
                s
            },
            AppStatus::Playing => "Playing".to_owned(),
            AppStatus::Paused => "Paused".to_owned(),
            AppStatus::Error(message) => message.clone(),
        }
    }

    /// Brings the loop count field up to date with a counted loop mode and
    /// returns the text of the loop dropdown.
    pub fn loop_dropdown_text(&mut self) -> (text: String)
        ensures
            final(self)@ == (AppStateView {
                loop_count_buffer: spec_loop_count_buffer(old(self)@),
                ..old(self)@
            }),
            text@ == spec_loop_dropdown_text(old(self)@),
    {
        match self.loop_mode {
            LoopMode::Count(count) => {
                let mut buffer = String::new();
                push_unsigned(&mut buffer, count as u64);
                self.loop_count_buffer = buffer;
            },
            _ => {},
        }
        match self.loop_mode {
            LoopMode::Once => "Once".to_owned(),
            LoopMode::Count(2) => "2×".to_owned(),
            LoopMode::Count(5) => "5×".to_owned(),
            LoopMode::Count(10) => "10×".to_owned(),
            LoopMode::Infinite => "Infinite".to_owned(),
            LoopMode::Count(_) => {
                let mut s = self.loop_count_buffer.clone();
                push_text(&mut s, "×");
                s
            },
        }
    }

    /// Whether the record button is enabled: when nothing runs, or to stop a recording.
    pub fn can_record(&self) -> (enabled: bool)
        ensures
            enabled == (spec_is_idle(self@) || spec_is_recording(self@)),
    {
        self.is_idle() || self.is_recording()
    }

    /// The command the record button sends: stop while recording, else start.
    pub fn record_command(&self) -> (command: AppCommand)
        ensures
            command@ == if spec_is_recording(self@) {
                AppCommandView::StopRecording
            } else {
                AppCommandView::StartRecording
            },
    {
        if self.is_recording() {
            AppCommand::StopRecording
        } else {
            AppCommand::StartRecording
        }
    }

    /// Whether the play button is enabled: to stop a playback, or when nothing
    /// runs and the selected macro has events.
    pub fn can_play(&self) -> (enabled: bool)
        ensures
            enabled == (spec_is_playing_or_paused(self@) || (spec_is_idle(self@)
                && spec_has_playable_macro(self@))),
    {
        self.is_playing_or_paused() || (self.is_idle() && self.has_playable_macro())
    }

    /// Whether the save button is enabled: nothing runs and the selected macro has events.
    pub fn can_save(&self) -> (enabled: bool)
        ensures
            enabled == (spec_is_idle(self@) && spec_has_playable_macro(self@)),
    {
        self.is_idle() && self.has_playable_macro()
    }

    /// Whether the compact bar lets the selection move: not while recording or playing.
    pub fn can_change_selection(&self) -> (enabled: bool)
        ensures
            enabled == !(self@.status is Recording || self@.status is Playing),
    {
        match self.status {
            AppStatus::Recording | AppStatus::Playing => false,
            _ => true,
        }
    }

    /// Selects macro `index` from the library list, unless something runs.
    pub fn select_macro(&mut self, index: usize)
        ensures
            final(self)@ == if spec_is_busy(old(self)@) {
                old(self)@
            } else {
                AppStateView { selected_macro_index: Some(index), ..old(self)@ }
            },
    {
        if !self.is_busy() {
            self.selected_macro_index = Some(index);
        }
    }

    /// Switches between the compact bar and the full window; the window is
    /// placed anew.
    pub fn set_compact_mode(&mut self, compact: bool)
        ensures
            final(self)@ == (AppStateView { compact_mode: compact, positioned: false, ..old(self)@ }),
    {
        self.compact_mode = compact;
        self.positioned = false;
    }

    /// Notes that the compact bar has been placed on the screen.
    pub fn mark_positioned(&mut self)
        ensures
            final(self)@ == (AppStateView { positioned: true, ..old(self)@ }),
    {
        self.positioned = true;
    }

    /// Opens or closes the settings window.
    pub fn set_show_settings(&mut self, show: bool)
        ensures
            final(self)@ == (AppStateView { show_settings: show, ..old(self)@ }),
    {
        self.show_settings = show;
    }

    /// Opens the delete confirmation of macro `index`.
    pub fn confirm_delete(&mut self, index: usize)
        ensures
            final(self)@ == (AppStateView { delete_confirm_index: Some(index), ..old(self)@ }),
    {
        self.delete_confirm_index = Some(index);
    }

    /// Closes the delete confirmation.
    pub fn cancel_delete(&mut self)
        ensures
            final(self)@ == (AppStateView { delete_confirm_index: None, ..old(self)@ }),
    {
        self.delete_confirm_index = None;
    }
}

/// Whether `key` is a modifier key, which cannot serve as a hotkey.
pub fn is_modifier_key(key: &str) -> (modifier: bool)
    ensures
        modifier == spec_is_modifier_key(key@),
{
    same_text(key, "ShiftLeft") || same_text(key, "ShiftRight") || same_text(key, "ControlLeft")
        || same_text(key, "ControlRight") || same_text(key, "Alt") || same_text(key, "AltGr")
        || same_text(key, "MetaLeft") || same_text(key, "MetaRight") || same_text(key, "CapsLock")
}

} // verus!
