//! Properties of the application state that span several operations or hold
//! of every state, proved over the transitions of [`crate::state`].
use vstd::prelude::*;

use crate::models::{HotkeyConfigView, InputEventView, MacroFileView};
use crate::state::{
    AppEffectView, AppStateView, dead_time_trimmed, spec_hotkey_duplicate, next_generation,
    spec_stop_recording, spec_toggle_play, spec_capture_rebind, spec_create_macro, spec_delete_macro,
    spec_duplicate_macro, spec_emergency_stop, spec_import_macro, spec_is_modifier_key,
    spec_is_playing_or_paused, spec_is_recording, spec_playback_complete_for, spec_record_event,
    spec_select_next, spec_select_previous, spec_start_playback, spec_toggle_pause,
    spec_handle_command, spec_key_press, spec_key_release,
};
use crate::commands::AppCommandView;
use crate::text::{is_reserved_file_char, replace_reserved, sanitized_file_name, trimmed};

verus! {

/// Whether the selection points into the library, and is empty only when the library is.
pub open spec fn selection_valid(v: AppStateView) -> bool {
    match v.selected_macro_index {
        Some(i) => i < v.macros.len(),
        None => v.macros.len() == 0,
    }
}

/// Law: moving the selection keeps it valid.
pub proof fn lemma_navigation_keeps_selection_valid(v: AppStateView)
    requires
        selection_valid(v),
    ensures
        selection_valid(spec_select_previous(v)),
        selection_valid(spec_select_next(v)),
{
}

/// Law: adding, duplicating, importing or deleting a macro leaves the
/// selection valid, whatever the selection was before.
pub proof fn lemma_library_changes_keep_selection_valid(
    v: AppStateView,
    index: usize,
    id: Seq<char>,
    context: Option<Seq<char>>,
    parsed: Option<MacroFileView>,
    file_error: Option<Seq<char>>,
)
    requires
        selection_valid(v),
    ensures
        selection_valid(spec_create_macro(v, id, context)),
        selection_valid(spec_duplicate_macro(v, index, id)),
        selection_valid(spec_import_macro(v, parsed, id)),
        selection_valid(spec_delete_macro(v, index, file_error)),
{
}

/// Law: with a valid selection in a non-empty library, moving to the next
/// macro and back selects the same macro again (and the reverse).
pub proof fn lemma_next_then_previous(v: AppStateView)
    requires
        selection_valid(v),
        0 < v.macros.len() <= usize::MAX,
    ensures
        spec_select_previous(spec_select_next(v)).selected_macro_index == v.selected_macro_index,
        spec_select_next(spec_select_previous(v)).selected_macro_index == v.selected_macro_index,
{
    let len = v.macros.len() as int;
    let i = v.selected_macro_index->0 as int;
    let n = spec_select_next(v);
    let next_index = if i + 1 < len {
        i + 1
    } else {
        0
    };
    assert((i + 1) % len == next_index) by (nonlinear_arith)
        requires
            0 <= i < len,
            next_index == (if i + 1 < len { i + 1 } else { 0 }),
    ;
    assert(n.selected_macro_index == Some(next_index as usize));
    assert(n.macros.len() == len);
    let p = spec_select_previous(v);
    let prev_index = if i == 0 {
        len - 1
    } else {
        i - 1
    };
    assert(p.selected_macro_index == Some(prev_index as usize));
    assert(p.macros.len() == len);
    assert((prev_index + 1) % len == i) by (nonlinear_arith)
        requires
            0 <= i < len,
            prev_index == (if i == 0 { len - 1 } else { i - 1 }),
    ;
}

/// Law: pausing and resuming a playback (or resuming and pausing again)
/// returns to the same status.
pub proof fn lemma_pause_twice(v: AppStateView)
    requires
        spec_is_playing_or_paused(v),
    ensures
        spec_toggle_pause(spec_toggle_pause(v)).status == v.status,
{
}

/// Law: a completion report from a playback other than the latest changes nothing.
pub proof fn lemma_stale_completion_ignored(v: AppStateView, g: u64)
    requires
        g != v.playback_generation,
    ensures
        spec_playback_complete_for(v, g) == v,
{
}

/// Law: starting a playback gives it a new generation, so the report that an
/// earlier playback finished cannot end it.
pub proof fn lemma_new_playback_ignores_old_completion(v: AppStateView)
    requires
        spec_start_playback(v).status is Playing,
        !(v.status is Playing),
    ensures
        spec_playback_complete_for(spec_start_playback(v), v.playback_generation) == spec_start_playback(
            v,
        ),
{
}

/// Law: the emergency stop always leaves the application idle, with no
/// rebinding, rename or delete confirmation open.
pub proof fn lemma_emergency_stop_idles(v: AppStateView)
    ensures
        spec_emergency_stop(v).status is Idle,
        spec_emergency_stop(v).rebinding_action is None,
        spec_emergency_stop(v).rename_index is None,
        spec_emergency_stop(v).delete_confirm_index is None,
{
}

/// Law: events reach the recording buffer only while recording, and then in
/// the order they arrive.
pub proof fn lemma_record_event(v: AppStateView, e: InputEventView)
    ensures
        spec_is_recording(v) ==> spec_record_event(v, e).recording_buffer == v.recording_buffer.push(
            e,
        ),
        !spec_is_recording(v) ==> spec_record_event(v, e) == v,
{
}

/// Whether no two actions share a key.
pub open spec fn hotkeys_distinct(h: HotkeyConfigView) -> bool {
    &&& h.record != h.play_stop
    &&& h.record != h.pause
    &&& h.record != h.emergency_stop
    &&& h.play_stop != h.pause
    &&& h.play_stop != h.emergency_stop
    &&& h.pause != h.emergency_stop
}

/// Whether no action is bound to a modifier key.
pub open spec fn hotkeys_free_of_modifiers(h: HotkeyConfigView) -> bool {
    &&& !spec_is_modifier_key(h.record)
    &&& !spec_is_modifier_key(h.play_stop)
    &&& !spec_is_modifier_key(h.pause)
    &&& !spec_is_modifier_key(h.emergency_stop)
}

/// The four literal action names are distinct.
proof fn lemma_action_names_distinct()
    ensures
        "record"@ != "play_stop"@,
        "record"@ != "pause"@,
        "record"@ != "emergency_stop"@,
        "play_stop"@ != "pause"@,
        "play_stop"@ != "emergency_stop"@,
        "pause"@ != "emergency_stop"@,
{
    reveal_strlit("record");
    reveal_strlit("play_stop");
    reveal_strlit("pause");
    reveal_strlit("emergency_stop");
    assert("record"@.len() == 6 && "play_stop"@.len() == 9 && "pause"@.len() == 5
        && "emergency_stop"@.len() == 14);
}

/// Law: rebinding never makes two actions share a key.
pub proof fn lemma_rebind_keeps_hotkeys_distinct(v: AppStateView, key: Seq<char>)
    requires
        hotkeys_distinct(v.config.hotkeys),
    ensures
        hotkeys_distinct(spec_capture_rebind(v, key).config.hotkeys),
{
    lemma_action_names_distinct();
}

/// Law: rebinding never binds a modifier key.
pub proof fn lemma_rebind_never_binds_modifiers(v: AppStateView, key: Seq<char>)
    requires
        hotkeys_free_of_modifiers(v.config.hotkeys),
    ensures
        hotkeys_free_of_modifiers(spec_capture_rebind(v, key).config.hotkeys),
{
    lemma_action_names_distinct();
}

/// Law: a refused key changes no binding and keeps the rebinding open: a
/// modifier key is refused with a warning that modifiers cannot be hotkeys,
/// and a key another action has is refused with a warning naming it.
pub proof fn lemma_rebind_refusals(v: AppStateView, key: Seq<char>)
    requires
        v.rebinding_action is Some,
        key != "Escape"@,
        key != "Esc"@,
    ensures
        spec_is_modifier_key(key) ==> {
            let w = spec_capture_rebind(v, key);
            &&& w.config == v.config
            &&& w.rebinding_action == v.rebinding_action
            &&& w.duplicate_hotkey_warning == Some("Modifier keys cannot be used as hotkeys"@)
        },
        !spec_is_modifier_key(key) && spec_hotkey_duplicate(
            v.config.hotkeys,
            v.rebinding_action->0,
            key,
        ) ==> {
            let w = spec_capture_rebind(v, key);
            &&& w.config == v.config
            &&& w.rebinding_action == v.rebinding_action
            &&& w.duplicate_hotkey_warning == Some(key + " is already assigned"@)
        },
{
}

/// Law: a trimmed recording starts at time 0 and keeps every gap between
/// events when the time stamps never go down.
pub proof fn lemma_trim_keeps_gaps(events: Seq<InputEventView>)
    requires
        forall|i: int, j: int|
            0 <= i <= j < events.len() ==> events[i].timestamp_ms <= events[j].timestamp_ms,
    ensures
        dead_time_trimmed(events).len() == events.len(),
        events.len() > 0 ==> dead_time_trimmed(events)[0].timestamp_ms == 0,
        forall|i: int, j: int|
            0 <= i <= j < events.len() ==> dead_time_trimmed(events)[j].timestamp_ms
                - dead_time_trimmed(events)[i].timestamp_ms == events[j].timestamp_ms
                - events[i].timestamp_ms,
        forall|i: int|
            0 <= i < events.len() ==> dead_time_trimmed(events)[i].kind == events[i].kind,
{
}

/// Law: an exported file name holds no reserved character and is never blank.
pub proof fn lemma_sanitized_file_name(name: Seq<char>)
    ensures
        forall|i: int|
            0 <= i < sanitized_file_name(name).len() ==> !is_reserved_file_char(
                #[trigger] sanitized_file_name(name)[i],
            ),
        trimmed(sanitized_file_name(name)).len() > 0,
{
    if trimmed(replace_reserved(name)).len() == 0 {
        reveal_strlit("macro");
        assert(trimmed("macro"@) == "macro"@);
    }
}

/// Law: what is recorded is what is played. Stopping a recording stores the
/// recorded events, shifted to start at 0, in the selected macro; playing it
/// next starts a playback of exactly those events, under the loop mode and
/// speed set, and the report that this playback finished returns to idle.
pub proof fn lemma_recording_is_played_back(v: AppStateView)
    requires
        spec_is_recording(v),
        v.recording_buffer.len() > 0,
        v.selected_macro_index matches Some(i) && i < v.macros.len(),
    ensures
        ({
            let stopped = spec_stop_recording(v);
            let played = spec_toggle_play(stopped);
            let g = next_generation(v.playback_generation);
            &&& stopped.status is Idle
            &&& played.status is Playing
            &&& played.playback_generation == g
            &&& played.effects.last() == AppEffectView::StartPlayback {
                events: dead_time_trimmed(v.recording_buffer),
                loop_mode: v.loop_mode,
                speed_percent: v.speed_percent,
                generation: g,
            }
            &&& spec_playback_complete_for(played, g).status is Idle
        }),
{
}

/// Whether `w` holds every effect of `v`, in order, with possibly more after them.
pub open spec fn effects_extend(v: AppStateView, w: AppStateView) -> bool {
    &&& v.effects.len() <= w.effects.len()
    &&& forall|i: int| 0 <= i < v.effects.len() ==> #[trigger] w.effects[i] == v.effects[i]
}

/// Law: commands and key events only ever add effects at the end of the
/// outbox; none asked for earlier is dropped or reordered.
pub proof fn lemma_effects_only_grow(
    v: AppStateView,
    command: AppCommandView,
    key: Seq<char>,
    timestamp: Option<u64>,
    id: Seq<char>,
)
    ensures
        effects_extend(v, spec_handle_command(v, command, id)),
        effects_extend(v, spec_key_press(v, key, timestamp, id)),
        effects_extend(v, spec_key_release(v, key, timestamp)),
{
    assert forall|c: AppCommandView| #[trigger] effects_extend(v, spec_handle_command(v, c, id)) by {
        let w = spec_handle_command(v, c, id);
        assert forall|i: int| 0 <= i < v.effects.len() implies #[trigger] w.effects[i]
            == v.effects[i] by {
            if v.macros.len() == 0 {
                assert(spec_create_macro(v, id, None).effects[i] == v.effects[i]);
            }
        }
    }
}

/// The value a paused-playback signal has after `effects` are carried out,
/// starting from `paused`: that of the last `SetPaused` among them, if any.
pub open spec fn pause_signal(effects: Seq<AppEffectView>, paused: bool) -> bool
    decreases effects.len(),
{
    if effects.len() == 0 {
        paused
    } else {
        match effects.last() {
            AppEffectView::SetPaused(p) => p,
            _ => pause_signal(effects.drop_last(), paused),
        }
    }
}

/// The pause signal after the effects that `w` added on top of those of `v`.
pub open spec fn pause_signal_after(v: AppStateView, w: AppStateView, paused: bool) -> bool {
    pause_signal(w.effects.subrange(v.effects.len() as int, w.effects.len() as int), paused)
}

/// Law: pausing and resuming keeps the pause signal equal to whether the
/// status is `Paused`, and doing it twice restores both the status and the signal.
pub proof fn lemma_pause_signal_follows_status(v: AppStateView, paused: bool)
    requires
        paused == (v.status is Paused),
    ensures
        pause_signal_after(v, spec_toggle_pause(v), paused) == (spec_toggle_pause(v).status is Paused),
        spec_is_playing_or_paused(v) ==> {
            let w = spec_toggle_pause(v);
            let u = spec_toggle_pause(w);
            &&& u.status == v.status
            &&& pause_signal_after(w, u, pause_signal_after(v, w, paused)) == paused
        },
{
    let w = spec_toggle_pause(v);
    let added = w.effects.subrange(v.effects.len() as int, w.effects.len() as int);
    if v.status is Playing || v.status is Paused {
        assert(added.drop_last() =~= Seq::<AppEffectView>::empty());
        let u = spec_toggle_pause(w);
        let added2 = u.effects.subrange(w.effects.len() as int, u.effects.len() as int);
        assert(added2.drop_last() =~= Seq::<AppEffectView>::empty());
    } else {
        assert(added =~= Seq::<AppEffectView>::empty());
    }
}

/// Effects without a `SetPaused` leave the pause signal as it was.
proof fn lemma_pause_signal_untouched(effects: Seq<AppEffectView>, paused: bool)
    requires
        forall|i: int| 0 <= i < effects.len() ==> !(#[trigger] effects[i] is SetPaused),
    ensures
        pause_signal(effects, paused) == paused,
    decreases effects.len(),
{
    if effects.len() > 0 {
        assert(!(effects[effects.len() - 1] is SetPaused));
        assert forall|i: int| 0 <= i < effects.drop_last().len() implies !(
        #[trigger] effects.drop_last()[i] is SetPaused) by {
            assert(effects.drop_last()[i] == effects[i]);
        }
        lemma_pause_signal_untouched(effects.drop_last(), paused);
    }
}

/// Law: every command keeps the pause signal equal to whether the status is
/// `Paused`, except the report that a paused playback has finished, which
/// leaves the application idle with the signal still set.
pub proof fn lemma_commands_keep_pause_signal(
    v: AppStateView,
    command: AppCommandView,
    id: Seq<char>,
    paused: bool,
)
    requires
        paused == (v.status is Paused),
        !(command is PlaybackCompleteFor && v.status is Paused),
    ensures
        pause_signal_after(v, spec_handle_command(v, command, id), paused) == (spec_handle_command(
            v,
            command,
            id,
        ).status is Paused),
{
    let w = spec_handle_command(v, command, id);
    let added = w.effects.subrange(v.effects.len() as int, w.effects.len() as int);
    reveal_with_fuel(pause_signal, 6);
    match command {
        AppCommandView::TogglePause => {
            lemma_pause_signal_follows_status(v, paused);
        },
        AppCommandView::StartRecording => {
            if spec_is_recording(v) {
                assert forall|i: int| 0 <= i < added.len() implies !(#[trigger] added[i] is SetPaused) by {
                    assert(added[i] == w.effects[v.effects.len() + i]);
                }
                lemma_pause_signal_untouched(added, paused);
            } else if spec_is_playing_or_paused(v) {
                assert(added =~= Seq::<AppEffectView>::empty());
            } else {
                let c = if v.macros.len() == 0 {
                    spec_create_macro(v, id, None)
                } else {
                    v
                };
                assert(added =~= c.effects.subrange(v.effects.len() as int, c.effects.len() as int)
                    + seq![
                    AppEffectView::SetStopFlag(false),
                    AppEffectView::SetPaused(false),
                    AppEffectView::BeginRecording,
                ]);
            }
        },
        AppCommandView::StopRecording => {
            assert forall|i: int| 0 <= i < added.len() implies !(#[trigger] added[i] is SetPaused) by {
                assert(added[i] == w.effects[v.effects.len() + i]);
            }
            lemma_pause_signal_untouched(added, paused);
        },
        AppCommandView::RebindCapture(k) => {
            assert forall|i: int| 0 <= i < added.len() implies !(#[trigger] added[i] is SetPaused) by {
                assert(added[i] == w.effects[v.effects.len() + i]);
            }
            lemma_pause_signal_untouched(added, paused);
        },
        AppCommandView::PlaybackCompleteFor(g) => {
            assert forall|i: int| 0 <= i < added.len() implies !(#[trigger] added[i] is SetPaused) by {
                assert(added[i] == w.effects[v.effects.len() + i]);
            }
            lemma_pause_signal_untouched(added, paused);
        },
        AppCommandView::RecordedEvent(e) => {
            assert(added =~= Seq::<AppEffectView>::empty());
        },
        _ => {
            assert(added.len() > 0 ==> added.last() == w.effects.last());
        },
    }
}

/// Law: an accepted key becomes the hotkey of the action being rebound and
/// of no other: whichever of the four actions is rebound, its key afterwards
/// is `key` and the other three keys are as they were; the rebinding is
/// over, and the settings are saved with the new key and handed to the recorder.
pub proof fn lemma_rebind_binds_the_key(v: AppStateView, key: Seq<char>, id: Seq<char>)
    requires
        v.rebinding_action is Some,
        ({
            let a = v.rebinding_action->0;
            a == "record"@ || a == "play_stop"@ || a == "pause"@ || a == "emergency_stop"@
        }),
        key != "Escape"@,
        key != "Esc"@,
        !spec_is_modifier_key(key),
        !spec_hotkey_duplicate(v.config.hotkeys, v.rebinding_action->0, key),
    ensures
        ({
            let a = v.rebinding_action->0;
            let old_keys = v.config.hotkeys;
            let w = spec_handle_command(v, AppCommandView::RebindCapture(key), id);
            let keys = w.config.hotkeys;
            &&& keys.record == (if a == "record"@ { key } else { old_keys.record })
            &&& keys.play_stop == (if a == "play_stop"@ { key } else { old_keys.play_stop })
            &&& keys.pause == (if a == "pause"@ { key } else { old_keys.pause })
            &&& keys.emergency_stop == (if a == "emergency_stop"@ {
                key
            } else {
                old_keys.emergency_stop
            })
            &&& w.rebinding_action is None
            &&& w.effects.contains(AppEffectView::SaveConfig(w.config))
            &&& w.effects.contains(AppEffectView::SetRecorderHotkeys(keys))
        }),
{
    lemma_action_names_distinct();
    let w = spec_handle_command(v, AppCommandView::RebindCapture(key), id);
    let n = v.effects.len() as int;
    assert(w.effects[n + 1] == AppEffectView::SaveConfig(w.config));
    assert(w.effects[n + 2] == AppEffectView::SetRecorderHotkeys(w.config.hotkeys));
}

/// The value a stop signal has after `effects` are carried out, starting
/// from `stopped`: that of the last `SetStopFlag` among them, if any.
pub open spec fn stop_signal(effects: Seq<AppEffectView>, stopped: bool) -> bool
    decreases effects.len(),
{
    if effects.len() == 0 {
        stopped
    } else {
        match effects.last() {
            AppEffectView::SetStopFlag(s) => s,
            _ => stop_signal(effects.drop_last(), stopped),
        }
    }
}

/// The stop signal after the effects that `w` added on top of those of `v`.
pub open spec fn stop_signal_after(v: AppStateView, w: AppStateView, stopped: bool) -> bool {
    stop_signal(w.effects.subrange(v.effects.len() as int, w.effects.len() as int), stopped)
}

/// Law: the play/stop command ends a running or paused playback: the
/// application goes idle, the playback is told to stop and is no longer
/// paused, whatever the two signals were before.
pub proof fn lemma_play_stop_ends_playback(
    v: AppStateView,
    id: Seq<char>,
    stopped: bool,
    paused: bool,
)
    requires
        spec_is_playing_or_paused(v),
    ensures
        ({
            let w = spec_handle_command(v, AppCommandView::TogglePlay, id);
            &&& w.status is Idle
            &&& stop_signal_after(v, w, stopped)
            &&& !pause_signal_after(v, w, paused)
            &&& w.macros == v.macros
        }),
{
    let w = spec_handle_command(v, AppCommandView::TogglePlay, id);
    let added = w.effects.subrange(v.effects.len() as int, w.effects.len() as int);
    assert(added =~= seq![AppEffectView::SetStopFlag(true), AppEffectView::SetPaused(false)]);
    reveal_with_fuel(stop_signal, 3);
    reveal_with_fuel(pause_signal, 3);
}

/// Law: the emergency stop, from any state, leaves the application idle with
/// the playback told to stop, not paused and not marked as playing, the
/// recording ended, and no rebinding open.
pub proof fn lemma_emergency_stop_halts_playback(
    v: AppStateView,
    id: Seq<char>,
    stopped: bool,
    paused: bool,
)
    ensures
        ({
            let w = spec_handle_command(v, AppCommandView::EmergencyStop, id);
            let added = w.effects.subrange(v.effects.len() as int, w.effects.len() as int);
            &&& w.status is Idle
            &&& stop_signal_after(v, w, stopped)
            &&& !pause_signal_after(v, w, paused)
            &&& added.contains(AppEffectView::SetPlayingFlag(false))
            &&& added.contains(AppEffectView::EndRecording)
            &&& w.rebinding_action is None
        }),
{
    let w = spec_handle_command(v, AppCommandView::EmergencyStop, id);
    let added = w.effects.subrange(v.effects.len() as int, w.effects.len() as int);
    assert(added =~= seq![
        AppEffectView::SetStopFlag(true),
        AppEffectView::SetPaused(false),
        AppEffectView::SetPlayingFlag(false),
        AppEffectView::EndRecording,
        AppEffectView::SetRecorderRebinding(None),
    ]);
    assert(added[2] == AppEffectView::SetPlayingFlag(false));
    assert(added[3] == AppEffectView::EndRecording);
    reveal_with_fuel(stop_signal, 6);
    reveal_with_fuel(pause_signal, 6);
}

/// Law: deleting the macro at `index` (when its file was removed) takes out
/// exactly that macro: one fewer macro, those before it unchanged and those
/// after it moved down by one; the selection stays on the same position, or
/// on the new last macro, or is empty when none is left. When the file could
/// not be removed, or `index` is past the end, the library is unchanged.
pub proof fn lemma_delete_removes_exactly_one(
    v: AppStateView,
    index: usize,
    file_error: Option<Seq<char>>,
)
    ensures
        ({
            let w = spec_delete_macro(v, index, file_error);
            if index < v.macros.len() && file_error is None {
                &&& w.macros.len() == v.macros.len() - 1
                &&& forall|j: int| 0 <= j < index ==> #[trigger] w.macros[j] == v.macros[j]
                &&& forall|j: int| index <= j < w.macros.len() ==> #[trigger] w.macros[j]
                    == v.macros[j + 1]
                &&& w.selected_macro_index == (if w.macros.len() == 0 {
                    None
                } else if index < w.macros.len() {
                    Some(index)
                } else {
                    Some((w.macros.len() - 1) as usize)
                })
            } else {
                w.macros == v.macros
            }
        }),
{
}

/// Law: whenever a command takes a running or paused playback to idle, the
/// playback is told to stop; the one exception is the report that the
/// playback has itself finished, which has nothing left to stop.
pub proof fn lemma_leaving_playback_stops_it(
    v: AppStateView,
    command: AppCommandView,
    id: Seq<char>,
    stopped: bool,
)
    requires
        spec_is_playing_or_paused(v),
        !(command is PlaybackCompleteFor),
    ensures
        spec_handle_command(v, command, id).status is Idle ==> stop_signal_after(
            v,
            spec_handle_command(v, command, id),
            stopped,
        ),
{
    match command {
        AppCommandView::TogglePlay => {
            lemma_play_stop_ends_playback(v, id, stopped, true);
        },
        AppCommandView::EmergencyStop => {
            lemma_emergency_stop_halts_playback(v, id, stopped, true);
        },
        _ => {},
    }
}

} // verus!
