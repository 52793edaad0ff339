use repeatable::commands::AppCommand;
use repeatable::models::{Config, EventKind, InputEvent, MacroFile};
use repeatable::scheduler::LoopMode;
use repeatable::state::{AppEffect, AppState, AppStatus};

fn macro_with(name: &str, events: Vec<InputEvent>) -> MacroFile {
    let mut m = MacroFile::new(name.to_string());
    m.events = events;
    m
}

fn key(ts: u64, k: &str) -> InputEvent {
    InputEvent::new(ts, EventKind::KeyDown { key: k.to_string() })
}

fn state_with(macros: Vec<MacroFile>) -> AppState {
    AppState::new(Config::default(), macros)
}

fn saved_context(e: &AppEffect) -> Option<String> {
    match e {
        AppEffect::SaveMacro { failure_context, .. } => failure_context.clone(),
        _ => None,
    }
}

#[test]
fn new_state_selects_first_macro() {
    let s = state_with(vec![macro_with("a", vec![]), macro_with("b", vec![])]);
    assert_eq!(s.selected_macro_index, Some(0));
    assert_eq!(s.status, AppStatus::Idle);
    assert_eq!(s.speed_percent, 100);
    assert_eq!(s.loop_mode, LoopMode::Once);
    assert_eq!(s.loop_count_buffer, "2");
    assert!(s.compact_mode);
    assert!(s.effects.is_empty());
    let empty = state_with(vec![]);
    assert_eq!(empty.selected_macro_index, None);
    assert!(empty.selected_macro().is_none());
}

#[test]
fn selection_wraps_both_ways() {
    let mut s = state_with(vec![
        macro_with("a", vec![]),
        macro_with("b", vec![]),
        macro_with("c", vec![]),
    ]);
    s.select_previous_macro();
    assert_eq!(s.selected_macro_index, Some(2));
    s.select_next_macro();
    assert_eq!(s.selected_macro_index, Some(0));
    s.select_next_macro();
    assert_eq!(s.selected_macro_index, Some(1));
    s.rename_index = Some(1);
    s.delete_confirm_index = Some(1);
    s.select_previous_macro();
    assert_eq!(s.selected_macro_index, Some(0));
    assert_eq!(s.rename_index, None);
    assert_eq!(s.delete_confirm_index, None);
    let mut empty = state_with(vec![]);
    empty.selected_macro_index = Some(3);
    empty.select_next_macro();
    assert_eq!(empty.selected_macro_index, None);
}

#[test]
fn create_macro_selects_and_opens_rename() {
    let mut s = state_with(vec![macro_with("a", vec![])]);
    s.create_macro();
    assert_eq!(s.macros.len(), 2);
    assert_eq!(s.macros[1].name, "Untitled");
    assert_eq!(s.selected_macro_index, Some(1));
    assert_eq!(s.rename_index, Some(1));
    assert_eq!(s.rename_buffer, "Untitled");
    let effects = s.take_effects();
    assert_eq!(effects.len(), 1);
    assert_eq!(saved_context(&effects[0]).as_deref(), Some("Could not save new macro"));
    assert!(s.effects.is_empty());
}

#[test]
fn commit_rename_trims_and_saves() {
    let mut s = state_with(vec![macro_with("a", vec![])]);
    s.start_rename(0);
    assert_eq!(s.rename_buffer, "a");
    s.rename_buffer = "  New name \t".to_string();
    s.commit_rename();
    assert_eq!(s.macros[0].name, "New name");
    assert_eq!(s.rename_index, None);
    assert_eq!(s.rename_buffer, "");
    assert_eq!(saved_context(&s.effects[0]).as_deref(), Some("Could not rename macro"));
}

#[test]
fn commit_blank_rename_gives_untitled() {
    let mut s = state_with(vec![macro_with("a", vec![])]);
    s.start_rename(0);
    s.rename_buffer = "   ".to_string();
    s.commit_rename();
    assert_eq!(s.macros[0].name, "Untitled");
}

#[test]
fn start_rename_out_of_range_does_nothing() {
    let mut s = state_with(vec![macro_with("a", vec![])]);
    s.start_rename(4);
    assert_eq!(s.rename_index, None);
    s.commit_rename();
    assert!(s.effects.is_empty());
}

#[test]
fn duplicate_copies_events_under_new_id() {
    let mut s = state_with(vec![macro_with("demo", vec![key(0, "KeyA"), key(9, "KeyB")])]);
    s.duplicate_macro(0);
    assert_eq!(s.macros.len(), 2);
    assert_eq!(s.macros[1].name, "demo (copy)");
    assert_eq!(s.macros[1].events.len(), 2);
    assert_ne!(s.macros[1].id, s.macros[0].id);
    assert_eq!(s.selected_macro_index, Some(1));
    s.duplicate_macro(9);
    assert_eq!(s.macros.len(), 2);
}

#[test]
fn delete_moves_selection() {
    let mut s = state_with(vec![macro_with("a", vec![]), macro_with("b", vec![])]);
    s.delete_macro(1, None);
    assert_eq!(s.macros.len(), 1);
    assert_eq!(s.selected_macro_index, Some(0));
    s.delete_macro(0, None);
    assert!(s.macros.is_empty());
    assert_eq!(s.selected_macro_index, None);
}

#[test]
fn delete_failure_keeps_macro_and_reports() {
    let mut s = state_with(vec![macro_with("a", vec![])]);
    s.delete_macro(0, Some("permission denied".to_string()));
    assert_eq!(s.macros.len(), 1);
    assert_eq!(s.status, AppStatus::Error("Could not delete macro: permission denied".to_string()));
    assert_eq!(s.last_error.as_deref(), Some("Could not delete macro: permission denied"));
}

#[test]
fn import_adds_macro_and_renames_taken_id() {
    let existing = macro_with("a", vec![]);
    let mut copy = macro_with("a again", vec![key(1, "KeyX")]);
    copy.id = existing.id.clone();
    let mut s = state_with(vec![existing]);
    s.import_macro(Some(copy));
    assert_eq!(s.macros.len(), 2);
    assert_ne!(s.macros[1].id, s.macros[0].id);
    assert_eq!(s.selected_macro_index, Some(1));
    assert_eq!(saved_context(&s.effects[0]).as_deref(), Some("Could not save imported macro"));
    let fresh = macro_with("b", vec![]);
    let fresh_id = fresh.id.clone();
    s.import_macro(Some(fresh));
    assert_eq!(s.macros[2].id, fresh_id);
}

#[test]
fn import_rejects_other_versions_and_unreadable_files() {
    let mut s = state_with(vec![]);
    let mut old = macro_with("old", vec![]);
    old.version = 2;
    s.import_macro(Some(old));
    assert!(s.macros.is_empty());
    assert_eq!(s.status, AppStatus::Error("Invalid macro file".to_string()));
    s.import_macro(None);
    assert_eq!(s.last_error.as_deref(), Some("Invalid macro file"));
}

#[test]
fn export_file_name_is_sanitised() {
    let s = state_with(vec![macro_with("a/b: c", vec![])]);
    assert_eq!(s.export_file_name(0).as_deref(), Some("a_b_ c.json"));
    assert_eq!(s.export_file_name(1), None);
}

#[test]
fn recording_round_trip_trims_dead_time() {
    let mut s = state_with(vec![macro_with("a", vec![])]);
    s.handle_command(AppCommand::StartRecording);
    assert_eq!(s.status, AppStatus::Recording);
    assert!(s.is_recording() && s.is_busy());
    let effects = s.take_effects();
    assert!(matches!(effects[0], AppEffect::SetStopFlag(false)));
    assert!(matches!(effects[1], AppEffect::SetPaused(false)));
    assert!(matches!(effects[2], AppEffect::BeginRecording));
    s.handle_command(AppCommand::RecordedEvent(key(500, "KeyA")));
    s.handle_command(AppCommand::RecordedEvent(key(750, "KeyB")));
    assert_eq!(s.status_text(), "2 events");
    assert_eq!(s.selected_events().len(), 2);
    s.handle_command(AppCommand::StopRecording);
    assert_eq!(s.status, AppStatus::Idle);
    assert!(s.recording_buffer.is_empty());
    let stamps: Vec<u64> = s.macros[0].events.iter().map(|e| e.timestamp_ms).collect();
    assert_eq!(stamps, vec![0, 250]);
    let effects = s.take_effects();
    assert_eq!(saved_context(&effects[0]).as_deref(), Some("Could not save recording"));
    assert!(matches!(effects[1], AppEffect::EndRecording));
}

#[test]
fn record_command_toggles_and_creates_a_macro_when_library_is_empty() {
    let mut s = state_with(vec![]);
    s.handle_command(AppCommand::StartRecording);
    assert_eq!(s.macros.len(), 1);
    assert_eq!(s.status, AppStatus::Recording);
    assert!(saved_context(&s.effects[0]).is_none());
    s.handle_command(AppCommand::StartRecording);
    assert_eq!(s.status, AppStatus::Idle);
}

#[test]
fn events_outside_recording_are_dropped() {
    let mut s = state_with(vec![macro_with("a", vec![])]);
    s.handle_command(AppCommand::RecordedEvent(key(1, "KeyA")));
    assert!(s.recording_buffer.is_empty());
}

#[test]
fn playback_starts_pauses_and_completes() {
    let mut s = state_with(vec![macro_with("a", vec![key(0, "KeyA"), key(10, "KeyB")])]);
    s.loop_mode = LoopMode::Count(3);
    s.speed_percent = 200;
    s.handle_command(AppCommand::TogglePlay);
    assert_eq!(s.status, AppStatus::Playing);
    assert_eq!(s.playback_total_events, 2);
    assert_eq!(s.playback_generation, 1);
    let effects = s.take_effects();
    match &effects[2] {
        AppEffect::StartPlayback { events, loop_mode, speed_percent, generation } => {
            assert_eq!(events.len(), 2);
            assert_eq!(*loop_mode, LoopMode::Count(3));
            assert_eq!(*speed_percent, 200);
            assert_eq!(*generation, 1);
        }
        _ => panic!("expected a playback start"),
    }
    s.handle_command(AppCommand::TogglePause);
    assert_eq!(s.status, AppStatus::Paused);
    s.handle_command(AppCommand::TogglePause);
    assert_eq!(s.status, AppStatus::Playing);
    s.handle_command(AppCommand::PlaybackCompleteFor(0));
    assert_eq!(s.status, AppStatus::Playing);
    s.handle_command(AppCommand::PlaybackCompleteFor(1));
    assert_eq!(s.status, AppStatus::Idle);
}

#[test]
fn play_needs_events_and_stop_ends_playback() {
    let mut empty = state_with(vec![macro_with("a", vec![])]);
    empty.handle_command(AppCommand::TogglePlay);
    assert_eq!(empty.status, AppStatus::Idle);
    assert!(!empty.has_playable_macro());
    let mut s = state_with(vec![macro_with("a", vec![key(0, "KeyA")])]);
    assert!(s.has_playable_macro());
    s.handle_command(AppCommand::TogglePlay);
    s.take_effects();
    s.handle_command(AppCommand::TogglePlay);
    assert_eq!(s.status, AppStatus::Idle);
    assert!(matches!(s.effects[0], AppEffect::SetStopFlag(true)));
}

#[test]
fn generation_wraps() {
    let mut s = state_with(vec![macro_with("a", vec![key(0, "KeyA")])]);
    s.playback_generation = u64::MAX;
    s.handle_command(AppCommand::TogglePlay);
    assert_eq!(s.playback_generation, 0);
}

#[test]
fn emergency_stop_resets_everything() {
    let mut s = state_with(vec![macro_with("a", vec![key(0, "KeyA")])]);
    s.handle_command(AppCommand::TogglePlay);
    s.set_rebinding_action(Some("pause".to_string()));
    s.rename_index = Some(0);
    s.take_effects();
    s.handle_command(AppCommand::EmergencyStop);
    assert_eq!(s.status, AppStatus::Idle);
    assert_eq!(s.rebinding_action, None);
    assert_eq!(s.rename_index, None);
    assert!(matches!(s.effects[2], AppEffect::SetPlayingFlag(false)));
    assert!(matches!(s.effects[3], AppEffect::EndRecording));
}

#[test]
fn rebind_accepts_free_key_and_saves() {
    let mut s = state_with(vec![]);
    s.set_rebinding_action(Some("pause".to_string()));
    s.take_effects();
    s.handle_command(AppCommand::RebindCapture("KeyP".to_string()));
    assert_eq!(s.config.hotkeys.pause, "KeyP");
    assert_eq!(s.hotkey_value("pause"), "KeyP");
    assert_eq!(s.rebinding_action, None);
    assert!(matches!(s.effects[1], AppEffect::SaveConfig(_)));
}

#[test]
fn rebind_refuses_modifiers_and_taken_keys() {
    let mut s = state_with(vec![]);
    s.set_rebinding_action(Some("pause".to_string()));
    s.handle_command(AppCommand::RebindCapture("ShiftLeft".to_string()));
    assert_eq!(
        s.duplicate_hotkey_warning.as_deref(),
        Some("Modifier keys cannot be used as hotkeys")
    );
    assert_eq!(s.config.hotkeys.pause, "F11");
    s.handle_command(AppCommand::RebindCapture("F8".to_string()));
    assert_eq!(s.duplicate_hotkey_warning.as_deref(), Some("F8 is already assigned"));
    assert_eq!(s.rebinding_action.as_deref(), Some("pause"));
    s.handle_command(AppCommand::RebindCapture("F11".to_string()));
    assert_eq!(s.config.hotkeys.pause, "F11");
    assert_eq!(s.rebinding_action, None);
}

#[test]
fn rebind_escape_cancels() {
    let mut s = state_with(vec![]);
    s.set_rebinding_action(Some("record".to_string()));
    s.handle_command(AppCommand::RebindCapture("Esc".to_string()));
    assert_eq!(s.rebinding_action, None);
    assert_eq!(s.config.hotkeys.record, "F8");
}

#[test]
fn local_keys_trigger_hotkeys_or_are_recorded() {
    let mut s = state_with(vec![macro_with("a", vec![])]);
    s.handle_local_key_press("F8".to_string(), None);
    assert_eq!(s.status, AppStatus::Recording);
    s.handle_local_key_press("KeyA".to_string(), Some(12));
    s.handle_local_key_release("KeyA".to_string(), Some(20));
    s.handle_local_key_release("F8".to_string(), Some(21));
    s.handle_local_key_press("KeyB".to_string(), None);
    assert_eq!(s.recording_buffer.len(), 2);
    assert_eq!(s.recording_buffer[1].label(), "Key KeyA up");
}

#[test]
fn local_keys_go_to_rebinding() {
    let mut s = state_with(vec![]);
    s.set_rebinding_action(Some("record".to_string()));
    s.handle_local_key_press("KeyR".to_string(), Some(1));
    assert_eq!(s.config.hotkeys.record, "KeyR");
}

#[test]
fn status_texts() {
    let mut s = state_with(vec![macro_with("a", vec![key(0, "KeyA")])]);
    assert_eq!(s.status_text(), "Idle");
    assert_eq!(s.compact_status_text(), "Idle");
    assert_eq!(s.status_bar_text(), "Idle — F8 to record · F10 to play");
    s.loop_mode = LoopMode::Count(5);
    s.handle_command(AppCommand::TogglePlay);
    assert_eq!(s.status_text(), "Playing");
    assert_eq!(s.compact_status_text(), "×5");
    s.report_failure("Could not save macro", "disk full");
    assert_eq!(s.status_text(), "Could not save macro: disk full");
    assert_eq!(s.compact_status_text(), "—");
    assert!(s.is_idle());
}

#[test]
fn speed_and_loop_buttons_cycle() {
    let mut s = state_with(vec![]);
    let mut seen = Vec::new();
    for _ in 0..5 {
        s.cycle_speed();
        seen.push(s.speed_percent);
    }
    assert_eq!(seen, vec![200, 400, 25, 50, 100]);
    s.speed_percent = 130;
    s.cycle_speed();
    assert_eq!(s.speed_percent, 200);
    s.cycle_compact_loop();
    assert_eq!(s.loop_mode, LoopMode::Count(2));
    s.cycle_compact_loop();
    assert_eq!(s.loop_mode, LoopMode::Count(5));
    s.cycle_compact_loop();
    assert_eq!(s.loop_mode, LoopMode::Infinite);
    s.cycle_compact_loop();
    assert_eq!(s.loop_mode, LoopMode::Once);
    s.loop_mode = LoopMode::Count(7);
    s.cycle_compact_loop();
    assert_eq!(s.loop_mode, LoopMode::Once);
}

#[test]
fn loop_dropdown_text_tracks_count() {
    let mut s = state_with(vec![]);
    assert_eq!(s.loop_dropdown_text(), "Once");
    s.loop_mode = LoopMode::Count(10);
    assert_eq!(s.loop_dropdown_text(), "10×");
    s.loop_mode = LoopMode::Count(7);
    assert_eq!(s.loop_dropdown_text(), "7×");
    assert_eq!(s.loop_count_buffer, "7");
}

#[test]
fn settings_changes_ask_to_save() {
    let mut s = state_with(vec![]);
    s.toggle_always_on_top();
    assert!(!s.config.always_on_top);
    s.set_start_compact(false);
    assert!(!s.config.start_compact);
    assert_eq!(s.effects.len(), 4);
    assert!(matches!(s.effects[1], AppEffect::SetRecorderHotkeys(_)));
    assert_eq!(s.hotkey_value("unknown"), "");
}

#[test]
fn selected_macro_mut_changes_library() {
    let mut s = state_with(vec![macro_with("a", vec![])]);
    if let Some(m) = s.selected_macro_mut() {
        m.name = "changed".to_string();
    }
    assert_eq!(s.macros[0].name, "changed");
    s.selected_macro_index = Some(5);
    assert!(s.selected_macro_mut().is_none());
}

#[test]
fn save_selected_macro_asks_to_save() {
    let mut s = state_with(vec![macro_with("a", vec![])]);
    s.save_selected_macro();
    assert_eq!(saved_context(&s.effects[0]).as_deref(), Some("Could not save macro"));
    let mut none = state_with(vec![]);
    none.save_selected_macro();
    assert!(none.effects.is_empty());
}

#[test]
fn next_then_previous_restores_selection() {
    let mut s = state_with(vec![
        macro_with("a", vec![]),
        macro_with("b", vec![]),
        macro_with("c", vec![]),
    ]);
    for start in 0..3 {
        s.selected_macro_index = Some(start);
        s.select_next_macro();
        s.select_previous_macro();
        assert_eq!(s.selected_macro_index, Some(start));
        s.select_previous_macro();
        s.select_next_macro();
        assert_eq!(s.selected_macro_index, Some(start));
    }
}

#[test]
fn recorded_events_are_what_gets_played() {
    let mut s = state_with(vec![macro_with("a", vec![])]);
    s.loop_mode = LoopMode::Infinite;
    s.handle_command(AppCommand::StartRecording);
    s.handle_command(AppCommand::RecordedEvent(key(1_000, "KeyA")));
    s.handle_command(AppCommand::RecordedEvent(InputEvent::new(
        1_030,
        EventKind::MouseMove { x: 4, y: 5 },
    )));
    s.handle_command(AppCommand::StopRecording);
    s.take_effects();
    s.handle_command(AppCommand::TogglePlay);
    let effects = s.take_effects();
    match effects.last() {
        Some(AppEffect::StartPlayback { events, loop_mode, generation, .. }) => {
            let labels: Vec<String> = events.iter().map(|e| e.label()).collect();
            assert_eq!(labels, vec!["Key KeyA down", "Mouse move to 4, 5"]);
            let stamps: Vec<u64> = events.iter().map(|e| e.timestamp_ms).collect();
            assert_eq!(stamps, vec![0, 30]);
            assert_eq!(*loop_mode, LoopMode::Infinite);
            s.handle_command(AppCommand::PlaybackCompleteFor(*generation));
            assert_eq!(s.status, AppStatus::Idle);
        }
        _ => panic!("expected a playback start"),
    }
}

#[test]
fn button_rules_follow_status() {
    let mut s = state_with(vec![macro_with("a", vec![key(0, "KeyA")])]);
    assert!(s.can_record() && s.can_play() && s.can_save() && s.can_change_selection());
    assert!(matches!(s.record_command(), AppCommand::StartRecording));
    s.handle_command(AppCommand::StartRecording);
    assert!(s.can_record() && !s.can_play() && !s.can_save() && !s.can_change_selection());
    assert!(matches!(s.record_command(), AppCommand::StopRecording));
    s.handle_command(AppCommand::StopRecording);
    s.handle_command(AppCommand::RecordedEvent(key(0, "KeyA")));
    s.macros[0].events.push(key(0, "KeyA"));
    s.handle_command(AppCommand::TogglePlay);
    assert!(!s.can_record() && s.can_play() && !s.can_save() && !s.can_change_selection());
    s.handle_command(AppCommand::TogglePause);
    assert!(s.can_change_selection() && s.can_play());
    let empty = state_with(vec![macro_with("b", vec![])]);
    assert!(!empty.can_play() && !empty.can_save());
}

#[test]
fn library_clicks_and_window_mode() {
    let mut s = state_with(vec![macro_with("a", vec![]), macro_with("b", vec![])]);
    s.select_macro(1);
    assert_eq!(s.selected_macro_index, Some(1));
    s.confirm_delete(1);
    assert_eq!(s.delete_confirm_index, Some(1));
    s.cancel_delete();
    assert_eq!(s.delete_confirm_index, None);
    s.handle_command(AppCommand::StartRecording);
    s.select_macro(0);
    assert_eq!(s.selected_macro_index, Some(1));
    s.mark_positioned();
    assert!(s.positioned);
    s.set_compact_mode(false);
    assert!(!s.compact_mode && !s.positioned);
    s.set_show_settings(true);
    assert!(s.show_settings);
}

#[test]
fn pause_signal_follows_paused_status() {
    let mut s = state_with(vec![macro_with("a", vec![key(0, "KeyA")])]);
    s.handle_command(AppCommand::TogglePlay);
    s.take_effects();
    s.handle_command(AppCommand::TogglePause);
    assert!(matches!(s.take_effects().last(), Some(AppEffect::SetPaused(true))));
    assert_eq!(s.status, AppStatus::Paused);
    s.handle_command(AppCommand::EmergencyStop);
    let effects = s.take_effects();
    assert!(matches!(effects[1], AppEffect::SetPaused(false)));
    assert_eq!(s.status, AppStatus::Idle);
}
