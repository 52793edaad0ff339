use repeatable::commands::AppCommand;
use repeatable::hotkeys::{command_for_key_press, is_hotkey};
use repeatable::models::{EventKind, HotkeyConfig, MouseButton};
use repeatable::recorder::{
    handle_event, i64_to_i32, process_key_press, process_key_release, timestamp_ms,
    CapturedInput, RecorderControlHandle,
};

fn recorded(c: Option<AppCommand>) -> Option<(u64, EventKind)> {
    match c {
        Some(AppCommand::RecordedEvent(e)) => Some((e.timestamp_ms, e.kind)),
        _ => None,
    }
}

#[test]
fn hotkeys_map_to_commands() {
    let h = HotkeyConfig::default();
    assert!(matches!(command_for_key_press("F8", &h), Some(AppCommand::StartRecording)));
    assert!(matches!(command_for_key_press("F10", &h), Some(AppCommand::TogglePlay)));
    assert!(matches!(command_for_key_press("F11", &h), Some(AppCommand::TogglePause)));
    assert!(matches!(command_for_key_press("F12", &h), Some(AppCommand::EmergencyStop)));
    assert!(command_for_key_press("KeyA", &h).is_none());
    assert!(is_hotkey("F11", &h));
    assert!(!is_hotkey("F9", &h));
}

#[test]
fn first_binding_wins_when_keys_repeat() {
    let h = HotkeyConfig {
        record: "KeyR".to_string(),
        play_stop: "KeyR".to_string(),
        pause: "F11".to_string(),
        emergency_stop: "F12".to_string(),
    };
    assert!(matches!(command_for_key_press("KeyR", &h), Some(AppCommand::StartRecording)));
}

const MS: u64 = 1_000_000;

#[test]
fn timestamps_count_from_the_recording_origin() {
    let mut handle = RecorderControlHandle::new(HotkeyConfig::default());
    assert_eq!(handle.recording_timestamp_ms(1_000 * MS), None);
    handle.begin_recording(1_000 * MS);
    assert_eq!(handle.recording_timestamp_ms(1_250 * MS), Some(250));
    assert_eq!(handle.recording_timestamp_ms(900 * MS), Some(0));
    assert_eq!(timestamp_ms(&handle.snapshot(), 1_000 * MS), Some(0));
    handle.end_recording();
    assert_eq!(handle.recording_timestamp_ms(2_000 * MS), None);
}

#[test]
fn timestamps_round_down_the_elapsed_time() {
    let mut handle = RecorderControlHandle::new(HotkeyConfig::default());
    handle.begin_recording(1_900_000);
    assert_eq!(handle.recording_timestamp_ms(2_100_000), Some(0));
    assert_eq!(handle.recording_timestamp_ms(2_899_999), Some(0));
    assert_eq!(handle.recording_timestamp_ms(2_900_000), Some(1));
}

#[test]
fn key_press_goes_to_rebinding_first() {
    let mut handle = RecorderControlHandle::new(HotkeyConfig::default());
    handle.set_rebinding_action(Some("pause".to_string()));
    let c = process_key_press(&handle.snapshot(), false, "F8".to_string(), 0);
    assert!(matches!(c, Some(AppCommand::RebindCapture(k)) if k == "F8"));
    assert!(process_key_release(&handle.snapshot(), false, "KeyA".to_string(), 0).is_none());
}

#[test]
fn key_press_records_only_while_recording_and_not_playing() {
    let mut handle = RecorderControlHandle::new(HotkeyConfig::default());
    assert!(process_key_press(&handle.snapshot(), false, "KeyA".to_string(), 10).is_none());
    handle.begin_recording(10 * MS);
    match recorded(process_key_press(&handle.snapshot(), false, "KeyA".to_string(), 35 * MS)) {
        Some((25, EventKind::KeyDown { key })) => assert_eq!(key, "KeyA"),
        _ => panic!("expected a recorded key-down"),
    }
    assert!(process_key_press(&handle.snapshot(), true, "KeyA".to_string(), 35 * MS).is_none());
    assert!(matches!(
        process_key_press(&handle.snapshot(), true, "F12".to_string(), 35 * MS),
        Some(AppCommand::EmergencyStop)
    ));
    assert!(process_key_release(&handle.snapshot(), false, "F8".to_string(), 40 * MS).is_none());
    match recorded(process_key_release(&handle.snapshot(), false, "KeyA".to_string(), 40 * MS)) {
        Some((30, EventKind::KeyUp { key })) => assert_eq!(key, "KeyA"),
        _ => panic!("expected a recorded key-up"),
    }
}

#[test]
fn mouse_moves_are_throttled() {
    let mut handle = RecorderControlHandle::new(HotkeyConfig::default());
    handle.begin_recording(100 * MS);
    let first = handle_event(&mut handle, false, 110 * MS, CapturedInput::MouseMove { x: 1, y: 2 });
    assert!(matches!(recorded(first), Some((10, EventKind::MouseMove { x: 1, y: 2 }))));
    let too_soon = handle_event(
        &mut handle,
        false,
        126 * MS - 1,
        CapturedInput::MouseMove { x: 3, y: 4 },
    );
    assert!(too_soon.is_none());
    let later = handle_event(&mut handle, false, 126 * MS, CapturedInput::MouseMove { x: 5, y: 6 });
    assert!(matches!(recorded(later), Some((26, EventKind::MouseMove { x: 5, y: 6 }))));
    assert_eq!(handle.snapshot().last_mouse_time_ns, Some(126 * MS));
}

#[test]
fn mouse_events_are_ignored_while_playing() {
    let mut handle = RecorderControlHandle::new(HotkeyConfig::default());
    handle.begin_recording(0);
    assert!(handle_event(&mut handle, true, 5, CapturedInput::MouseMove { x: 1, y: 1 }).is_none());
    assert!(handle_event(
        &mut handle,
        true,
        5,
        CapturedInput::ButtonPress(Some(MouseButton::Left))
    )
    .is_none());
    assert_eq!(handle.snapshot().last_mouse_time_ns, None);
}

#[test]
fn buttons_and_wheel_are_recorded() {
    let mut handle = RecorderControlHandle::new(HotkeyConfig::default());
    handle.begin_recording(0);
    assert!(matches!(
        recorded(handle_event(&mut handle, false, 7 * MS, CapturedInput::ButtonPress(Some(MouseButton::Right)))),
        Some((7, EventKind::MouseDown { button: MouseButton::Right }))
    ));
    assert!(matches!(
        recorded(handle_event(&mut handle, false, 8 * MS, CapturedInput::ButtonRelease(Some(MouseButton::Left)))),
        Some((8, EventKind::MouseUp { button: MouseButton::Left }))
    ));
    assert!(handle_event(&mut handle, false, 9 * MS, CapturedInput::ButtonPress(None)).is_none());
    assert!(matches!(
        recorded(handle_event(
            &mut handle,
            false,
            9 * MS,
            CapturedInput::Wheel { delta_x: i64::MAX, delta_y: -1 }
        )),
        Some((9, EventKind::Scroll { delta_x: i32::MAX, delta_y: -1 }))
    ));
}

#[test]
fn wheel_deltas_are_clamped() {
    assert_eq!(i64_to_i32(5), 5);
    assert_eq!(i64_to_i32(-5), -5);
    assert_eq!(i64_to_i32(i64::MAX), i32::MAX);
    assert_eq!(i64_to_i32(i64::MIN), i32::MIN);
    assert_eq!(i64_to_i32(i32::MIN as i64 - 1), i32::MIN);
}

#[test]
fn recorder_settings_are_kept() {
    let mut handle = RecorderControlHandle::new(HotkeyConfig::default());
    let mut h = HotkeyConfig::default();
    h.pause = "KeyP".to_string();
    handle.set_hotkeys(h);
    assert_eq!(handle.snapshot().hotkeys.pause, "KeyP");
    handle.update_last_mouse_time(77);
    assert_eq!(handle.snapshot().last_mouse_time_ns, Some(77));
    handle.begin_recording(3);
    assert_eq!(handle.snapshot().last_mouse_time_ns, None);
    assert_eq!(handle.snapshot().recording_origin_ns, Some(3));
}
