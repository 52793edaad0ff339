use repeatable::models::{
    Config, EventKind, HotkeyConfig, InputEvent, MacroFile, MouseButton, TimelineColorHint,
};

fn event(kind: EventKind) -> InputEvent {
    InputEvent::new(5, kind)
}

#[test]
fn label_of_mouse_move_shows_signed_coordinates() {
    let e = event(EventKind::MouseMove { x: 120, y: -45 });
    assert_eq!(e.label(), "Mouse move to 120, -45");
}

#[test]
fn label_of_extreme_coordinates() {
    let e = event(EventKind::MouseMove { x: i32::MIN, y: i32::MAX });
    assert_eq!(e.label(), "Mouse move to -2147483648, 2147483647");
}

#[test]
fn label_of_buttons_uses_button_names() {
    assert_eq!(
        event(EventKind::MouseDown { button: MouseButton::Left }).label(),
        "Mouse left down"
    );
    assert_eq!(
        event(EventKind::MouseUp { button: MouseButton::Middle }).label(),
        "Mouse middle up"
    );
    assert_eq!(MouseButton::Right.display_name(), "right");
}

#[test]
fn label_of_scroll_and_keys() {
    assert_eq!(
        event(EventKind::Scroll { delta_x: 0, delta_y: -3 }).label(),
        "Scroll Δx 0, Δy -3"
    );
    assert_eq!(
        event(EventKind::KeyDown { key: "KeyA".to_string() }).label(),
        "Key KeyA down"
    );
    assert_eq!(
        event(EventKind::KeyUp { key: "Space".to_string() }).label(),
        "Key Space up"
    );
}

#[test]
fn color_hints_group_event_kinds() {
    assert_eq!(
        event(EventKind::MouseMove { x: 0, y: 0 }).color_hint(),
        TimelineColorHint::Mouse
    );
    assert_eq!(
        event(EventKind::MouseDown { button: MouseButton::Left }).color_hint(),
        TimelineColorHint::Mouse
    );
    assert_eq!(
        event(EventKind::Scroll { delta_x: 1, delta_y: 0 }).color_hint(),
        TimelineColorHint::Scroll
    );
    assert_eq!(
        event(EventKind::KeyUp { key: "F1".to_string() }).color_hint(),
        TimelineColorHint::Key
    );
}

#[test]
fn new_macro_is_empty_version_one_with_uuid_id() {
    let m = MacroFile::new("Demo".to_string());
    assert_eq!(m.name, "Demo");
    assert_eq!(m.version, 1);
    assert!(m.events.is_empty());
    let id: Vec<char> = m.id.chars().collect();
    assert_eq!(id.len(), 36);
    for (i, c) in id.iter().enumerate() {
        if i == 8 || i == 13 || i == 18 || i == 23 {
            assert_eq!(*c, '-');
        } else {
            assert!(c.is_ascii_hexdigit() && !c.is_ascii_uppercase());
        }
    }
    assert_eq!(id[14], '4');
    let other = MacroFile::new("Demo".to_string());
    assert_ne!(m.id, other.id);
}

#[test]
fn default_config_binds_function_keys() {
    let c = Config::default();
    assert!(c.always_on_top);
    assert!(c.start_compact);
    let h = HotkeyConfig::default();
    assert_eq!(h.record, "F8");
    assert_eq!(h.play_stop, "F10");
    assert_eq!(h.pause, "F11");
    assert_eq!(h.emergency_stop, "F12");
    assert_eq!(c.hotkeys.record, h.record);
}

#[test]
fn clone_keeps_event_fields() {
    let e = InputEvent::new(42, EventKind::KeyDown { key: "KeyQ".to_string() });
    let c = e.clone();
    assert_eq!(c.timestamp_ms, 42);
    assert_eq!(c.label(), "Key KeyQ down");
}
