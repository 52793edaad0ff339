use repeatable::models::{EventKind, InputEvent, MacroFile, MouseButton};
use repeatable::playback::{
    dispatch_actions, key_to_scancode, scaled_delay_ns, DeviceAction, Playback, PlaybackStep,
};
use repeatable::scheduler::LoopMode;
use repeatable::storage::{arrange_loaded_macros, macro_file_name};

fn ev(ts: u64, kind: EventKind) -> InputEvent {
    InputEvent::new(ts, kind)
}

fn run(mut p: Playback, limit: usize) -> Vec<(u64, u64)> {
    let mut out = Vec::new();
    for _ in 0..limit {
        match p.advance() {
            PlaybackStep::Dispatch { event, delta_ms } => out.push((event.timestamp_ms, delta_ms)),
            PlaybackStep::Finished => return out,
        }
    }
    out
}

fn three_events() -> Vec<InputEvent> {
    vec![
        ev(0, EventKind::KeyDown { key: "KeyA".to_string() }),
        ev(40, EventKind::KeyUp { key: "KeyA".to_string() }),
        ev(100, EventKind::MouseMove { x: 1, y: 1 }),
    ]
}

#[test]
fn recorded_keys_sharing_a_keypad_code_replay_apart() {
    assert_eq!(key_to_scancode("NumLock"), Some(0x45));
    assert_ne!(key_to_scancode("Pause"), key_to_scancode("NumLock"));
    assert_eq!(key_to_scancode("ControlLeft"), Some(0x1D));
    assert_eq!(key_to_scancode("ControlRight"), Some(0xFF1D));
    assert_ne!(key_to_scancode("Return"), key_to_scancode("KpReturn"));
    assert_ne!(key_to_scancode("Home"), key_to_scancode("Kp7"));
}

#[test]
fn scancodes_of_plain_and_extended_keys() {
    assert_eq!(key_to_scancode("Escape"), Some(0x01));
    assert_eq!(key_to_scancode("Esc"), Some(0x01));
    assert_eq!(key_to_scancode("KeyA"), Some(0x1E));
    assert_eq!(key_to_scancode("F12"), Some(0x58));
    assert_eq!(key_to_scancode("Grave"), Some(0x29));
    assert_eq!(key_to_scancode("UpArrow"), Some(0xFF48));
    assert_eq!(key_to_scancode("ArrowUp"), Some(0xFF48));
    assert_eq!(key_to_scancode("Pause"), Some(0xFF45));
    assert_eq!(key_to_scancode("Unknown"), None);
}

#[test]
fn dispatch_actions_per_event_kind() {
    assert_eq!(
        dispatch_actions(&ev(0, EventKind::MouseMove { x: 3, y: 4 })),
        vec![DeviceAction::MoveMouse { x: 3, y: 4 }]
    );
    assert_eq!(
        dispatch_actions(&ev(0, EventKind::MouseUp { button: MouseButton::Middle })),
        vec![DeviceAction::Button { button: MouseButton::Middle, press: false }]
    );
    assert_eq!(
        dispatch_actions(&ev(0, EventKind::Scroll { delta_x: 2, delta_y: -1 })),
        vec![
            DeviceAction::Scroll { amount: 2, horizontal: true },
            DeviceAction::Scroll { amount: -1, horizontal: false }
        ]
    );
    assert_eq!(dispatch_actions(&ev(0, EventKind::Scroll { delta_x: 0, delta_y: 0 })), vec![]);
    assert_eq!(
        dispatch_actions(&ev(0, EventKind::KeyDown { key: "Space".to_string() })),
        vec![DeviceAction::Key { scancode: 0x39, press: true }]
    );
    assert_eq!(dispatch_actions(&ev(0, EventKind::KeyUp { key: "Nope".to_string() })), vec![]);
}

#[test]
fn delays_scale_with_speed() {
    assert_eq!(scaled_delay_ns(100, 100), 100_000_000);
    assert_eq!(scaled_delay_ns(100, 200), 50_000_000);
    assert_eq!(scaled_delay_ns(100, 25), 400_000_000);
    assert_eq!(scaled_delay_ns(1, 200), 500_000);
    assert_eq!(scaled_delay_ns(3, 400), 750_000);
    assert_eq!(scaled_delay_ns(7, 0), 700_000_000);
    assert_eq!(scaled_delay_ns(1, 3), 33_333_333);
    assert_eq!(
        scaled_delay_ns(u64::MAX, 1),
        u64::MAX as u128 * 100_000_000
    );
}

#[test]
fn playback_once_replays_each_event_with_gaps() {
    let steps = run(Playback::new(three_events(), LoopMode::Once), 100);
    assert_eq!(steps, vec![(0, 0), (40, 40), (100, 60)]);
}

#[test]
fn playback_count_repeats_and_restarts_gaps() {
    let steps = run(Playback::new(three_events(), LoopMode::Count(3)), 100);
    assert_eq!(steps.len(), 9);
    assert_eq!(steps[3], (0, 0));
    assert_eq!(steps[8], (100, 60));
}

#[test]
fn playback_count_zero_still_plays_once() {
    assert_eq!(run(Playback::new(three_events(), LoopMode::Count(0)), 100).len(), 3);
    assert_eq!(run(Playback::new(three_events(), LoopMode::Count(1)), 100).len(), 3);
}

#[test]
fn playback_infinite_keeps_going_and_empty_ends_at_once() {
    assert_eq!(run(Playback::new(three_events(), LoopMode::Infinite), 50).len(), 50);
    assert!(run(Playback::new(Vec::new(), LoopMode::Infinite), 50).is_empty());
}

#[test]
fn stopped_playback_replays_nothing_more() {
    let mut p = Playback::new(three_events(), LoopMode::Infinite);
    assert!(matches!(p.advance(), PlaybackStep::Dispatch { .. }));
    p.stop();
    for _ in 0..5 {
        assert!(matches!(p.advance(), PlaybackStep::Finished));
    }
}

#[test]
fn playback_stays_finished() {
    let mut p = Playback::new(three_events(), LoopMode::Once);
    for _ in 0..3 {
        assert!(matches!(p.advance(), PlaybackStep::Dispatch { .. }));
    }
    assert!(matches!(p.advance(), PlaybackStep::Finished));
    assert!(matches!(p.advance(), PlaybackStep::Finished));
}

#[test]
fn macro_file_names_end_in_json() {
    assert_eq!(macro_file_name("abc-123"), "abc-123.json");
}

fn named(name: &str, version: u8) -> MacroFile {
    let mut m = MacroFile::new(name.to_string());
    m.version = version;
    m
}

#[test]
fn loaded_macros_keep_current_format_sorted_by_lowercase_name() {
    let arranged = arrange_loaded_macros(vec![
        named("beta", 1),
        named("Alpha", 1),
        named("old", 2),
        named("alpha", 1),
        named("Zed", 1),
        named("ábc", 1),
    ]);
    let names: Vec<&str> = arranged.iter().map(|m| m.name.as_str()).collect();
    assert_eq!(names, vec!["Alpha", "alpha", "beta", "Zed", "ábc"]);
}

#[test]
fn loaded_macros_sort_is_stable() {
    let a = named("Same", 1);
    let b = named("same", 1);
    let (ida, idb) = (a.id.clone(), b.id.clone());
    let arranged = arrange_loaded_macros(vec![b, a]);
    assert_eq!(arranged[0].id, idb);
    assert_eq!(arranged[1].id, ida);
}
