//! The decisions of the global input recorder: what a captured key, button,
//! mouse or wheel event turns into, given the recorder's control state.
//!
//! Clock readings are nanoseconds of a monotonic clock that the caller reads;
//! time stamps are whole milliseconds since the recording began. The caller
//! also owns the sharing of the control state between threads.
use vstd::prelude::*;

use crate::commands::{AppCommand, AppCommandView, command_view};
use crate::hotkeys::{command_for_key_press, hotkey_command, is_bound_key, is_hotkey};
use crate::models::{
    EventKind, EventKindView, HotkeyConfig, HotkeyConfigView, InputEvent, InputEventView,
    MouseButton,
};
use crate::state::opt_text;

verus! {

/// What the recorder needs to know: the hotkeys, whether an action is being
/// rebound, the clock reading (in nanoseconds) at which the running recording
/// began, and the one at which the last mouse move was recorded.
#[derive(Debug)]
pub struct RecorderControl {
    pub hotkeys: HotkeyConfig,
    pub rebinding_action: Option<String>,
    pub recording_origin_ns: Option<u64>,
    pub last_mouse_time_ns: Option<u64>,
}

/// The view of a [`RecorderControl`].
pub struct RecorderControlView {
    pub hotkeys: HotkeyConfigView,
    pub rebinding_action: Option<Seq<char>>,
    pub recording_origin_ns: Option<u64>,
    pub last_mouse_time_ns: Option<u64>,
}

impl View for RecorderControl {
    type V = RecorderControlView;

    open spec fn view(&self) -> RecorderControlView {
        RecorderControlView {
            hotkeys: self.hotkeys@,
            rebinding_action: opt_text(self.rebinding_action),
            recording_origin_ns: self.recording_origin_ns,
            last_mouse_time_ns: self.last_mouse_time_ns,
        }
    }
}

impl Clone for RecorderControl {
    fn clone(&self) -> (copy: Self)
        ensures
            copy@ == self@,
    {
        RecorderControl {
            hotkeys: self.hotkeys.clone(),
            rebinding_action: match &self.rebinding_action {
                Some(a) => Some(a.clone()),
                None => None,
            },
            recording_origin_ns: self.recording_origin_ns,
            last_mouse_time_ns: self.last_mouse_time_ns,
        }
    }
}

/// The recorder's control state, as the application and the recorder thread share it.
#[derive(Debug)]
pub struct RecorderControlHandle {
    pub control: RecorderControl,
}

impl View for RecorderControlHandle {
    type V = RecorderControlView;

    open spec fn view(&self) -> RecorderControlView {
        self.control@
    }
}

/// The time between two clock readings, in nanoseconds, 0 when `later` is
/// in fact earlier.
pub open spec fn elapsed_ns(earlier: u64, later: u64) -> u64 {
    if later >= earlier {
        (later - earlier) as u64
    } else {
        0
    }
}

/// The number of nanoseconds in a millisecond.
pub const NANOS_PER_MILLI: u64 = 1_000_000;

/// The time stamp of an event seen at clock reading `now_ns`: the whole
/// milliseconds elapsed since the recording began (rounded down; 0 for a
/// reading before it), `None` when not recording.
pub open spec fn spec_timestamp(c: RecorderControlView, now_ns: u64) -> Option<u64> {
    match c.recording_origin_ns {
        Some(origin) => Some((elapsed_ns(origin, now_ns) / NANOS_PER_MILLI) as u64),
        None => None,
    }
}

impl RecorderControlHandle {
    /// A control state with the given hotkeys, not rebinding and not recording.
    pub fn new(hotkeys: HotkeyConfig) -> (handle: Self)
        ensures
            handle@ == (RecorderControlView {
                hotkeys: hotkeys@,
                rebinding_action: None,
                recording_origin_ns: None,
                last_mouse_time_ns: None,
            }),
    {
        RecorderControlHandle {
            control: RecorderControl {
                hotkeys,
                rebinding_action: None,
                recording_origin_ns: None,
                last_mouse_time_ns: None,
            },
        }
    }

    /// Replaces the hotkeys.
    pub fn set_hotkeys(&mut self, hotkeys: HotkeyConfig)
        ensures
            final(self)@ == (RecorderControlView { hotkeys: hotkeys@, ..old(self)@ }),
    {
        self.control.hotkeys = hotkeys;
    }

    /// Sets the action being rebound, or `None`.
    pub fn set_rebinding_action(&mut self, action: Option<String>)
        ensures
            final(self)@ == (RecorderControlView { rebinding_action: opt_text(action), ..old(self)@ }),
    {
        self.control.rebinding_action = action;
    }

    /// Starts a recording at `now_ns`.
    pub fn begin_recording(&mut self, now_ns: u64)
        ensures
            final(self)@ == (RecorderControlView {
                recording_origin_ns: Some(now_ns),
                last_mouse_time_ns: None,
                ..old(self)@
            }),
    {
        self.control.recording_origin_ns = Some(now_ns);
        self.control.last_mouse_time_ns = None;
    }

    /// Ends the recording.
    pub fn end_recording(&mut self)
        ensures
            final(self)@ == (RecorderControlView {
                recording_origin_ns: None,
                last_mouse_time_ns: None,
                ..old(self)@
            }),
    {
        self.control.recording_origin_ns = None;
        self.control.last_mouse_time_ns = None;
    }

    /// Notes that a mouse move was recorded at `t_ns`.
    pub fn update_last_mouse_time(&mut self, t_ns: u64)
        ensures
            final(self)@ == (RecorderControlView { last_mouse_time_ns: Some(t_ns), ..old(self)@ }),
    {
        self.control.last_mouse_time_ns = Some(t_ns);
    }

    /// The time stamp of an event seen at `now_ns`, `None` when not recording.
    pub fn recording_timestamp_ms(&self, now_ns: u64) -> (stamp: Option<u64>)
        ensures
            stamp == spec_timestamp(self@, now_ns),
    {
        timestamp_ms(&self.snapshot(), now_ns)
    }

    /// A copy of the control state.
    pub fn snapshot(&self) -> (copy: RecorderControl)
        ensures
            copy@ == self@,
    {
        self.control.clone()
    }
}

/// The time stamp of an event seen at `now_ns`, `None` when not recording.
pub fn timestamp_ms(snapshot: &RecorderControl, now_ns: u64) -> (stamp: Option<u64>)
    ensures
        stamp == spec_timestamp(snapshot@, now_ns),
{
    match snapshot.recording_origin_ns {
        Some(origin) => Some(now_ns.saturating_sub(origin) / NANOS_PER_MILLI),
        None => None,
    }
}

/// An input event as the global listener reports it, with mouse coordinates
/// already rounded to whole pixels.
#[derive(Debug)]
pub enum CapturedInput {
    KeyPress(String),
    KeyRelease(String),
    /// A button press; `None` for a button the recorder does not replay.
    ButtonPress(Option<MouseButton>),
    /// A button release; `None` for a button the recorder does not replay.
    ButtonRelease(Option<MouseButton>),
    MouseMove { x: i32, y: i32 },
    Wheel { delta_x: i64, delta_y: i64 },
}

/// The view of a [`CapturedInput`].
pub enum CapturedInputView {
    KeyPress(Seq<char>),
    KeyRelease(Seq<char>),
    ButtonPress(Option<MouseButton>),
    ButtonRelease(Option<MouseButton>),
    MouseMove { x: i32, y: i32 },
    Wheel { delta_x: i64, delta_y: i64 },
}

impl View for CapturedInput {
    type V = CapturedInputView;

    open spec fn view(&self) -> CapturedInputView {
        match self {
            CapturedInput::KeyPress(k) => CapturedInputView::KeyPress(k@),
            CapturedInput::KeyRelease(k) => CapturedInputView::KeyRelease(k@),
            CapturedInput::ButtonPress(b) => CapturedInputView::ButtonPress(*b),
            CapturedInput::ButtonRelease(b) => CapturedInputView::ButtonRelease(*b),
            CapturedInput::MouseMove { x, y } => CapturedInputView::MouseMove { x: *x, y: *y },
            CapturedInput::Wheel { delta_x, delta_y } => CapturedInputView::Wheel {
                delta_x: *delta_x,
                delta_y: *delta_y,
            },
        }
    }
}

/// The shortest gap, in milliseconds, between two recorded mouse moves.
pub const MOUSE_MOVE_INTERVAL_MS: u64 = 16;

/// `v` clamped into the range of `i32`.
pub open spec fn clamp_to_i32(v: i64) -> i32 {
    if v < i32::MIN {
        i32::MIN
    } else if v > i32::MAX {
        i32::MAX
    } else {
        v as i32
    }
}

/// `value` clamped into the range of `i32`.
pub fn i64_to_i32(value: i64) -> (clamped: i32)
    ensures
        clamped == clamp_to_i32(value),
{
    if value < i32::MIN as i64 {
        i32::MIN
    } else if value > i32::MAX as i64 {
        i32::MAX
    } else {
        value as i32
    }
}

/// The command a key press leads to: a rebind capture while an action is
/// being rebound, else its hotkey command, else (when recording and nothing
/// plays) a recorded key-down.
pub open spec fn spec_key_press_command(
    c: RecorderControlView,
    is_playing: bool,
    key: Seq<char>,
    now_ns: u64,
) -> Option<AppCommandView> {
    if c.rebinding_action is Some {
        Some(AppCommandView::RebindCapture(key))
    } else if hotkey_command(key, c.hotkeys) is Some {
        hotkey_command(key, c.hotkeys)
    } else if is_playing {
        None
    } else {
        match spec_timestamp(c, now_ns) {
            Some(t) => Some(
                AppCommandView::RecordedEvent(
                    InputEventView { timestamp_ms: t, kind: EventKindView::KeyDown { key } },
                ),
            ),
            None => None,
        }
    }
}

/// The command a key release leads to: nothing for a hotkey or while
/// rebinding or playing, else (when recording) a recorded key-up.
pub open spec fn spec_key_release_command(
    c: RecorderControlView,
    is_playing: bool,
    key: Seq<char>,
    now_ns: u64,
) -> Option<AppCommandView> {
    if c.rebinding_action is Some || is_bound_key(key, c.hotkeys) {
        None
    } else if is_playing {
        None
    } else {
        match spec_timestamp(c, now_ns) {
            Some(t) => Some(
                AppCommandView::RecordedEvent(
                    InputEventView { timestamp_ms: t, kind: EventKindView::KeyUp { key } },
                ),
            ),
            None => None,
        }
    }
}

/// The command a key press seen by the global listener leads to.
pub fn process_key_press(
    snapshot: &RecorderControl,
    is_playing: bool,
    key: String,
    now_ns: u64,
) -> (command: Option<AppCommand>)
    ensures
        command_view(command) == spec_key_press_command(snapshot@, is_playing, key@, now_ns),
{
    if snapshot.rebinding_action.is_some() {
        return Some(AppCommand::RebindCapture(key));
    }
    match command_for_key_press(key.as_str(), &snapshot.hotkeys) {
        Some(command) => {
            return Some(command);
        },
        None => {},
    }
    if is_playing {
        return None;
    }
    match timestamp_ms(snapshot, now_ns) {
        Some(t) => Some(AppCommand::RecordedEvent(InputEvent::new(t, EventKind::KeyDown { key }))),
        None => None,
    }
}

/// The command a key release seen by the global listener leads to.
pub fn process_key_release(
    snapshot: &RecorderControl,
    is_playing: bool,
    key: String,
    now_ns: u64,
) -> (command: Option<AppCommand>)
    ensures
        command_view(command) == spec_key_release_command(snapshot@, is_playing, key@, now_ns),
{
    if snapshot.rebinding_action.is_some() || is_hotkey(key.as_str(), &snapshot.hotkeys) {
        return None;
    }
    if is_playing {
        return None;
    }
    match timestamp_ms(snapshot, now_ns) {
        Some(t) => Some(AppCommand::RecordedEvent(InputEvent::new(t, EventKind::KeyUp { key }))),
        None => None,
    }
}

/// A recorded event of kind `kind` at the time stamp for `now_ns`, when recording.
pub open spec fn recorded_at(
    c: RecorderControlView,
    now_ns: u64,
    kind: EventKindView,
) -> Option<AppCommandView> {
    match spec_timestamp(c, now_ns) {
        Some(t) => Some(AppCommandView::RecordedEvent(InputEventView { timestamp_ms: t, kind })),
        None => None,
    }
}

/// Whether a mouse move at `now_ns` comes too soon after the last recorded
/// one: fewer than [`MOUSE_MOVE_INTERVAL_MS`] whole milliseconds have passed.
pub open spec fn too_soon(c: RecorderControlView, now_ns: u64) -> bool {
    match c.last_mouse_time_ns {
        Some(last) => elapsed_ns(last, now_ns) / NANOS_PER_MILLI < MOUSE_MOVE_INTERVAL_MS,
        None => false,
    }
}

/// What a captured event does: the command it leads to, and the control
/// state afterwards (only a recorded mouse move changes it, noting its time).
/// While playing, mouse and wheel events are ignored; mouse moves closer than
/// [`MOUSE_MOVE_INTERVAL_MS`] to the last recorded one are dropped.
pub open spec fn spec_handle_event(
    c: RecorderControlView,
    is_playing: bool,
    now_ns: u64,
    event: CapturedInputView,
) -> (RecorderControlView, Option<AppCommandView>) {
    match event {
        CapturedInputView::KeyPress(k) => (c, spec_key_press_command(c, is_playing, k, now_ns)),
        CapturedInputView::KeyRelease(k) => (c, spec_key_release_command(c, is_playing, k, now_ns)),
        CapturedInputView::ButtonPress(b) => (
            c,
            if is_playing {
                None
            } else {
                match b {
                    Some(button) => recorded_at(c, now_ns, EventKindView::MouseDown { button }),
                    None => None,
                }
            },
        ),
        CapturedInputView::ButtonRelease(b) => (
            c,
            if is_playing {
                None
            } else {
                match b {
                    Some(button) => recorded_at(c, now_ns, EventKindView::MouseUp { button }),
                    None => None,
                }
            },
        ),
        CapturedInputView::MouseMove { x, y } => if is_playing || spec_timestamp(c, now_ns) is None
            || too_soon(c, now_ns) {
            (c, None)
        } else {
            (
                RecorderControlView { last_mouse_time_ns: Some(now_ns), ..c },
                recorded_at(c, now_ns, EventKindView::MouseMove { x, y }),
            )
        },
        CapturedInputView::Wheel { delta_x, delta_y } => (
            c,
            if is_playing {
                None
            } else {
                recorded_at(
                    c,
                    now_ns,
                    EventKindView::Scroll {
                        delta_x: clamp_to_i32(delta_x),
                        delta_y: clamp_to_i32(delta_y),
                    },
                )
            },
        ),
    }
}

/// Decides what a captured event leads to, at `now_ns`, while a playback
/// runs (`is_playing`) or not.
pub fn handle_event(
    control: &mut RecorderControlHandle,
    is_playing: bool,
    now_ns: u64,
    event: CapturedInput,
) -> (command: Option<AppCommand>)
    ensures
        (final(control)@, command_view(command)) == spec_handle_event(
            old(control)@,
            is_playing,
            now_ns,
            event@,
        ),
{
    match event {
        CapturedInput::KeyPress(key) => {
            let snapshot = control.snapshot();
            process_key_press(&snapshot, is_playing, key, now_ns)
        },
        CapturedInput::KeyRelease(key) => {
            let snapshot = control.snapshot();
            process_key_release(&snapshot, is_playing, key, now_ns)
        },
        CapturedInput::ButtonPress(button) => {
            if is_playing {
                return None;
            }
            let snapshot = control.snapshot();
            let t = match timestamp_ms(&snapshot, now_ns) {
                Some(t) => t,
                None => {
                    return None;
                },
            };
            match button {
                Some(button) => Some(
                    AppCommand::RecordedEvent(InputEvent::new(t, EventKind::MouseDown { button })),
                ),
                None => None,
            }
        },
        CapturedInput::ButtonRelease(button) => {
            if is_playing {
                return None;
            }
            let snapshot = control.snapshot();
            let t = match timestamp_ms(&snapshot, now_ns) {
                Some(t) => t,
                None => {
                    return None;
                },
            };
            match button {
                Some(button) => Some(
                    AppCommand::RecordedEvent(InputEvent::new(t, EventKind::MouseUp { button })),
                ),
                None => None,
            }
        },
        CapturedInput::MouseMove { x, y } => {
            if is_playing {
                return None;
            }
            let snapshot = control.snapshot();
            let t = match timestamp_ms(&snapshot, now_ns) {
                Some(t) => t,
                None => {
                    return None;
                },
            };
            match snapshot.last_mouse_time_ns {
                Some(last) => {
                    if now_ns.saturating_sub(last) / NANOS_PER_MILLI < MOUSE_MOVE_INTERVAL_MS {
                        return None;
                    }
                },
                None => {},
            }
            control.update_last_mouse_time(now_ns);
            Some(AppCommand::RecordedEvent(InputEvent::new(t, EventKind::MouseMove { x, y })))
        },
        CapturedInput::Wheel { delta_x, delta_y } => {
            if is_playing {
                return None;
            }
            let snapshot = control.snapshot();
            let t = match timestamp_ms(&snapshot, now_ns) {
                Some(t) => t,
                None => {
                    return None;
                },
            };
            Some(
                AppCommand::RecordedEvent(
                    InputEvent::new(
                        t,
                        EventKind::Scroll {
                            delta_x: i64_to_i32(delta_x),
                            delta_y: i64_to_i32(delta_y),
                        },
                    ),
                ),
            )
        },
    }
}

/// Law: a hotkey is never recorded: pressing or releasing a bound key never
/// yields a recorded event.
pub proof fn lemma_hotkeys_are_not_recorded(
    c: RecorderControlView,
    is_playing: bool,
    key: Seq<char>,
    now_ns: u64,
)
    requires
        is_bound_key(key, c.hotkeys),
    ensures
        !(spec_key_press_command(c, is_playing, key, now_ns) matches Some(
            AppCommandView::RecordedEvent(_),
        )),
        spec_key_release_command(c, is_playing, key, now_ns) is None,
{
    crate::hotkeys::lemma_command_iff_hotkey(key, c.hotkeys);
}

/// Law: while a playback runs nothing is recorded, and outside a recording
/// nothing is recorded either; only hotkeys and rebinding still act.
pub proof fn lemma_nothing_recorded_while_playing_or_idle(
    c: RecorderControlView,
    is_playing: bool,
    now_ns: u64,
    event: CapturedInputView,
)
    requires
        is_playing || c.recording_origin_ns is None,
    ensures
        !(spec_handle_event(c, is_playing, now_ns, event).1 matches Some(
            AppCommandView::RecordedEvent(_),
        )),
{
}

} // verus!
