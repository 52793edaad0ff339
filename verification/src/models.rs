//! Plain data of the recorder: captured input events, macro files and the
//! hotkey configuration, each with a mathematical view over `Seq<char>`.
use vstd::prelude::*;

use crate::text::{decimal, push_signed, push_text};

verus! {

/// A mouse button that the recorder captures and the player replays.
#[derive(Clone, Copy, Debug, PartialEq, Eq, Structural)]
pub enum MouseButton {
    Left,
    Right,
    Middle,
}

impl MouseButton {
    /// The word the button is shown as.
    pub open spec fn spec_name(self) -> Seq<char> {
        match self {
            MouseButton::Left => "left"@,
            MouseButton::Right => "right"@,
            MouseButton::Middle => "middle"@,
        }
    }

    /// The word the button is shown as: `left`, `right` or `middle`.
    pub fn display_name(&self) -> (name: &'static str)
        ensures
            name@ == self.spec_name(),
    {
        match self {
            MouseButton::Left => "left",
            MouseButton::Right => "right",
            MouseButton::Middle => "middle",
        }
    }
}

/// The colour family a timeline row is drawn in.
#[derive(Clone, Copy, Debug, PartialEq, Eq, Structural)]
pub enum TimelineColorHint {
    Mouse,
    Key,
    Scroll,
}

/// What happened in one captured input event.
#[derive(Debug)]
pub enum EventKind {
    MouseMove { x: i32, y: i32 },
    MouseDown { button: MouseButton },
    MouseUp { button: MouseButton },
    Scroll { delta_x: i32, delta_y: i32 },
    KeyDown { key: String },
    KeyUp { key: String },
}

/// The view of an [`EventKind`]: key names become character sequences.
pub enum EventKindView {
    MouseMove { x: i32, y: i32 },
    MouseDown { button: MouseButton },
    MouseUp { button: MouseButton },
    Scroll { delta_x: i32, delta_y: i32 },
    KeyDown { key: Seq<char> },
    KeyUp { key: Seq<char> },
}

impl View for EventKind {
    type V = EventKindView;

    open spec fn view(&self) -> EventKindView {
        match self {
            EventKind::MouseMove { x, y } => EventKindView::MouseMove { x: *x, y: *y },
            EventKind::MouseDown { button } => EventKindView::MouseDown { button: *button },
            EventKind::MouseUp { button } => EventKindView::MouseUp { button: *button },
            EventKind::Scroll { delta_x, delta_y } => EventKindView::Scroll {
                delta_x: *delta_x,
                delta_y: *delta_y,
            },
            EventKind::KeyDown { key } => EventKindView::KeyDown { key: key@ },
            EventKind::KeyUp { key } => EventKindView::KeyUp { key: key@ },
        }
    }
}

impl Clone for EventKind {
    fn clone(&self) -> (copy: Self)
        ensures
            copy@ == self@,
    {
        match self {
            EventKind::MouseMove { x, y } => EventKind::MouseMove { x: *x, y: *y },
            EventKind::MouseDown { button } => EventKind::MouseDown { button: *button },
            EventKind::MouseUp { button } => EventKind::MouseUp { button: *button },
            EventKind::Scroll { delta_x, delta_y } => EventKind::Scroll {
                delta_x: *delta_x,
                delta_y: *delta_y,
            },
            EventKind::KeyDown { key } => EventKind::KeyDown { key: key.clone() },
            EventKind::KeyUp { key } => EventKind::KeyUp { key: key.clone() },
        }
    }
}

/// One captured input event, stamped with the milliseconds since recording began.
#[derive(Debug)]
pub struct InputEvent {
    pub timestamp_ms: u64,
    pub kind: EventKind,
}

/// The view of an [`InputEvent`].
pub struct InputEventView {
    pub timestamp_ms: u64,
    pub kind: EventKindView,
}

impl View for InputEvent {
    type V = InputEventView;

    open spec fn view(&self) -> InputEventView {
        InputEventView { timestamp_ms: self.timestamp_ms, kind: self.kind@ }
    }
}

impl Clone for InputEvent {
    fn clone(&self) -> (copy: Self)
        ensures
            copy@ == self@,
    {
        InputEvent { timestamp_ms: self.timestamp_ms, kind: self.kind.clone() }
    }
}

/// The text a timeline row shows for an event of this kind.
pub open spec fn event_label(kind: EventKindView) -> Seq<char> {
    match kind {
        EventKindView::MouseMove { x, y } => "Mouse move to "@ + decimal(x as int) + ", "@ + decimal(
            y as int,
        ),
        EventKindView::MouseDown { button } => "Mouse "@ + button.spec_name() + " down"@,
        EventKindView::MouseUp { button } => "Mouse "@ + button.spec_name() + " up"@,
        EventKindView::Scroll { delta_x, delta_y } => "Scroll Δx "@ + decimal(delta_x as int)
            + ", Δy "@ + decimal(delta_y as int),
        EventKindView::KeyDown { key } => "Key "@ + key + " down"@,
        EventKindView::KeyUp { key } => "Key "@ + key + " up"@,
    }
}

/// The colour family a timeline row of this kind is drawn in.
pub open spec fn event_color(kind: EventKindView) -> TimelineColorHint {
    match kind {
        EventKindView::MouseMove { .. } | EventKindView::MouseDown { .. }
        | EventKindView::MouseUp { .. } => TimelineColorHint::Mouse,
        EventKindView::Scroll { .. } => TimelineColorHint::Scroll,
        EventKindView::KeyDown { .. } | EventKindView::KeyUp { .. } => TimelineColorHint::Key,
    }
}

impl InputEvent {
    /// An event of the given kind at the given time.
    pub fn new(timestamp_ms: u64, kind: EventKind) -> (event: Self)
        ensures
            event.timestamp_ms == timestamp_ms,
            event.kind == kind,
            event@ == (InputEventView { timestamp_ms, kind: kind@ }),
    {
        InputEvent { timestamp_ms, kind }
    }

    /// The text a timeline row shows for this event, such as `Mouse move to 10, -3`.
    pub fn label(&self) -> (text: String)
        ensures
            text@ == event_label(self.kind@),
    {
        match &self.kind {
            EventKind::MouseMove { x, y } => {
                let mut s = "Mouse move to ".to_owned();
                push_signed(&mut s, *x);
                push_text(&mut s, ", ");
                push_signed(&mut s, *y);
                s
            },
            EventKind::MouseDown { button } => {
                let mut s = "Mouse ".to_owned();
                push_text(&mut s, button.display_name());
                push_text(&mut s, " down");
                s
            },
            EventKind::MouseUp { button } => {
                let mut s = "Mouse ".to_owned();
                push_text(&mut s, button.display_name());
                push_text(&mut s, " up");
                s
            },
            EventKind::Scroll { delta_x, delta_y } => {
                let mut s = "Scroll Δx ".to_owned();
                push_signed(&mut s, *delta_x);
                push_text(&mut s, ", Δy ");
                push_signed(&mut s, *delta_y);
                s
            },
            EventKind::KeyDown { key } => {
                let mut s = "Key ".to_owned();
                push_text(&mut s, key.as_str());
                push_text(&mut s, " down");
                s
            },
            EventKind::KeyUp { key } => {
                let mut s = "Key ".to_owned();
                push_text(&mut s, key.as_str());
                push_text(&mut s, " up");
                s
            },
        }
    }

    /// The colour family of this event's timeline row.
    pub fn color_hint(&self) -> (hint: TimelineColorHint)
        ensures
            hint == event_color(self.kind@),
    {
        match self.kind {
            EventKind::MouseMove { .. } | EventKind::MouseDown { .. } | EventKind::MouseUp {
                ..
            } => TimelineColorHint::Mouse,
            EventKind::Scroll { .. } => TimelineColorHint::Scroll,
            EventKind::KeyDown { .. } | EventKind::KeyUp { .. } => TimelineColorHint::Key,
        }
    }
}

/// The views of a sequence of events, one for one.
pub open spec fn events_view(events: Seq<InputEvent>) -> Seq<InputEventView> {
    events.map_values(|e: InputEvent| e@)
}

/// A copy of a list of events, element by element.
pub fn clone_events(events: &Vec<InputEvent>) -> (copy: Vec<InputEvent>)
    ensures
        events_view(copy@) == events_view(events@),
{
    let mut copy: Vec<InputEvent> = Vec::new();
    let mut i: usize = 0;
    while i < events.len()
        invariant
            i <= events.len(),
            copy@.len() == i,
            events_view(copy@) == events_view(events@.take(i as int)),
        decreases events.len() - i,
    {
        let e = events[i].clone();
        let ghost before = copy@;
        copy.push(e);
        proof {
            assert forall|j: int| 0 <= j < i + 1 implies #[trigger] events_view(copy@)[j]
                == events_view(events@.take(i + 1))[j] by {
                if j < i {
                    assert(copy@[j] == before[j]);
                    assert(events_view(before)[j] == events_view(events@.take(i as int))[j]);
                }
            }
            assert(events_view(copy@) =~= events_view(events@.take(i + 1)));
        }
        i = i + 1;
    }
    proof {
        assert(events@.take(events.len() as int) == events@);
    }
    copy
}

/// Whether `c` is a lowercase hexadecimal digit.
pub open spec fn is_lower_hex(c: char) -> bool {
    ('0' <= c && c <= '9') || ('a' <= c && c <= 'f')
}

/// Whether `s` has the shape of a random (version 4) UUID in hyphenated
/// lowercase form: 36 characters, hyphens at 8, 13, 18 and 23, the version
/// digit `4` at 14, a variant digit of `8`, `9`, `a` or `b` at 19, and
/// lowercase hexadecimal digits elsewhere.
pub open spec fn is_random_uuid_text(s: Seq<char>) -> bool {
    &&& s.len() == 36
    &&& s[8] == '-' && s[13] == '-' && s[18] == '-' && s[23] == '-'
    &&& s[14] == '4'
    &&& (s[19] == '8' || s[19] == '9' || s[19] == 'a' || s[19] == 'b')
    &&& forall|i: int|
        0 <= i < 36 && i != 8 && i != 13 && i != 18 && i != 23 ==> is_lower_hex(#[trigger] s[i])
}

/// A fresh random identifier (`uuid::Uuid::new_v4`, written with `to_string`).
/// Which identifier comes back is left open; the contract states only the
/// textual shape that every version 4 UUID has in its hyphenated lowercase form.
/// The call panics when the operating system provides no random bytes.
#[verifier::external_body]
pub fn new_macro_id() -> (id: String)
    ensures
        is_random_uuid_text(id@),
{
    uuid::Uuid::new_v4().to_string()
}

/// A recorded macro as it is stored on disk.
#[derive(Debug)]
pub struct MacroFile {
    pub id: String,
    pub name: String,
    pub version: u8,
    pub events: Vec<InputEvent>,
}

/// The view of a [`MacroFile`].
pub struct MacroFileView {
    pub id: Seq<char>,
    pub name: Seq<char>,
    pub version: u8,
    pub events: Seq<InputEventView>,
}

impl View for MacroFile {
    type V = MacroFileView;

    open spec fn view(&self) -> MacroFileView {
        MacroFileView {
            id: self.id@,
            name: self.name@,
            version: self.version,
            events: events_view(self.events@),
        }
    }
}

impl Clone for MacroFile {
    fn clone(&self) -> (copy: Self)
        ensures
            copy@ == self@,
    {
        MacroFile {
            id: self.id.clone(),
            name: self.name.clone(),
            version: self.version,
            events: clone_events(&self.events),
        }
    }
}

/// The format version of macro files that this library reads and writes.
pub const MACRO_FORMAT_VERSION: u8 = 1;

impl MacroFile {
    /// An empty macro called `name`, under a fresh random identifier.
    pub fn new(name: String) -> (macro_file: Self)
        ensures
            macro_file@.name == name@,
            macro_file.version == MACRO_FORMAT_VERSION,
            macro_file@.events == Seq::<InputEventView>::empty(),
            is_random_uuid_text(macro_file@.id),
    {
        let events: Vec<InputEvent> = Vec::new();
        proof {
            assert(events_view(events@) =~= Seq::<InputEventView>::empty());
        }
        MacroFile { id: new_macro_id(), name, version: MACRO_FORMAT_VERSION, events }
    }
}

/// The keys bound to the four global actions.
#[derive(Debug)]
pub struct HotkeyConfig {
    pub record: String,
    pub play_stop: String,
    pub pause: String,
    pub emergency_stop: String,
}

/// The view of a [`HotkeyConfig`].
pub struct HotkeyConfigView {
    pub record: Seq<char>,
    pub play_stop: Seq<char>,
    pub pause: Seq<char>,
    pub emergency_stop: Seq<char>,
}

impl View for HotkeyConfig {
    type V = HotkeyConfigView;

    open spec fn view(&self) -> HotkeyConfigView {
        HotkeyConfigView {
            record: self.record@,
            play_stop: self.play_stop@,
            pause: self.pause@,
            emergency_stop: self.emergency_stop@,
        }
    }
}

impl Clone for HotkeyConfig {
    fn clone(&self) -> (copy: Self)
        ensures
            copy@ == self@,
    {
        HotkeyConfig {
            record: self.record.clone(),
            play_stop: self.play_stop.clone(),
            pause: self.pause.clone(),
            emergency_stop: self.emergency_stop.clone(),
        }
    }
}

/// The factory bindings: F8 records, F10 plays or stops, F11 pauses, F12 stops everything.
pub open spec fn default_hotkeys() -> HotkeyConfigView {
    HotkeyConfigView {
        record: "F8"@,
        play_stop: "F10"@,
        pause: "F11"@,
        emergency_stop: "F12"@,
    }
}

impl Default for HotkeyConfig {
    fn default() -> (hotkeys: Self)
        ensures
            hotkeys@ == default_hotkeys(),
    {
        HotkeyConfig {
            record: "F8".to_owned(),
            play_stop: "F10".to_owned(),
            pause: "F11".to_owned(),
            emergency_stop: "F12".to_owned(),
        }
    }
}

/// The persisted application settings.
#[derive(Debug)]
pub struct Config {
    pub hotkeys: HotkeyConfig,
    pub always_on_top: bool,
    pub start_compact: bool,
}

/// The view of a [`Config`].
pub struct ConfigView {
    pub hotkeys: HotkeyConfigView,
    pub always_on_top: bool,
    pub start_compact: bool,
}

impl View for Config {
    type V = ConfigView;

    open spec fn view(&self) -> ConfigView {
        ConfigView {
            hotkeys: self.hotkeys@,
            always_on_top: self.always_on_top,
            start_compact: self.start_compact,
        }
    }
}

impl Clone for Config {
    fn clone(&self) -> (copy: Self)
        ensures
            copy@ == self@,
    {
        Config {
            hotkeys: self.hotkeys.clone(),
            always_on_top: self.always_on_top,
            start_compact: self.start_compact,
        }
    }
}

impl Default for Config {
    fn default() -> (config: Self)
        ensures
            config@ == (ConfigView {
                hotkeys: default_hotkeys(),
                always_on_top: true,
                start_compact: true,
            }),
    {
        Config { hotkeys: HotkeyConfig::default(), always_on_top: true, start_compact: true }
    }
}

} // verus!
