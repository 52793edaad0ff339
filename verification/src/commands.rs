//! The commands that drive the application state: from hotkeys, from the
//! recorder thread, from the user interface and from finished playbacks.
use vstd::prelude::*;

use crate::models::{InputEvent, InputEventView};

verus! {

/// A request to the application state.
#[derive(Debug)]
pub enum AppCommand {
    StartRecording,
    StopRecording,
    TogglePlay,
    TogglePause,
    EmergencyStop,
    RecordedEvent(InputEvent),
    RebindCapture(String),
    PlaybackCompleteFor(u64),
}

/// The view of an [`AppCommand`].
pub enum AppCommandView {
    StartRecording,
    StopRecording,
    TogglePlay,
    TogglePause,
    EmergencyStop,
    RecordedEvent(InputEventView),
    RebindCapture(Seq<char>),
    PlaybackCompleteFor(u64),
}

impl View for AppCommand {
    type V = AppCommandView;

    open spec fn view(&self) -> AppCommandView {
        match self {
            AppCommand::StartRecording => AppCommandView::StartRecording,
            AppCommand::StopRecording => AppCommandView::StopRecording,
            AppCommand::TogglePlay => AppCommandView::TogglePlay,
            AppCommand::TogglePause => AppCommandView::TogglePause,
            AppCommand::EmergencyStop => AppCommandView::EmergencyStop,
            AppCommand::RecordedEvent(e) => AppCommandView::RecordedEvent(e@),
            AppCommand::RebindCapture(k) => AppCommandView::RebindCapture(k@),
            AppCommand::PlaybackCompleteFor(g) => AppCommandView::PlaybackCompleteFor(*g),
        }
    }
}

impl Clone for AppCommand {
    fn clone(&self) -> (copy: Self)
        ensures
            copy@ == self@,
    {
        match self {
            AppCommand::StartRecording => AppCommand::StartRecording,
            AppCommand::StopRecording => AppCommand::StopRecording,
            AppCommand::TogglePlay => AppCommand::TogglePlay,
            AppCommand::TogglePause => AppCommand::TogglePause,
            AppCommand::EmergencyStop => AppCommand::EmergencyStop,
            AppCommand::RecordedEvent(e) => AppCommand::RecordedEvent(e.clone()),
            AppCommand::RebindCapture(k) => AppCommand::RebindCapture(k.clone()),
            AppCommand::PlaybackCompleteFor(g) => AppCommand::PlaybackCompleteFor(*g),
        }
    }
}

/// The view of an optional command.
pub open spec fn command_view(c: Option<AppCommand>) -> Option<AppCommandView> {
    match c {
        Some(c) => Some(c@),
        None => None,
    }
}

} // verus!
