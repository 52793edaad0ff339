pub mod commands;
pub mod hotkeys;
pub mod laws;
pub mod models;
pub mod playback;
pub mod recorder;
pub mod scheduler;
pub mod state;
pub mod storage;
pub mod text;
pub mod ui;
