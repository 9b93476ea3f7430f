//! Polling and state reconciliation for a desktop status bar.
//!
//! Two trackers each own one snapshot of polled state: [`system_info::SystemInfo`]
//! (processor load, memory, battery) and [`music_player::MusicInfo`] (the active
//! media session). Everything here works on plain values. Reading the
//! platform, holding locks, sleeping and publishing events are the caller's
//! part; the [`scheduler`] says in which order and how often.
//!
//! Percentages are fixed-point integers in hundredths of a percent
//! (see [`percent`]).
pub mod battery;
pub mod cpu;
pub mod music_player;
pub mod percent;
pub mod scheduler;
pub mod system_info;
pub mod text;
