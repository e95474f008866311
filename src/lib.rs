//! Playback control over a queue daemon and a session-bus media player.
pub mod error;
pub mod text;
pub mod control;
pub mod status;
pub mod config;
