//! Playback control core for a single-window media player.
//!
//! The crate owns the state machine that mediates between user intents
//! (load a source, toggle play/pause, seek, toggle fullscreen) and a media
//! pipeline: it decides which rendering sink path to build, tags every
//! source load with a generation so that stale pipeline events are dropped,
//! clamps seek targets to the known duration, and arms a single periodic
//! position poller while playback runs.  Presentation glue (widgets, the
//! pipeline itself, timers) lives outside and only performs what the
//! controller decides.

pub mod clock;
pub mod controller;
pub mod engine;
pub mod poller;
pub mod sink;
pub mod state;
