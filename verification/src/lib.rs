//! Core of a headless music-playback daemon: the playlist state machine,
//! the sink/controls model of the audio pipeline, the backend player facade,
//! and the daemon command dispatch.
pub mod config;
pub mod daemon;
pub mod playback;
pub mod player;
pub mod playlist;
pub mod positions;
pub mod sink;
pub mod textfmt;
pub mod track;
pub mod ui;
