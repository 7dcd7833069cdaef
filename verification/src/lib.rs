//! Verified core of a camera preview and recording application.
//!
//! The media engine and the UI toolkit are external: this library holds the
//! logic between them — the one-slot frame handoff from the engine's sample
//! callback to the UI, the command vocabulary the widgets and the player
//! exchange, the record toggle, the assembly plan of the recording pipeline,
//! and the wait-seek-capture loop that extracts a thumbnail frame.
pub mod channel;
pub mod command;
pub mod data;
pub mod frame;
pub mod pipeline;
pub mod player;
pub mod sample;
pub mod thumbnail;
pub mod widget;
