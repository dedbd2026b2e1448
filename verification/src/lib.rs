//! Push-to-mute virtual microphone: the decision logic of the daemon, the
//! parsers over PipeWire/WirePlumber tool output, and the state machines that
//! turn raw key events into mute edges.

pub mod text;
pub mod json;
pub mod config;
pub mod daemon;
pub mod pipewire;
pub mod ipc;
pub mod notify;
pub mod autostart;
pub mod doctor;
pub mod input;
pub mod tray;
pub mod startup;
