//! The Hyprland compositor: its event stream and its control socket.

pub mod event;
pub mod client;
pub mod laws;
