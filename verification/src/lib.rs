//! Verified core of the Chameleon desktop shell: Hyprland event parsing,
//! launcher and dock logic, and the configuration model.

pub mod text;
pub mod hyprland;
pub mod config;
pub mod errors;
pub mod launcher;
pub mod dock;
pub mod ipc;
