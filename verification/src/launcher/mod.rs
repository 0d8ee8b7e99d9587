//! The application launcher: desktop entries, providers and their
//! selection, keyboard handling and wallpapers.

pub mod entry;
pub mod selection;
pub mod config;
pub mod cli;
pub mod fuzzy;
pub mod order;
pub mod wallpapers;
pub mod apps;
pub mod window;
pub mod listing;
