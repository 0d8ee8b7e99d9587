//! The compositor-independent IPC layer: which compositor runs, its
//! workspaces and input devices, and its event stream.

use vstd::prelude::*;

pub mod event;
pub mod device;
pub mod workspace;
pub mod listener;
pub mod laws;

verus! {

/// The compositor that the shell runs under.
pub enum Compositor {
    /// Hyprland, with its instance signature.
    Hyprland(String),
    /// A compositor that the shell does not support.
    Unsupported,
}

impl Compositor {
    /// Tries to determine which compositor you are using, from the value of
    /// `HYPRLAND_INSTANCE_SIGNATURE` if it is set.
    pub fn define(his: Option<String>) -> (r: Compositor)
        ensures
            match his {
                Some(s) => r == Compositor::Hyprland(s),
                None => r is Unsupported,
            },
    {
        match his {
            Some(s) => Compositor::Hyprland(s),
            None => Compositor::Unsupported,
        }
    }
}

} // verus!
