//! The shell's configuration: what the user's TOML file holds, with the
//! values that stand for whatever it leaves out.

use vstd::prelude::*;

pub mod clock;
pub mod workspaces;

pub use clock::ClockConfig;
pub use workspaces::{NumeralSystem, NumeralVariant, WorkspacesConfig};

verus! {

/// Settings of the launcher.
pub struct LauncherConfig {
    pub enabled: bool,
    pub placeholder: String,
    /// Command for launching terminal apps
    pub terminal_cmd: Option<String>,
    /// Child process detach using libc setpid
    pub detach: bool,
}

impl Default for LauncherConfig {
    fn default() -> (r: Self)
        ensures
            !r.enabled,
            r.placeholder@ == Seq::<char>::empty(),
            r.terminal_cmd is None,
            !r.detach,
    {
        LauncherConfig { enabled: false, placeholder: String::new(), terminal_cmd: None, detach: false }
    }
}

/// Settings of the widgets.
pub struct WidgetsConfig {
    pub enabled: bool,
}

impl Default for WidgetsConfig {
    fn default() -> (r: Self)
        ensures
            !r.enabled,
    {
        WidgetsConfig { enabled: false }
    }
}

/// Settings of the panel's modules.
pub struct PanelConfig {
    pub clock: ClockConfig,
    pub workspaces: WorkspacesConfig,
}

impl Default for PanelConfig {
    fn default() -> (r: Self)
        ensures
            r.clock.format@ == Seq::<char>::empty(),
            r.workspaces.numeral_system == NumeralSystem::Arabic,
            r.workspaces.numeral_variant == NumeralVariant::Traditional,
    {
        PanelConfig { clock: ClockConfig::default(), workspaces: WorkspacesConfig::default() }
    }
}

/// The whole configuration file.
pub struct Config {
    pub widgets: WidgetsConfig,
    pub panel: PanelConfig,
    pub launcher: LauncherConfig,
}

impl Default for Config {
    fn default() -> (r: Self)
        ensures
            !r.widgets.enabled,
            r.panel.clock.format@ == Seq::<char>::empty(),
            r.panel.workspaces.numeral_system == NumeralSystem::Arabic,
            r.panel.workspaces.numeral_variant == NumeralVariant::Traditional,
            !r.launcher.enabled,
            r.launcher.placeholder@ == Seq::<char>::empty(),
            r.launcher.terminal_cmd is None,
            !r.launcher.detach,
    {
        Config { widgets: WidgetsConfig::default(), panel: PanelConfig::default(), launcher: LauncherConfig::default() }
    }
}

} // verus!
