use chameleon::config::clock::default_format;
use chameleon::config::{ClockConfig, Config, NumeralSystem, NumeralVariant, WorkspacesConfig};
use chameleon::dock::{contains_name, populate_apps, Config as DockConfig};
use chameleon::errors::MonitorError;
use chameleon::launcher::entry::ApplicationEntry;

#[test]
fn config_defaults() {
    let c = Config::default();
    assert!(!c.widgets.enabled);
    assert!(!c.launcher.enabled);
    assert_eq!(c.launcher.placeholder, "");
    assert!(c.launcher.terminal_cmd.is_none());
    assert!(!c.launcher.detach);
    assert_eq!(c.panel.clock.format, "");
    assert_eq!(c.panel.workspaces.numeral_system, NumeralSystem::Arabic);
    assert_eq!(c.panel.workspaces.numeral_variant, NumeralVariant::Traditional);
}

#[test]
fn clock_format_default() {
    assert_eq!(default_format(), "%H:%M");
    assert_eq!(ClockConfig::default().format, "");
}

#[test]
fn workspace_numerals_default_to_arabic() {
    let w = WorkspacesConfig::default();
    assert_eq!(w.numeral_system, NumeralSystem::Arabic);
    assert_eq!(w.numeral_variant, NumeralVariant::Traditional);
}

#[test]
fn monitor_error_message() {
    assert_eq!(MonitorError::NoConnector.message(), "Connector not available for this monitor");
}

fn entry(name: &str) -> ApplicationEntry {
    ApplicationEntry::new(name.to_string(), name.to_lowercase(), String::new(), String::new(), false)
}

#[test]
fn dock_shows_pinned_apps_in_entry_order() {
    let config = DockConfig {
        apps: vec!["Kitty".to_string(), "Firefox".to_string()],
        terminal_cmd: None,
        detach: false,
    };
    let entries = vec![entry("Firefox"), entry("Files"), entry("Kitty"), entry("kitty")];
    let shown = populate_apps(&entries, &config);
    let names: Vec<&str> = shown.iter().map(|e| e.name.as_str()).collect();
    assert_eq!(names, vec!["Firefox", "Kitty"]);
    assert!(populate_apps(&entries, &DockConfig::default()).is_empty());
}

#[test]
fn pinned_names_match_exactly() {
    let names = vec!["Kitty".to_string()];
    assert!(contains_name(&names, "Kitty"));
    assert!(!contains_name(&names, "kitty"));
    assert!(!contains_name(&vec![], "Kitty"));
}
