use chameleon::ipc::device::{Devices, Keyboard};
use chameleon::ipc::event::{is_well_formed, HyprEvent, IpcEventError};
use chameleon::ipc::listener::{next_backoff, on_read, LineRead, ListenerAction, FIRST_BACKOFF_MS, MAX_BACKOFF_MS};
use chameleon::ipc::workspace::{workspaces_on_monitor, Workspace};
use chameleon::ipc::Compositor;

#[test]
fn reads_a_layout_change() {
    let e = HyprEvent::from_str("activelayout>>AT Translated Set 2 keyboard,English (US)").unwrap();
    assert!(matches!(&e, HyprEvent::ActiveLayout { keyboard_name, layout_name }
        if keyboard_name == "AT Translated Set 2 keyboard" && layout_name == "English (US)"));
    assert_eq!(e.layout_name().as_deref(), Some("English (US)"));
}

#[test]
fn reads_workspace_events() {
    let e = HyprEvent::from_str("workspacev2>>3,web").unwrap();
    assert!(matches!(&e, HyprEvent::WorkspaceV2 { id: 3, name } if name == "web"));
    assert_eq!(e.layout_name(), None);
    let e = HyprEvent::from_str("createworkspacev2>>-98,special:x").unwrap();
    assert!(matches!(&e, HyprEvent::CreateWorkspaceV2 { id: -98, name } if name == "special:x"));
    let e = HyprEvent::from_str("destroyworkspacev2>>4,4,extra").unwrap();
    assert!(matches!(&e, HyprEvent::DestroyWorkspaceV2 { id: 4, name } if name == "4"));
    let e = HyprEvent::from_str("focusedmonv2>>HDMI-A-1,7").unwrap();
    assert!(matches!(&e, HyprEvent::FocusedMonV2 { monitor_connector, workspace_id: 7 } if monitor_connector == "HDMI-A-1"));
}

#[test]
fn lines_without_delimiter_are_invalid() {
    let e = HyprEvent::from_str("activelayout").unwrap_err();
    assert!(matches!(e, IpcEventError::InvalidInput));
    assert_eq!(e.message(), "invalid input");
}

#[test]
fn unknown_events_are_named() {
    let e = HyprEvent::from_str("openwindow>>a,b,c,d").unwrap_err();
    assert!(matches!(&e, IpcEventError::UndefinedEvent(n) if n == "openwindow"));
    assert_eq!(e.message(), "Undefined hyprland event: 'openwindow'");
}

#[test]
fn well_formed_lines() {
    assert!(is_well_formed("activelayout>>kb,us"));
    assert!(!is_well_formed("activelayout>>kb"));
    assert!(is_well_formed("workspacev2>>1,a"));
    assert!(!is_well_formed("workspacev2>>x,a"));
    assert!(!is_well_formed("focusedmonv2>>DP-1,x"));
    assert!(is_well_formed("openwindow>>"));
    assert!(is_well_formed("no delimiter"));
}

#[test]
fn default_event_is_none() {
    assert!(matches!(HyprEvent::default(), HyprEvent::NoEvent));
}

#[test]
fn listener_delivers_skips_or_reconnects() {
    match on_read(LineRead::Line("workspacev2>>2,2".to_string())) {
        ListenerAction::Deliver(HyprEvent::WorkspaceV2 { id, name }) => {
            assert_eq!(id, 2);
            assert_eq!(name, "2");
        }
        _ => panic!("expected a delivered event"),
    }
    assert!(matches!(on_read(LineRead::Line("bell>>".to_string())), ListenerAction::Skip));
    assert!(matches!(on_read(LineRead::Eof), ListenerAction::Reconnect));
    assert!(matches!(on_read(LineRead::Failed), ListenerAction::Reconnect));
}

#[test]
fn backoff_grows_to_a_second() {
    assert_eq!(FIRST_BACKOFF_MS, 100);
    let mut d = FIRST_BACKOFF_MS;
    let mut seen = vec![d];
    for _ in 0..12 {
        d = next_backoff(d);
        seen.push(d);
    }
    assert_eq!(seen[1], 200);
    assert_eq!(seen[8], 900);
    assert_eq!(seen[9], MAX_BACKOFF_MS);
    assert_eq!(seen[12], 1000);
}

#[test]
fn compositor_is_hyprland_when_signature_is_set() {
    assert!(matches!(Compositor::define(Some("abc".to_string())), Compositor::Hyprland(s) if s == "abc"));
    assert!(matches!(Compositor::define(None), Compositor::Unsupported));
}

fn keyboard(name: &str, main: bool, keymap: &str) -> Keyboard {
    Keyboard { name: name.to_string(), main, active_keymap: keymap.to_string() }
}

#[test]
fn main_keyboard_gives_the_keymap() {
    let d = Devices {
        keyboards: vec![keyboard("a", false, "German"), keyboard("b", true, "Russian"), keyboard("c", true, "French")],
    };
    assert_eq!(d.main_keymap().as_deref(), Some("Russian"));
    let d = Devices { keyboards: vec![keyboard("a", false, "German")] };
    assert_eq!(d.main_keymap(), None);
    assert_eq!(Devices { keyboards: vec![] }.main_keymap(), None);
}

fn workspace(id: i32, monitor: &str) -> Workspace {
    Workspace {
        id,
        name: id.to_string(),
        monitor: monitor.to_string(),
        monitor_id: 0,
        windows: 0,
        has_fullscreen: false,
        last_window: String::new(),
        last_window_title: String::new(),
        is_persistent: false,
        tiled_layout: "dwindle".to_string(),
    }
}

#[test]
fn workspaces_are_kept_per_monitor_in_order() {
    let all = vec![workspace(1, "DP-1"), workspace(2, "HDMI-A-1"), workspace(3, "DP-1"), workspace(4, "DP-10")];
    let on = workspaces_on_monitor(&all, "DP-1");
    assert_eq!(on.iter().map(|w| w.id).collect::<Vec<_>>(), vec![1, 3]);
    assert!(workspaces_on_monitor(&all, "eDP-1").is_empty());
}
