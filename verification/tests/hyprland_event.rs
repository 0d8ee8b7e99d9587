//! Parsing of Hyprland event lines.

use chameleon::hyprland::event::{HyprEvent, ParseEventError};

// Positive
#[test]
fn parse_workspace() {
    let event = HyprEvent::from_str("workspace>>2").unwrap();
    assert!(
        matches!(event, HyprEvent::Workspace { workspace_name } if workspace_name == "2")
    );
}

#[test]
fn parse_workspacev2() {
    let event = HyprEvent::from_str("workspacev2>>2,2").unwrap();
    assert!(
        matches!(event, HyprEvent::WorkspaceV2 { id: 2, name } if name == "2")
    );
}

#[test]
fn parse_focusedmon() {
    let event = HyprEvent::from_str("focusedmon>>DP-1,1").unwrap();
    assert!(
        matches!(event, HyprEvent::FocusedMon { monitor_name, workspace_name }
        if monitor_name == "DP-1" && workspace_name == "1")
    );
}

#[test]
fn parse_focusedmonv2() {
    let event = HyprEvent::from_str("focusedmonv2>>DP-1,1").unwrap();
    assert!(
        matches!(event, HyprEvent::FocusedMonV2 { monitor_connector, workspace_id: 1 }
        if monitor_connector == "DP-1")
    );
}

#[test]
fn parse_activewindow_simple() {
    let event = HyprEvent::from_str("activewindow>>kitty,~").unwrap();
    assert!(
        matches!(event, HyprEvent::ActiveWindow { window_class, window_title }
        if window_class == "kitty" && window_title == "~")
    );
}

#[test]
fn parse_activewindow_title_with_comma() {
    // A window title may contain commas
    let event =
        HyprEvent::from_str("activewindow>>google-chrome,Some title")
            .unwrap();
    assert!(
        matches!(event, HyprEvent::ActiveWindow { window_class, window_title }
        if window_class == "google-chrome"
        && window_title == "Some title")
    );
}

#[test]
fn parse_activewindowv2() {
    let event =
        HyprEvent::from_str("activewindowv2>>5609ae16f400").unwrap();
    assert!(matches!(event, HyprEvent::ActiveWindowV2 { window_address }
        if window_address == "5609ae16f400"));
}

#[test]
fn parse_fullscreen_enter() {
    let event = HyprEvent::from_str("fullscreen>>1").unwrap();
    assert!(matches!(event, HyprEvent::Fullscreen { state: true }));
}

#[test]
fn parse_fullscreen_exit() {
    let event = HyprEvent::from_str("fullscreen>>0").unwrap();
    assert!(matches!(event, HyprEvent::Fullscreen { state: false }));
}

#[test]
fn parse_monitorremoved() {
    let event = HyprEvent::from_str("monitorremoved>>DP-2").unwrap();
    assert!(
        matches!(event, HyprEvent::MonitorRemoved { name } if name == "DP-2")
    );
}

#[test]
fn parse_monitorremovedv2() {
    let event = HyprEvent::from_str(
        "monitorremovedv2>>0,DP-2,Some description, with comma",
    )
    .unwrap();
    assert!(
        matches!(event, HyprEvent::MonitorRemovedV2 { id: 0, name, description }
        if name == "DP-2" && description == "Some description, with comma")
    );
}

#[test]
fn parse_monitoradded() {
    let event = HyprEvent::from_str("monitoradded>>eDP-1").unwrap();
    assert!(
        matches!(event, HyprEvent::MonitorAdded { name } if name == "eDP-1")
    );
}

#[test]
fn parse_monitoraddedv2() {
    let event =
        HyprEvent::from_str("monitoraddedv2>>1,eDP-1,Laptop Screen")
            .unwrap();
    assert!(
        matches!(event, HyprEvent::MonitorAddedV2 { id: 1, name, description }
        if name == "eDP-1" && description == "Laptop Screen")
    );
}

#[test]
fn parse_createworkspace() {
    let event = HyprEvent::from_str("createworkspace>>5").unwrap();
    assert!(
        matches!(event, HyprEvent::CreateWorkspace { name } if name == "5")
    );
}

#[test]
fn parse_createworkspacev2() {
    let event = HyprEvent::from_str("createworkspacev2>>5,5").unwrap();
    assert!(
        matches!(event, HyprEvent::CreateWorkspaceV2 { id: 5, name } if name == "5")
    );
}

#[test]
fn parse_destroyworkspace() {
    let event = HyprEvent::from_str("destroyworkspace>>3").unwrap();
    assert!(
        matches!(event, HyprEvent::DestroyWorkspace { name } if name == "3")
    );
}

#[test]
fn parse_destroyworkspacev2() {
    let event = HyprEvent::from_str("destroyworkspacev2>>3,3").unwrap();
    assert!(
        matches!(event, HyprEvent::DestroyWorkspaceV2 { id: 3, name } if name == "3")
    );
}

#[test]
fn parse_moveworkspace() {
    let event = HyprEvent::from_str("moveworkspace>>2,DP-1").unwrap();
    assert!(
        matches!(event, HyprEvent::MoveWorkspace { workspace_name, monitor_name }
        if workspace_name == "2" && monitor_name == "DP-1")
    );
}

#[test]
fn parse_moveworkspacev2() {
    let event = HyprEvent::from_str("moveworkspacev2>>2,2,DP-1").unwrap();
    assert!(
        matches!(event, HyprEvent::MoveWorkspaceV2 { id: 2, workspace_name, monitor_name }
        if workspace_name == "2" && monitor_name == "DP-1")
    );
}

#[test]
fn parse_renameworkspace() {
    let event =
        HyprEvent::from_str("renameworkspace>>3,новое имя").unwrap();
    assert!(
        matches!(event, HyprEvent::RenameWorkspace { id: 3, new_name }
        if new_name == "новое имя")
    );
}

#[test]
fn parse_activespecial() {
    let event =
        HyprEvent::from_str("activespecial>>special:magic,DP-1").unwrap();
    assert!(
        matches!(event, HyprEvent::ActiveSpecial { workspace_name, monitor_name }
        if workspace_name == "special:magic" && monitor_name == "DP-1")
    );
}

#[test]
fn parse_activespecialv2() {
    let event =
        HyprEvent::from_str("activespecialv2>>42,special:magic,DP-1")
            .unwrap();
    assert!(
        matches!(event, HyprEvent::ActiveSpecialV2 { id: 42, workspace_name, monitor_name }
        if workspace_name == "special:magic" && monitor_name == "DP-1")
    );
}

#[test]
fn parse_activelayout() {
    let event =
        HyprEvent::from_str("activelayout>>gaming-keyboard,Russian")
            .unwrap();
    assert!(
        matches!(event, HyprEvent::ActiveLayout { keyboard_name, layout_name }
        if keyboard_name == "gaming-keyboard" && layout_name == "Russian")
    );
}

#[test]
fn parse_openwindow() {
    let event =
        HyprEvent::from_str("openwindow>>5609ae256fc0,1,kitty,kitty")
            .unwrap();
    assert!(
        matches!(event, HyprEvent::OpenWindow { window_address, workspace_name, window_class, window_title }
        if window_address == "5609ae256fc0"
        && workspace_name == "1"
        && window_class == "kitty"
        && window_title == "kitty")
    );
}

#[test]
fn parse_closewindow() {
    let event = HyprEvent::from_str("closewindow>>5609ae256fc0").unwrap();
    assert!(
        matches!(event, HyprEvent::CloseWindow { window_address } if window_address == "5609ae256fc0")
    );
}

#[test]
fn parse_kill() {
    let event = HyprEvent::from_str("kill>>deadbeef").unwrap();
    assert!(
        matches!(event, HyprEvent::Kill { window_address } if window_address == "deadbeef")
    );
}

#[test]
fn parse_movewindow() {
    let event = HyprEvent::from_str("movewindow>>5609ae16f400,2").unwrap();
    assert!(
        matches!(event, HyprEvent::MoveWindow { window_address, workspace_name }
        if window_address == "5609ae16f400" && workspace_name == "2")
    );
}

#[test]
fn parse_movewindowv2() {
    let event =
        HyprEvent::from_str("movewindowv2>>5609ae16f400,2,myworkspace")
            .unwrap();
    assert!(
        matches!(event, HyprEvent::MoveWindowV2 { window_address, workspace_id: 2, workspace_name }
        if window_address == "5609ae16f400" && workspace_name == "myworkspace")
    );
}

#[test]
fn parse_openlayer() {
    let event = HyprEvent::from_str("openlayer>>gtk-layer-shell").unwrap();
    assert!(
        matches!(event, HyprEvent::OpenLayer { namespace } if namespace == "gtk-layer-shell")
    );
}

#[test]
fn parse_closelayer() {
    let event = HyprEvent::from_str("closelayer>>waybar").unwrap();
    assert!(
        matches!(event, HyprEvent::CloseLayer { namespace } if namespace == "waybar")
    );
}

#[test]
fn parse_submap_empty() {
    let event = HyprEvent::from_str("submap>>").unwrap();
    assert!(
        matches!(event, HyprEvent::Submap { submap_name } if submap_name.is_empty())
    );
}

#[test]
fn parse_submap_value() {
    let event = HyprEvent::from_str("submap>>mysubmap").unwrap();
    assert!(
        matches!(event, HyprEvent::Submap { submap_name } if submap_name == "mysubmap")
    );
}

#[test]
fn parse_changefloatingmode() {
    let event = HyprEvent::from_str("changefloatingmode>>0x123,1").unwrap();
    assert!(
        matches!(event, HyprEvent::ChangeFloatingMode { window_address, floating: true }
        if window_address == "0x123")
    );
}

#[test]
fn parse_urgent() {
    let event = HyprEvent::from_str("urgent>>0xABC").unwrap();
    assert!(
        matches!(event, HyprEvent::Urgent { window_address } if window_address == "0xABC")
    );
}

#[test]
fn parse_screencast() {
    let event = HyprEvent::from_str("screencast>>1,DP-1").unwrap();
    assert!(
        matches!(event, HyprEvent::Screencast { state: true, owner } if owner == "DP-1")
    );
}

#[test]
fn parse_screencastv2_with_name_containing_comma() {
    let event =
        HyprEvent::from_str("screencastv2>>0,window,My Window, with comma")
            .unwrap();
    assert!(
        matches!(event, HyprEvent::ScreencastV2 { state: false, owner, name }
        if owner == "window" && name == "My Window, with comma")
    );
}

#[test]
fn parse_windowtitle() {
    let event = HyprEvent::from_str("windowtitle>>0xdeadbeef").unwrap();
    assert!(
        matches!(event, HyprEvent::WindowTitle { window_address } if window_address == "0xdeadbeef")
    );
}

#[test]
fn parse_windowtitlev2_with_title() {
    let event =
        HyprEvent::from_str("windowtitlev2>>0xdeadbeef,My Window Title")
            .unwrap();
    assert!(
        matches!(event, HyprEvent::WindowTitleV2 { window_address, window_title }
        if window_address == "0xdeadbeef" && window_title == "My Window Title")
    );
}

#[test]
fn parse_windowtitlev2_empty_title() {
    let event = HyprEvent::from_str("windowtitlev2>>0xdeadbeef,").unwrap();
    assert!(
        matches!(event, HyprEvent::WindowTitleV2 { window_address, window_title }
        if window_address == "0xdeadbeef" && window_title.is_empty())
    );
}

#[test]
fn parse_togglegroup_with_handles() {
    let event =
        HyprEvent::from_str("togglegroup>>0,64cea2525760,64cea2522380")
            .unwrap();
    assert!(
        matches!(event, HyprEvent::ToggleGroup { state: false, handles }
        if handles == "64cea2525760,64cea2522380")
    );
}

#[test]
fn parse_moveintogroup() {
    let event = HyprEvent::from_str("moveintogroup>>0x123").unwrap();
    assert!(
        matches!(event, HyprEvent::MoveIntoGroup { window_address } if window_address == "0x123")
    );
}

#[test]
fn parse_moveoutofgroup() {
    let event = HyprEvent::from_str("moveoutofgroup>>0x456").unwrap();
    assert!(
        matches!(event, HyprEvent::MoveOutOfGroup { window_address } if window_address == "0x456")
    );
}

#[test]
fn parse_ignoregrouplock() {
    let event = HyprEvent::from_str("ignoregrouplock>>1").unwrap();
    assert!(matches!(event, HyprEvent::IgnoreGroupLock { state: true }));
}

#[test]
fn parse_lockgroups() {
    let event = HyprEvent::from_str("lockgroups>>0").unwrap();
    assert!(matches!(event, HyprEvent::LockGroups { state: false }));
}

#[test]
fn parse_configreloaded() {
    let event = HyprEvent::from_str("configreloaded>>").unwrap();
    assert!(matches!(event, HyprEvent::ConfigReloaded));
}

#[test]
fn parse_pin() {
    let event = HyprEvent::from_str("pin>>0x789,1").unwrap();
    assert!(
        matches!(event, HyprEvent::Pin { window_address, pin_state: true }
        if window_address == "0x789")
    );
}

#[test]
fn parse_minimized() {
    let event = HyprEvent::from_str("minimized>>0xabc,0").unwrap();
    assert!(
        matches!(event, HyprEvent::Minimized { window_address, minimized: false }
        if window_address == "0xabc")
    );
}

#[test]
fn parse_bell_with_address() {
    let event = HyprEvent::from_str("bell>>0x123").unwrap();
    assert!(
        matches!(event, HyprEvent::Bell { window_address } if window_address == "0x123")
    );
}

#[test]
fn parse_bell_empty() {
    let event = HyprEvent::from_str("bell>>").unwrap();
    assert!(
        matches!(event, HyprEvent::Bell { window_address } if window_address.is_empty())
    );
}

// Negative
#[test]
fn error_missing_delimiter() {
    let err = HyprEvent::from_str("workspace").unwrap_err();
    assert!(matches!(err, ParseEventError::MissingDelimiter));
}

#[test]
fn error_invalid_field_count() {
    let err = HyprEvent::from_str("workspacev2>>1").unwrap_err();
    assert!(
        matches!(err, ParseEventError::InvalidFieldCount { event, expected: 2, got: 1 }
        if event == "workspacev2")
    );
}

#[test]
fn error_invalid_bool() {
    let err = HyprEvent::from_str("fullscreen>>2").unwrap_err();
    assert!(matches!(err, ParseEventError::InvalidBool(v) if v == "2"));
}

#[test]
fn error_invalid_int() {
    let err = HyprEvent::from_str("workspacev2>>abc,2").unwrap_err();
    assert!(
        matches!(err, ParseEventError::InvalidInt { value, .. } if value == "abc")
    );
}

#[test]
fn error_unknown_event() {
    let err = HyprEvent::from_str("nonexistent>>data").unwrap_err();
    assert!(
        matches!(err, ParseEventError::UnknownEvent(e) if e == "nonexistent")
    );
}

#[test]
fn error_missing_field_in_monitorremovedv2() {
    let err = HyprEvent::from_str("monitorremovedv2>>0").unwrap_err();
    assert!(matches!(err, ParseEventError::MissingField { event, field }
        if event == "monitorremovedv2" && field == "name"));
}

#[test]
fn error_missing_field_in_openwindow() {
    let err = HyprEvent::from_str("openwindow>>addr").unwrap_err();
    assert!(matches!(err, ParseEventError::MissingField { event, field }
        if event == "openwindow" && field == "workspace_name"));
}

#[test]
fn error_activewindow_empty_data() {
    let err = HyprEvent::from_str("activewindow>>").unwrap_err();
    assert!(matches!(err, ParseEventError::MissingField { event, field }
        if event == "activewindow" && field == "window data"));
}

#[test]
fn error_windowtitlev2_empty_data() {
    let err = HyprEvent::from_str("windowtitlev2>>").unwrap_err();
    assert!(matches!(err, ParseEventError::MissingField { event, field }
        if event == "windowtitlev2" && field == "window_title data"));
}
