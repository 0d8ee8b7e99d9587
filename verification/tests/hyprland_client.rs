use chameleon::hyprland::event::CLOSED_SPECIAL_ID;
use chameleon::hyprland::client::{dispatch_command, eval_command, socket_paths, wait_event};
use chameleon::hyprland::event::{field_count_err, missing_field, parse_bool, parse_i32, HyprEvent, ParseEventError};

#[test]
fn sockets_live_in_the_instance_dir() {
    let (control, events) = socket_paths("/run/user/1000", "abc_123");
    assert_eq!(control, "/run/user/1000/hypr/abc_123/.socket.sock");
    assert_eq!(events, "/run/user/1000/hypr/abc_123/.socket2.sock");
}

#[test]
fn commands_end_with_nul() {
    assert_eq!(eval_command("hl.dispatch()"), "eval hl.dispatch()\0");
    assert_eq!(dispatch_command("workspace 2"), "dispatch workspace 2\0");
}

#[test]
fn waiting_reads_one_event() {
    assert!(matches!(wait_event(None), Ok(None)));
    assert!(matches!(wait_event(Some("workspace>>3".to_string())), Ok(Some(HyprEvent::Workspace { workspace_name })) if workspace_name == "3"));
    assert!(matches!(wait_event(Some("nope".to_string())), Err(ParseEventError::MissingDelimiter)));
}

#[test]
fn error_builders_keep_their_fields() {
    assert!(matches!(field_count_err("pin", 2, 1),
        ParseEventError::InvalidFieldCount { event, expected: 2, got: 1 } if event == "pin"));
    assert!(matches!(missing_field("openwindow", "class"),
        ParseEventError::MissingField { event, field } if event == "openwindow" && field == "class"));
}

#[test]
fn booleans_are_zero_or_one() {
    assert!(matches!(parse_bool("0"), Ok(false)));
    assert!(matches!(parse_bool("1"), Ok(true)));
    assert!(matches!(parse_bool("true"), Err(ParseEventError::InvalidBool(v)) if v == "true"));
    assert!(matches!(parse_bool(""), Err(ParseEventError::InvalidBool(v)) if v.is_empty()));
}

#[test]
fn integers_are_decimal() {
    assert!(matches!(parse_i32("42"), Ok(42)));
    assert!(matches!(parse_i32("-7"), Ok(-7)));
    assert!(matches!(parse_i32("+7"), Ok(7)));
    assert!(matches!(parse_i32("2147483647"), Ok(2147483647)));
    assert!(matches!(parse_i32("2147483648"), Err(ParseEventError::InvalidInt { value, .. }) if value == "2147483648"));
    assert!(matches!(parse_i32("0x10"), Err(ParseEventError::InvalidInt { .. })));
    assert!(matches!(parse_i32(""), Err(ParseEventError::InvalidInt { .. })));
}

#[test]
fn error_messages() {
    assert_eq!(ParseEventError::MissingDelimiter.message(), "missing '>>' delimiter in input");
    assert_eq!(
        field_count_err("workspacev2", 2, 1).message(),
        "invalid field count for event 'workspacev2': expected 2, got 1"
    );
    assert_eq!(
        missing_field("openwindow", "workspace_name").message(),
        "missing required field 'workspace_name' in event 'openwindow'"
    );
    assert_eq!(parse_bool("2").unwrap_err().message(), "invalid boolean value: 2");
    assert_eq!(
        parse_i32("abc").unwrap_err().message(),
        "invalid integer 'abc': invalid digit found in string"
    );
    assert_eq!(
        HyprEvent::from_str("nonexistent>>data").unwrap_err().message(),
        "unknown event: nonexistent"
    );
}

#[test]
fn closing_a_special_workspace_is_an_event() {
    let e = HyprEvent::from_str("activespecialv2>>,,DP-1").unwrap();
    assert!(matches!(e, HyprEvent::ActiveSpecialV2 { id, workspace_name, monitor_name }
        if id == CLOSED_SPECIAL_ID && workspace_name.is_empty() && monitor_name == "DP-1"));
    assert!(matches!(HyprEvent::from_str("activespecialv2>>x,s,DP-1"), Err(ParseEventError::InvalidInt { .. })));
}
