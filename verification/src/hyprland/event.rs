//! Hyprland events: the lines that the compositor writes to its event
//! socket, in the form `name>>data`, and their parsing.

use vstd::prelude::*;
use crate::text::{
    char_vec, chars_eq, decimal_i32, find_double, index_of_double, parse_decimal_i32, split_all,
    split_all_chars, split_once, split_once_chars, split_once_or_all, split_once_or_all_chars,
    str_eq, string_of, sub_vec, views, decimal, push_decimal,
};

verus! {

broadcast use vstd::string::group_string_axioms;

/// Contains all Hyprland events
#[derive(Debug, Clone, PartialEq, Eq)]
pub enum HyprEvent {
    /// Emitted when a user requests a workspace change, not on mouse movements
    /// (see `focusedmon`).
    Workspace { workspace_name: String },

    /// Emitted when a user requests a workspace change, not on mouse movements
    /// (see `focusedmon`). Includes workspace ID and name.
    WorkspaceV2 { id: i32, name: String },

    /// Emitted when the active monitor changes. Provides monitor name and
    /// workspace name.
    FocusedMon { monitor_name: String, workspace_name: String },

    /// Emitted when the active monitor changes. Provides monitor connector name
    /// and workspace ID.
    FocusedMonV2 { monitor_connector: String, workspace_id: i32 },

    /// Emitted when the active window changes. Contains window class and title.
    ActiveWindow { window_class: String, window_title: String },

    /// Emitted when the active window changes. Contains window address.
    ActiveWindowV2 { window_address: String },

    /// Emitted when a window's fullscreen status changes. `state` is 0 (exit
    /// fullscreen) or 1 (enter fullscreen).
    Fullscreen { state: bool },

    /// Emitted when a monitor is removed (disconnected).
    MonitorRemoved { name: String },

    /// Emitted when a monitor is removed (disconnected). Contains monitor ID,
    /// name, and description.
    MonitorRemovedV2 { id: i32, name: String, description: String },

    /// Emitted when a monitor is added (connected).
    MonitorAdded { name: String },

    /// Emitted when a monitor is added (connected). Contains monitor ID, name,
    /// and description.
    MonitorAddedV2 { id: i32, name: String, description: String },

    /// Emitted when a workspace is created.
    CreateWorkspace { name: String },

    /// Emitted when a workspace is created. Includes workspace ID and name.
    CreateWorkspaceV2 { id: i32, name: String },

    /// Emitted when a workspace is destroyed.
    DestroyWorkspace { name: String },

    /// Emitted when a workspace is destroyed. Includes workspace ID and name.
    DestroyWorkspaceV2 { id: i32, name: String },

    /// Emitted when a workspace is moved to a different monitor. Contains
    /// workspace name and monitor name.
    MoveWorkspace { workspace_name: String, monitor_name: String },

    /// Emitted when a workspace is moved to a different monitor. Contains
    /// workspace ID, workspace name, and monitor name.
    MoveWorkspaceV2 { id: i32, workspace_name: String, monitor_name: String },

    /// Emitted when a workspace is renamed. Provides workspace ID and the new
    /// name.
    RenameWorkspace { id: i32, new_name: String },

    /// Emitted when the special workspace on a monitor changes. Closing results
    /// in an empty workspace name. Contains workspace name and monitor name.
    ActiveSpecial { workspace_name: String, monitor_name: String },

    /// Emitted when the special workspace on a monitor changes. Closing results
    /// in empty workspace ID and name; the empty ID is read as
    /// `CLOSED_SPECIAL_ID`. Contains workspace ID, workspace name, and monitor
    /// name.
    ActiveSpecialV2 { id: i32, workspace_name: String, monitor_name: String },

    /// Emitted on a layout change of the active keyboard. Contains keyboard
    /// name and layout name.
    ActiveLayout { keyboard_name: String, layout_name: String },

    /// Emitted when a window is opened. Contains window address, workspace
    /// name, window class, and window title.
    OpenWindow { window_address: String, workspace_name: String, window_class: String, window_title: String },

    /// Emitted when a window is closed.
    CloseWindow { window_address: String },

    /// Emitted when a window is killed (via hyprctl kill).
    Kill { window_address: String },

    /// Emitted when a window is moved to a workspace. Contains window address
    /// and workspace name.
    MoveWindow { window_address: String, workspace_name: String },

    /// Emitted when a window is moved to a workspace. Contains window address,
    /// workspace ID, and workspace name.
    MoveWindowV2 { window_address: String, workspace_id: i32, workspace_name: String },

    /// Emitted when a layerSurface is mapped.
    OpenLayer { namespace: String },

    /// Emitted when a layerSurface is unmapped.
    CloseLayer { namespace: String },

    /// Emitted when a keybind submap changes. Empty submap name means default.
    Submap { submap_name: String },

    /// Emitted when a window changes its floating mode. `floating` is 0 (not
    /// floating) or 1 (floating).
    ChangeFloatingMode { window_address: String, floating: bool },

    /// Emitted when a window requests an urgent state.
    Urgent { window_address: String },

    /// Emitted when a screencopy state of a client changes. Multiple clients
    /// may exist. `state` is 0 or 1, `owner` indicates monitor, window, or
    /// region.
    Screencast { state: bool, owner: String },

    /// Emitted when a screencopy state of a client changes. Multiple clients
    /// may exist. `state` is 0 or 1, `owner` indicates monitor, window, or
    /// region, and `name` identifies the shared target (monitor name or window
    /// title).
    ScreencastV2 { state: bool, owner: String, name: String },

    /// Emitted when a window title changes. Contains window address.
    WindowTitle { window_address: String },

    /// Emitted when a window title changes. Contains window address and the new
    /// window title.
    WindowTitleV2 { window_address: String, window_title: String },

    /// Emitted when the `togglegroup` command is used. `state` is 0 (group
    /// destroyed) or 1 (group created). `handles` contains one or more
    /// comma-separated window addresses of the group members.
    ToggleGroup { state: bool, handles: String },

    /// Emitted when a window is merged into a group. Contains the address of
    /// the merged window.
    MoveIntoGroup { window_address: String },

    /// Emitted when a window is removed from a group. Contains the address of
    /// the removed window.
    MoveOutOfGroup { window_address: String },

    /// Emitted when `ignoregrouplock` is toggled. `state` is 0 or 1.
    IgnoreGroupLock { state: bool },

    /// Emitted when `lockgroups` is toggled. `state` is 0 or 1.
    LockGroups { state: bool },

    /// Emitted when the config is done reloading. Has no data.
    ConfigReloaded,

    /// Emitted when a window is pinned or unpinned. Contains window address and
    /// pin state.
    Pin { window_address: String, pin_state: bool },

    /// Emitted when an external taskbar-like app requests a window to be
    /// minimized. `minimized` is 0 (unminimized) or 1 (minimized).
    Minimized { window_address: String, minimized: bool },

    /// Emitted when an app requests to ring the system bell via
    /// `xdg-system-bell-v1`. `window_address` may be empty.
    Bell { window_address: String },
}

/// The meaning of a `HyprEvent`, with text as sequences of characters.

pub enum HyprEventView {
    /// Emitted when a user requests a workspace change, not on mouse movements
    /// (see `focusedmon`).
    Workspace { workspace_name: Seq<char> },

    /// Emitted when a user requests a workspace change, not on mouse movements
    /// (see `focusedmon`). Includes workspace ID and name.
    WorkspaceV2 { id: i32, name: Seq<char> },

    /// Emitted when the active monitor changes. Provides monitor name and
    /// workspace name.
    FocusedMon { monitor_name: Seq<char>, workspace_name: Seq<char> },

    /// Emitted when the active monitor changes. Provides monitor connector name
    /// and workspace ID.
    FocusedMonV2 { monitor_connector: Seq<char>, workspace_id: i32 },

    /// Emitted when the active window changes. Contains window class and title.
    ActiveWindow { window_class: Seq<char>, window_title: Seq<char> },

    /// Emitted when the active window changes. Contains window address.
    ActiveWindowV2 { window_address: Seq<char> },

    /// Emitted when a window's fullscreen status changes. `state` is 0 (exit
    /// fullscreen) or 1 (enter fullscreen).
    Fullscreen { state: bool },

    /// Emitted when a monitor is removed (disconnected).
    MonitorRemoved { name: Seq<char> },

    /// Emitted when a monitor is removed (disconnected). Contains monitor ID,
    /// name, and description.
    MonitorRemovedV2 { id: i32, name: Seq<char>, description: Seq<char> },

    /// Emitted when a monitor is added (connected).
    MonitorAdded { name: Seq<char> },

    /// Emitted when a monitor is added (connected). Contains monitor ID, name,
    /// and description.
    MonitorAddedV2 { id: i32, name: Seq<char>, description: Seq<char> },

    /// Emitted when a workspace is created.
    CreateWorkspace { name: Seq<char> },

    /// Emitted when a workspace is created. Includes workspace ID and name.
    CreateWorkspaceV2 { id: i32, name: Seq<char> },

    /// Emitted when a workspace is destroyed.
    DestroyWorkspace { name: Seq<char> },

    /// Emitted when a workspace is destroyed. Includes workspace ID and name.
    DestroyWorkspaceV2 { id: i32, name: Seq<char> },

    /// Emitted when a workspace is moved to a different monitor. Contains
    /// workspace name and monitor name.
    MoveWorkspace { workspace_name: Seq<char>, monitor_name: Seq<char> },

    /// Emitted when a workspace is moved to a different monitor. Contains
    /// workspace ID, workspace name, and monitor name.
    MoveWorkspaceV2 { id: i32, workspace_name: Seq<char>, monitor_name: Seq<char> },

    /// Emitted when a workspace is renamed. Provides workspace ID and the new
    /// name.
    RenameWorkspace { id: i32, new_name: Seq<char> },

    /// Emitted when the special workspace on a monitor changes. Closing results
    /// in an empty workspace name. Contains workspace name and monitor name.
    ActiveSpecial { workspace_name: Seq<char>, monitor_name: Seq<char> },

    /// Emitted when the special workspace on a monitor changes. Closing results
    /// in empty workspace ID and name. Contains workspace ID, workspace name,
    /// and monitor name.
    ActiveSpecialV2 { id: i32, workspace_name: Seq<char>, monitor_name: Seq<char> },

    /// Emitted on a layout change of the active keyboard. Contains keyboard
    /// name and layout name.
    ActiveLayout { keyboard_name: Seq<char>, layout_name: Seq<char> },

    /// Emitted when a window is opened. Contains window address, workspace
    /// name, window class, and window title.
    OpenWindow { window_address: Seq<char>, workspace_name: Seq<char>, window_class: Seq<char>, window_title: Seq<char> },

    /// Emitted when a window is closed.
    CloseWindow { window_address: Seq<char> },

    /// Emitted when a window is killed (via hyprctl kill).
    Kill { window_address: Seq<char> },

    /// Emitted when a window is moved to a workspace. Contains window address
    /// and workspace name.
    MoveWindow { window_address: Seq<char>, workspace_name: Seq<char> },

    /// Emitted when a window is moved to a workspace. Contains window address,
    /// workspace ID, and workspace name.
    MoveWindowV2 { window_address: Seq<char>, workspace_id: i32, workspace_name: Seq<char> },

    /// Emitted when a layerSurface is mapped.
    OpenLayer { namespace: Seq<char> },

    /// Emitted when a layerSurface is unmapped.
    CloseLayer { namespace: Seq<char> },

    /// Emitted when a keybind submap changes. Empty submap name means default.
    Submap { submap_name: Seq<char> },

    /// Emitted when a window changes its floating mode. `floating` is 0 (not
    /// floating) or 1 (floating).
    ChangeFloatingMode { window_address: Seq<char>, floating: bool },

    /// Emitted when a window requests an urgent state.
    Urgent { window_address: Seq<char> },

    /// Emitted when a screencopy state of a client changes. Multiple clients
    /// may exist. `state` is 0 or 1, `owner` indicates monitor, window, or
    /// region.
    Screencast { state: bool, owner: Seq<char> },

    /// Emitted when a screencopy state of a client changes. Multiple clients
    /// may exist. `state` is 0 or 1, `owner` indicates monitor, window, or
    /// region, and `name` identifies the shared target (monitor name or window
    /// title).
    ScreencastV2 { state: bool, owner: Seq<char>, name: Seq<char> },

    /// Emitted when a window title changes. Contains window address.
    WindowTitle { window_address: Seq<char> },

    /// Emitted when a window title changes. Contains window address and the new
    /// window title.
    WindowTitleV2 { window_address: Seq<char>, window_title: Seq<char> },

    /// Emitted when the `togglegroup` command is used. `state` is 0 (group
    /// destroyed) or 1 (group created). `handles` contains one or more
    /// comma-separated window addresses of the group members.
    ToggleGroup { state: bool, handles: Seq<char> },

    /// Emitted when a window is merged into a group. Contains the address of
    /// the merged window.
    MoveIntoGroup { window_address: Seq<char> },

    /// Emitted when a window is removed from a group. Contains the address of
    /// the removed window.
    MoveOutOfGroup { window_address: Seq<char> },

    /// Emitted when `ignoregrouplock` is toggled. `state` is 0 or 1.
    IgnoreGroupLock { state: bool },

    /// Emitted when `lockgroups` is toggled. `state` is 0 or 1.
    LockGroups { state: bool },

    /// Emitted when the config is done reloading. Has no data.
    ConfigReloaded,

    /// Emitted when a window is pinned or unpinned. Contains window address and
    /// pin state.
    Pin { window_address: Seq<char>, pin_state: bool },

    /// Emitted when an external taskbar-like app requests a window to be
    /// minimized. `minimized` is 0 (unminimized) or 1 (minimized).
    Minimized { window_address: Seq<char>, minimized: bool },

    /// Emitted when an app requests to ring the system bell via
    /// `xdg-system-bell-v1`. `window_address` may be empty.
    Bell { window_address: Seq<char> },
}

impl View for HyprEvent {
    type V = HyprEventView;

    open spec fn view(&self) -> HyprEventView {
        match self {
            HyprEvent::Workspace { workspace_name } => HyprEventView::Workspace { workspace_name: workspace_name@ },
            HyprEvent::WorkspaceV2 { id, name } => HyprEventView::WorkspaceV2 { id: *id, name: name@ },
            HyprEvent::FocusedMon { monitor_name, workspace_name } => HyprEventView::FocusedMon { monitor_name: monitor_name@, workspace_name: workspace_name@ },
            HyprEvent::FocusedMonV2 { monitor_connector, workspace_id } => HyprEventView::FocusedMonV2 { monitor_connector: monitor_connector@, workspace_id: *workspace_id },
            HyprEvent::ActiveWindow { window_class, window_title } => HyprEventView::ActiveWindow { window_class: window_class@, window_title: window_title@ },
            HyprEvent::ActiveWindowV2 { window_address } => HyprEventView::ActiveWindowV2 { window_address: window_address@ },
            HyprEvent::Fullscreen { state } => HyprEventView::Fullscreen { state: *state },
            HyprEvent::MonitorRemoved { name } => HyprEventView::MonitorRemoved { name: name@ },
            HyprEvent::MonitorRemovedV2 { id, name, description } => HyprEventView::MonitorRemovedV2 { id: *id, name: name@, description: description@ },
            HyprEvent::MonitorAdded { name } => HyprEventView::MonitorAdded { name: name@ },
            HyprEvent::MonitorAddedV2 { id, name, description } => HyprEventView::MonitorAddedV2 { id: *id, name: name@, description: description@ },
            HyprEvent::CreateWorkspace { name } => HyprEventView::CreateWorkspace { name: name@ },
            HyprEvent::CreateWorkspaceV2 { id, name } => HyprEventView::CreateWorkspaceV2 { id: *id, name: name@ },
            HyprEvent::DestroyWorkspace { name } => HyprEventView::DestroyWorkspace { name: name@ },
            HyprEvent::DestroyWorkspaceV2 { id, name } => HyprEventView::DestroyWorkspaceV2 { id: *id, name: name@ },
            HyprEvent::MoveWorkspace { workspace_name, monitor_name } => HyprEventView::MoveWorkspace { workspace_name: workspace_name@, monitor_name: monitor_name@ },
            HyprEvent::MoveWorkspaceV2 { id, workspace_name, monitor_name } => HyprEventView::MoveWorkspaceV2 { id: *id, workspace_name: workspace_name@, monitor_name: monitor_name@ },
            HyprEvent::RenameWorkspace { id, new_name } => HyprEventView::RenameWorkspace { id: *id, new_name: new_name@ },
            HyprEvent::ActiveSpecial { workspace_name, monitor_name } => HyprEventView::ActiveSpecial { workspace_name: workspace_name@, monitor_name: monitor_name@ },
            HyprEvent::ActiveSpecialV2 { id, workspace_name, monitor_name } => HyprEventView::ActiveSpecialV2 { id: *id, workspace_name: workspace_name@, monitor_name: monitor_name@ },
            HyprEvent::ActiveLayout { keyboard_name, layout_name } => HyprEventView::ActiveLayout { keyboard_name: keyboard_name@, layout_name: layout_name@ },
            HyprEvent::OpenWindow { window_address, workspace_name, window_class, window_title } => HyprEventView::OpenWindow { window_address: window_address@, workspace_name: workspace_name@, window_class: window_class@, window_title: window_title@ },
            HyprEvent::CloseWindow { window_address } => HyprEventView::CloseWindow { window_address: window_address@ },
            HyprEvent::Kill { window_address } => HyprEventView::Kill { window_address: window_address@ },
            HyprEvent::MoveWindow { window_address, workspace_name } => HyprEventView::MoveWindow { window_address: window_address@, workspace_name: workspace_name@ },
            HyprEvent::MoveWindowV2 { window_address, workspace_id, workspace_name } => HyprEventView::MoveWindowV2 { window_address: window_address@, workspace_id: *workspace_id, workspace_name: workspace_name@ },
            HyprEvent::OpenLayer { namespace } => HyprEventView::OpenLayer { namespace: namespace@ },
            HyprEvent::CloseLayer { namespace } => HyprEventView::CloseLayer { namespace: namespace@ },
            HyprEvent::Submap { submap_name } => HyprEventView::Submap { submap_name: submap_name@ },
            HyprEvent::ChangeFloatingMode { window_address, floating } => HyprEventView::ChangeFloatingMode { window_address: window_address@, floating: *floating },
            HyprEvent::Urgent { window_address } => HyprEventView::Urgent { window_address: window_address@ },
            HyprEvent::Screencast { state, owner } => HyprEventView::Screencast { state: *state, owner: owner@ },
            HyprEvent::ScreencastV2 { state, owner, name } => HyprEventView::ScreencastV2 { state: *state, owner: owner@, name: name@ },
            HyprEvent::WindowTitle { window_address } => HyprEventView::WindowTitle { window_address: window_address@ },
            HyprEvent::WindowTitleV2 { window_address, window_title } => HyprEventView::WindowTitleV2 { window_address: window_address@, window_title: window_title@ },
            HyprEvent::ToggleGroup { state, handles } => HyprEventView::ToggleGroup { state: *state, handles: handles@ },
            HyprEvent::MoveIntoGroup { window_address } => HyprEventView::MoveIntoGroup { window_address: window_address@ },
            HyprEvent::MoveOutOfGroup { window_address } => HyprEventView::MoveOutOfGroup { window_address: window_address@ },
            HyprEvent::IgnoreGroupLock { state } => HyprEventView::IgnoreGroupLock { state: *state },
            HyprEvent::LockGroups { state } => HyprEventView::LockGroups { state: *state },
            HyprEvent::ConfigReloaded => HyprEventView::ConfigReloaded,
            HyprEvent::Pin { window_address, pin_state } => HyprEventView::Pin { window_address: window_address@, pin_state: *pin_state },
            HyprEvent::Minimized { window_address, minimized } => HyprEventView::Minimized { window_address: window_address@, minimized: *minimized },
            HyprEvent::Bell { window_address } => HyprEventView::Bell { window_address: window_address@ },
        }
    }
}

/// The ID that an `activespecialv2` event carries when the special
/// workspace is closed: Hyprland then sends an empty ID (and an empty name),
/// and no workspace has the ID 0.
pub const CLOSED_SPECIAL_ID: i32 = 0;

/// Why an event line could not be parsed.
#[derive(Debug)]
pub enum ParseEventError {
    /// The line holds no `>>` between the event name and its data.
    MissingDelimiter,
    /// The event has another number of comma-separated fields than it needs.
    InvalidFieldCount { event: String, expected: usize, got: usize },
    /// A field that the event needs is missing.
    MissingField { event: String, field: String },
    /// A field that must be `0` or `1` is neither.
    InvalidBool(String),
    /// A field that must be a decimal `i32` is not one.
    InvalidInt { value: String, source: std::num::ParseIntError },
    /// The event name is not a Hyprland event.
    UnknownEvent(String),
}

/// The meaning of a `ParseEventError`. The `source` of an `InvalidInt` is
/// the error that `str::parse` reported, and has no part in it.
pub enum ParseEventErrorView {
    MissingDelimiter,
    InvalidFieldCount { event: Seq<char>, expected: usize, got: usize },
    MissingField { event: Seq<char>, field: Seq<char> },
    InvalidBool(Seq<char>),
    InvalidInt { value: Seq<char> },
    UnknownEvent(Seq<char>),
}

impl View for ParseEventError {
    type V = ParseEventErrorView;

    open spec fn view(&self) -> ParseEventErrorView {
        match self {
            ParseEventError::MissingDelimiter => ParseEventErrorView::MissingDelimiter,
            ParseEventError::InvalidFieldCount { event, expected, got } => {
                ParseEventErrorView::InvalidFieldCount { event: event@, expected: *expected, got: *got }
            },
            ParseEventError::MissingField { event, field } => {
                ParseEventErrorView::MissingField { event: event@, field: field@ }
            },
            ParseEventError::InvalidBool(v) => ParseEventErrorView::InvalidBool(v@),
            ParseEventError::InvalidInt { value, .. } => ParseEventErrorView::InvalidInt { value: value@ },
            ParseEventError::UnknownEvent(e) => ParseEventErrorView::UnknownEvent(e@),
        }
    }
}

/// The message of a parse error other than `InvalidInt`, whose message ends
/// with the text of the integer error it carries.
pub open spec fn parse_error_message(e: ParseEventErrorView) -> Seq<char> {
    match e {
        ParseEventErrorView::MissingDelimiter => "missing '>>' delimiter in input"@,
        ParseEventErrorView::InvalidFieldCount { event, expected, got } => "invalid field count for event '"@
            + event + "': expected "@ + decimal(expected as nat) + ", got "@ + decimal(got as nat),
        ParseEventErrorView::MissingField { event, field } => "missing required field '"@ + field
            + "' in event '"@ + event + "'"@,
        ParseEventErrorView::InvalidBool(v) => "invalid boolean value: "@ + v,
        ParseEventErrorView::InvalidInt { value } => "invalid integer '"@ + value + "': "@,
        ParseEventErrorView::UnknownEvent(n) => "unknown event: "@ + n,
    }
}

/// `ToString::to_string` on a `ParseIntError`: the text that its `Display`
/// writes. The contract claims nothing of that text, which std's
/// documentation does not give.
#[verifier::external_body]
fn int_error_text(e: &std::num::ParseIntError) -> (r: String) {
    e.to_string()
}

impl ParseEventError {
    /// The message that describes the error. For `InvalidInt` it is the
    /// prefix that `parse_error_message` gives, followed by the integer
    /// error's own text.
    pub fn message(&self) -> (r: String)
        ensures
            match self@ {
                ParseEventErrorView::InvalidInt { .. } => exists|t: Seq<char>| r@ == parse_error_message(self@) + t,
                _ => r@ == parse_error_message(self@),
            },
    {
        match self {
            ParseEventError::MissingDelimiter => "missing '>>' delimiter in input".to_owned(),
            ParseEventError::InvalidFieldCount { event, expected, got } => {
                let mut r = "invalid field count for event '".to_owned().concat(event.as_str());
                r.append("': expected ");
                push_decimal(&mut r, *expected as u64);
                r.append(", got ");
                push_decimal(&mut r, *got as u64);
                assert(r@ =~= parse_error_message(self@));
                r
            },
            ParseEventError::MissingField { event, field } => {
                let mut r = "missing required field '".to_owned().concat(field.as_str());
                r.append("' in event '");
                r.append(event.as_str());
                r.append("'");
                assert(r@ =~= parse_error_message(self@));
                r
            },
            ParseEventError::InvalidBool(v) => "invalid boolean value: ".to_owned().concat(v.as_str()),
            ParseEventError::InvalidInt { value, source } => {
                let mut r = "invalid integer '".to_owned().concat(value.as_str());
                r.append("': ");
                let ghost prefix = r@;
                let text = int_error_text(source);
                r.append(text.as_str());
                assert(prefix == parse_error_message(self@));
                assert(r@ == parse_error_message(self@) + text@);
                r
            },
            ParseEventError::UnknownEvent(n) => "unknown event: ".to_owned().concat(n.as_str()),
        }
    }
}

/// The meaning of a parse result.
pub open spec fn result_view(r: Result<HyprEvent, ParseEventError>) -> Result<HyprEventView, ParseEventErrorView> {
    match r {
        Ok(e) => Ok(e@),
        Err(e) => Err(e@),
    }
}

/// The comma-separated fields of an event's data; empty data has none.
pub open spec fn event_parts(data: Seq<char>) -> Seq<Seq<char>> {
    if data.len() == 0 {
        Seq::empty()
    } else {
        split_all(data, ',')
    }
}

/// The error for an event with `got` fields where it needs `expected`.
pub open spec fn field_count_error(event: Seq<char>, expected: usize, got: nat) -> ParseEventErrorView {
    ParseEventErrorView::InvalidFieldCount { event, expected, got: got as usize }
}

/// The error for an event that lacks the field `field`.
pub open spec fn missing_field_error(event: Seq<char>, field: Seq<char>) -> ParseEventErrorView {
    ParseEventErrorView::MissingField { event, field }
}

/// A boolean field: `0` is false and `1` is true.
pub open spec fn bool_field(s: Seq<char>) -> Result<bool, ParseEventErrorView> {
    if s == "0"@ {
        Ok(false)
    } else if s == "1"@ {
        Ok(true)
    } else {
        Err(ParseEventErrorView::InvalidBool(s))
    }
}

/// An integer field, written in decimal.
pub open spec fn int_field(s: Seq<char>) -> Result<i32, ParseEventErrorView> {
    match decimal_i32(s) {
        Some(v) => Ok(v),
        None => Err(ParseEventErrorView::InvalidInt { value: s }),
    }
}

/// Builds the error for an event with `got` fields where it needs `expected`.
pub fn field_count_err(event: &str, expected: usize, got: usize) -> (r: ParseEventError)
    ensures
        r@ == field_count_error(event@, expected, got as nat),
{
    ParseEventError::InvalidFieldCount { event: event.to_owned(), expected, got }
}

/// Builds the error for an event that lacks the field `field`.
pub fn missing_field(event: &str, field: &str) -> (r: ParseEventError)
    ensures
        r@ == missing_field_error(event@, field@),
{
    ParseEventError::MissingField { event: event.to_owned(), field: field.to_owned() }
}

/// Parses a boolean field: `0` or `1`.
pub fn parse_bool(s: &str) -> (r: Result<bool, ParseEventError>)
    ensures
        match r {
            Ok(b) => bool_field(s@) == Ok::<bool, ParseEventErrorView>(b),
            Err(e) => bool_field(s@) == Err::<bool, ParseEventErrorView>(e@),
        },
{
    if str_eq(s, "0") {
        Ok(false)
    } else if str_eq(s, "1") {
        Ok(true)
    } else {
        Err(ParseEventError::InvalidBool(s.to_owned()))
    }
}

/// Parses an integer field written in decimal.
pub fn parse_i32(s: &str) -> (r: Result<i32, ParseEventError>)
    ensures
        match r {
            Ok(v) => int_field(s@) == Ok::<i32, ParseEventErrorView>(v),
            Err(e) => int_field(s@) == Err::<i32, ParseEventErrorView>(e@),
        },
{
    match parse_decimal_i32(s) {
        Ok(v) => Ok(v),
        Err(source) => Err(ParseEventError::InvalidInt { value: s.to_owned(), source }),
    }
}

/// The meaning of an event line whose name concerns workspaces, or `None`
/// when the name is not one of them.
pub open spec fn parse_workspace_event(name: Seq<char>, data: Seq<char>) -> Option<Result<HyprEventView, ParseEventErrorView>> {
    let parts = event_parts(data);
    if name == "workspace"@ {
        Some(
            if parts.len() != 1 {
                Err(field_count_error(name, 1, parts.len()))
            } else {
                Ok(HyprEventView::Workspace { workspace_name: parts[0] })
            }
        )
    } else if name == "workspacev2"@ {
        Some(
            if parts.len() != 2 {
                Err(field_count_error(name, 2, parts.len()))
            } else {
                match int_field(parts[0]) {
                    Ok(parsed) => Ok(HyprEventView::WorkspaceV2 { id: parsed, name: parts[1] }),
                    Err(e) => Err(e),
                }
            }
        )
    } else if name == "createworkspace"@ {
        Some(
            if parts.len() != 1 {
                Err(field_count_error(name, 1, parts.len()))
            } else {
                Ok(HyprEventView::CreateWorkspace { name: parts[0] })
            }
        )
    } else if name == "createworkspacev2"@ {
        Some(
            if parts.len() != 2 {
                Err(field_count_error(name, 2, parts.len()))
            } else {
                match int_field(parts[0]) {
                    Ok(parsed) => Ok(HyprEventView::CreateWorkspaceV2 { id: parsed, name: parts[1] }),
                    Err(e) => Err(e),
                }
            }
        )
    } else if name == "destroyworkspace"@ {
        Some(
            if parts.len() != 1 {
                Err(field_count_error(name, 1, parts.len()))
            } else {
                Ok(HyprEventView::DestroyWorkspace { name: parts[0] })
            }
        )
    } else if name == "destroyworkspacev2"@ {
        Some(
            if parts.len() != 2 {
                Err(field_count_error(name, 2, parts.len()))
            } else {
                match int_field(parts[0]) {
                    Ok(parsed) => Ok(HyprEventView::DestroyWorkspaceV2 { id: parsed, name: parts[1] }),
                    Err(e) => Err(e),
                }
            }
        )
    } else if name == "moveworkspace"@ {
        Some(
            if parts.len() != 2 {
                Err(field_count_error(name, 2, parts.len()))
            } else {
                Ok(HyprEventView::MoveWorkspace { workspace_name: parts[0], monitor_name: parts[1] })
            }
        )
    } else if name == "moveworkspacev2"@ {
        Some(
            if parts.len() < 3 {
                Err(field_count_error(name, 3, parts.len()))
            } else {
                match int_field(parts[0]) {
                    Ok(parsed) => Ok(HyprEventView::MoveWorkspaceV2 { id: parsed, workspace_name: parts[1], monitor_name: parts[2] }),
                    Err(e) => Err(e),
                }
            }
        )
    } else if name == "renameworkspace"@ {
        Some(
            if parts.len() != 2 {
                Err(field_count_error(name, 2, parts.len()))
            } else {
                match int_field(parts[0]) {
                    Ok(parsed) => Ok(HyprEventView::RenameWorkspace { id: parsed, new_name: parts[1] }),
                    Err(e) => Err(e),
                }
            }
        )
    } else if name == "activespecial"@ {
        Some(
            if parts.len() != 2 {
                Err(field_count_error(name, 2, parts.len()))
            } else {
                Ok(HyprEventView::ActiveSpecial { workspace_name: parts[0], monitor_name: parts[1] })
            }
        )
    } else if name == "activespecialv2"@ {
        Some(
            if parts.len() < 3 {
                Err(field_count_error(name, 3, parts.len()))
            } else if parts[0].len() == 0 {
                Ok(HyprEventView::ActiveSpecialV2 { id: CLOSED_SPECIAL_ID, workspace_name: parts[1], monitor_name: parts[2] })
            } else {
                match int_field(parts[0]) {
                    Ok(parsed) => Ok(HyprEventView::ActiveSpecialV2 { id: parsed, workspace_name: parts[1], monitor_name: parts[2] }),
                    Err(e) => Err(e),
                }
            }
        )
    } else {
        None
    }
}

/// The meaning of an event line whose name concerns monitors, or `None`
/// when the name is not one of them.
pub open spec fn parse_monitor_event(name: Seq<char>, data: Seq<char>) -> Option<Result<HyprEventView, ParseEventErrorView>> {
    let parts = event_parts(data);
    if name == "focusedmon"@ {
        Some(
            if parts.len() != 2 {
                Err(field_count_error(name, 2, parts.len()))
            } else {
                Ok(HyprEventView::FocusedMon { monitor_name: parts[0], workspace_name: parts[1] })
            }
        )
    } else if name == "focusedmonv2"@ {
        Some(
            if parts.len() != 2 {
                Err(field_count_error(name, 2, parts.len()))
            } else {
                match int_field(parts[1]) {
                    Ok(parsed) => Ok(HyprEventView::FocusedMonV2 { monitor_connector: parts[0], workspace_id: parsed }),
                    Err(e) => Err(e),
                }
            }
        )
    } else if name == "monitorremoved"@ {
        Some(
            if parts.len() != 1 {
                Err(field_count_error(name, 1, parts.len()))
            } else {
                Ok(HyprEventView::MonitorRemoved { name: parts[0] })
            }
        )
    } else if name == "monitorremovedv2"@ {
        Some(
            match split_once(data, ',') {
                None => Err(missing_field_error(name, "name"@)),
                Some((first, rest)) => {
                    let (second, third) = split_once_or_all(rest, ',');
                    match int_field(first) {
                        Ok(parsed) => Ok(HyprEventView::MonitorRemovedV2 { id: parsed, name: second, description: third }),
                        Err(e) => Err(e),
                    }
                }
            }
        )
    } else if name == "monitoradded"@ {
        Some(
            if parts.len() != 1 {
                Err(field_count_error(name, 1, parts.len()))
            } else {
                Ok(HyprEventView::MonitorAdded { name: parts[0] })
            }
        )
    } else if name == "monitoraddedv2"@ {
        Some(
            match split_once(data, ',') {
                None => Err(missing_field_error(name, "name"@)),
                Some((first, rest)) => {
                    let (second, third) = split_once_or_all(rest, ',');
                    match int_field(first) {
                        Ok(parsed) => Ok(HyprEventView::MonitorAddedV2 { id: parsed, name: second, description: third }),
                        Err(e) => Err(e),
                    }
                }
            }
        )
    } else {
        None
    }
}

/// The meaning of an event line whose name concerns windows, or `None`
/// when the name is not one of them.
pub open spec fn parse_window_event(name: Seq<char>, data: Seq<char>) -> Option<Result<HyprEventView, ParseEventErrorView>> {
    let parts = event_parts(data);
    if name == "activewindow"@ {
        Some(
            if data.len() == 0 {
                Err(missing_field_error(name, "window data"@))
            } else {
                let (first, rest) = split_once_or_all(data, ',');
                Ok(HyprEventView::ActiveWindow { window_class: first, window_title: rest })
            }
        )
    } else if name == "activewindowv2"@ {
        Some(
            if parts.len() != 1 {
                Err(field_count_error(name, 1, parts.len()))
            } else {
                Ok(HyprEventView::ActiveWindowV2 { window_address: parts[0] })
            }
        )
    } else if name == "fullscreen"@ {
        Some(
            if parts.len() != 1 {
                Err(field_count_error(name, 1, parts.len()))
            } else {
                match bool_field(parts[0]) {
                    Ok(parsed) => Ok(HyprEventView::Fullscreen { state: parsed }),
                    Err(e) => Err(e),
                }
            }
        )
    } else if name == "openwindow"@ {
        Some(
            match split_once(data, ',') {
                None => Err(missing_field_error(name, "workspace_name"@)),
                Some((first, rest)) => match split_once(rest, ',') {
                    None => Err(missing_field_error(name, "class"@)),
                    Some((second, rest2)) => {
                        let (third, fourth) = split_once_or_all(rest2, ',');
                        Ok(HyprEventView::OpenWindow { window_address: first, workspace_name: second, window_class: third, window_title: fourth })
                    }
                },
            }
        )
    } else if name == "closewindow"@ {
        Some(
            if parts.len() != 1 {
                Err(field_count_error(name, 1, parts.len()))
            } else {
                Ok(HyprEventView::CloseWindow { window_address: parts[0] })
            }
        )
    } else if name == "kill"@ {
        Some(
            if parts.len() != 1 {
                Err(field_count_error(name, 1, parts.len()))
            } else {
                Ok(HyprEventView::Kill { window_address: parts[0] })
            }
        )
    } else if name == "movewindow"@ {
        Some(
            if parts.len() != 2 {
                Err(field_count_error(name, 2, parts.len()))
            } else {
                Ok(HyprEventView::MoveWindow { window_address: parts[0], workspace_name: parts[1] })
            }
        )
    } else if name == "movewindowv2"@ {
        Some(
            if parts.len() < 3 {
                Err(field_count_error(name, 3, parts.len()))
            } else {
                match int_field(parts[1]) {
                    Ok(parsed) => Ok(HyprEventView::MoveWindowV2 { window_address: parts[0], workspace_id: parsed, workspace_name: parts[2] }),
                    Err(e) => Err(e),
                }
            }
        )
    } else if name == "changefloatingmode"@ {
        Some(
            if parts.len() != 2 {
                Err(field_count_error(name, 2, parts.len()))
            } else {
                match bool_field(parts[1]) {
                    Ok(parsed) => Ok(HyprEventView::ChangeFloatingMode { window_address: parts[0], floating: parsed }),
                    Err(e) => Err(e),
                }
            }
        )
    } else if name == "urgent"@ {
        Some(
            if parts.len() != 1 {
                Err(field_count_error(name, 1, parts.len()))
            } else {
                Ok(HyprEventView::Urgent { window_address: parts[0] })
            }
        )
    } else if name == "windowtitle"@ {
        Some(
            if parts.len() != 1 {
                Err(field_count_error(name, 1, parts.len()))
            } else {
                Ok(HyprEventView::WindowTitle { window_address: parts[0] })
            }
        )
    } else if name == "windowtitlev2"@ {
        Some(
            if data.len() == 0 {
                Err(missing_field_error(name, "window_title data"@))
            } else {
                let (first, rest) = split_once_or_all(data, ',');
                Ok(HyprEventView::WindowTitleV2 { window_address: first, window_title: rest })
            }
        )
    } else if name == "pin"@ {
        Some(
            if parts.len() != 2 {
                Err(field_count_error(name, 2, parts.len()))
            } else {
                match bool_field(parts[1]) {
                    Ok(parsed) => Ok(HyprEventView::Pin { window_address: parts[0], pin_state: parsed }),
                    Err(e) => Err(e),
                }
            }
        )
    } else if name == "minimized"@ {
        Some(
            if parts.len() != 2 {
                Err(field_count_error(name, 2, parts.len()))
            } else {
                match bool_field(parts[1]) {
                    Ok(parsed) => Ok(HyprEventView::Minimized { window_address: parts[0], minimized: parsed }),
                    Err(e) => Err(e),
                }
            }
        )
    } else {
        None
    }
}

/// The meaning of an event line whose name concerns layouts, layers, submaps, screencasts, groups and the remaining, or `None`
/// when the name is not one of them.
pub open spec fn parse_other_event(name: Seq<char>, data: Seq<char>) -> Option<Result<HyprEventView, ParseEventErrorView>> {
    let parts = event_parts(data);
    if name == "activelayout"@ {
        Some(
            if parts.len() != 2 {
                Err(field_count_error(name, 2, parts.len()))
            } else {
                Ok(HyprEventView::ActiveLayout { keyboard_name: parts[0], layout_name: parts[1] })
            }
        )
    } else if name == "openlayer"@ {
        Some(
            if parts.len() != 1 {
                Err(field_count_error(name, 1, parts.len()))
            } else {
                Ok(HyprEventView::OpenLayer { namespace: parts[0] })
            }
        )
    } else if name == "closelayer"@ {
        Some(
            if parts.len() != 1 {
                Err(field_count_error(name, 1, parts.len()))
            } else {
                Ok(HyprEventView::CloseLayer { namespace: parts[0] })
            }
        )
    } else if name == "submap"@ {
        Some(
            Ok(HyprEventView::Submap { submap_name: data })
        )
    } else if name == "screencast"@ {
        Some(
            if parts.len() != 2 {
                Err(field_count_error(name, 2, parts.len()))
            } else {
                match bool_field(parts[0]) {
                    Ok(parsed) => Ok(HyprEventView::Screencast { state: parsed, owner: parts[1] }),
                    Err(e) => Err(e),
                }
            }
        )
    } else if name == "screencastv2"@ {
        Some(
            match split_once(data, ',') {
                None => Err(missing_field_error(name, "owner"@)),
                Some((first, rest)) => {
                    let (second, third) = split_once_or_all(rest, ',');
                    match bool_field(first) {
                        Ok(parsed) => Ok(HyprEventView::ScreencastV2 { state: parsed, owner: second, name: third }),
                        Err(e) => Err(e),
                    }
                }
            }
        )
    } else if name == "togglegroup"@ {
        Some(
            {
                let (first, rest) = split_once_or_all(data, ',');
                match bool_field(first) {
                    Ok(parsed) => Ok(HyprEventView::ToggleGroup { state: parsed, handles: rest }),
                    Err(e) => Err(e),
                }
            }
        )
    } else if name == "moveintogroup"@ {
        Some(
            if parts.len() != 1 {
                Err(field_count_error(name, 1, parts.len()))
            } else {
                Ok(HyprEventView::MoveIntoGroup { window_address: parts[0] })
            }
        )
    } else if name == "moveoutofgroup"@ {
        Some(
            if parts.len() != 1 {
                Err(field_count_error(name, 1, parts.len()))
            } else {
                Ok(HyprEventView::MoveOutOfGroup { window_address: parts[0] })
            }
        )
    } else if name == "ignoregrouplock"@ {
        Some(
            if parts.len() != 1 {
                Err(field_count_error(name, 1, parts.len()))
            } else {
                match bool_field(parts[0]) {
                    Ok(parsed) => Ok(HyprEventView::IgnoreGroupLock { state: parsed }),
                    Err(e) => Err(e),
                }
            }
        )
    } else if name == "lockgroups"@ {
        Some(
            if parts.len() != 1 {
                Err(field_count_error(name, 1, parts.len()))
            } else {
                match bool_field(parts[0]) {
                    Ok(parsed) => Ok(HyprEventView::LockGroups { state: parsed }),
                    Err(e) => Err(e),
                }
            }
        )
    } else if name == "configreloaded"@ {
        Some(
            Ok(HyprEventView::ConfigReloaded)
        )
    } else if name == "bell"@ {
        Some(
            Ok(HyprEventView::Bell { window_address: if parts.len() > 0 { parts[0] } else { Seq::empty() } })
        )
    } else {
        None
    }
}

/// Parses an event whose name concerns workspaces.
fn parse_workspace_event_exec(
    name_cs: &Vec<char>,
    name: &String,
    data_cs: &Vec<char>,
    data: &String,
    parts: &Vec<String>,
) -> (r: Option<Result<HyprEvent, ParseEventError>>)
    requires
        name_cs@ == name@,
        data_cs@ == data@,
        views(parts@) == event_parts(data@),
    ensures
        match r {
            Some(res) => parse_workspace_event(name@, data@) == Some(result_view(res)),
            None => parse_workspace_event(name@, data@) is None,
        },
{
    if chars_eq(name_cs, "workspace") {
        if parts.len() != 1 {
            return Some(Err(field_count_err(name.as_str(), 1, parts.len())));
        }
        return Some(Ok(HyprEvent::Workspace { workspace_name: parts[0].clone() }));
    }
    if chars_eq(name_cs, "workspacev2") {
        if parts.len() != 2 {
            return Some(Err(field_count_err(name.as_str(), 2, parts.len())));
        }
        return Some(match parse_i32(parts[0].as_str()) {
            Ok(parsed) => Ok(HyprEvent::WorkspaceV2 { id: parsed, name: parts[1].clone() }),
            Err(e) => Err(e),
        });
    }
    if chars_eq(name_cs, "createworkspace") {
        if parts.len() != 1 {
            return Some(Err(field_count_err(name.as_str(), 1, parts.len())));
        }
        return Some(Ok(HyprEvent::CreateWorkspace { name: parts[0].clone() }));
    }
    if chars_eq(name_cs, "createworkspacev2") {
        if parts.len() != 2 {
            return Some(Err(field_count_err(name.as_str(), 2, parts.len())));
        }
        return Some(match parse_i32(parts[0].as_str()) {
            Ok(parsed) => Ok(HyprEvent::CreateWorkspaceV2 { id: parsed, name: parts[1].clone() }),
            Err(e) => Err(e),
        });
    }
    if chars_eq(name_cs, "destroyworkspace") {
        if parts.len() != 1 {
            return Some(Err(field_count_err(name.as_str(), 1, parts.len())));
        }
        return Some(Ok(HyprEvent::DestroyWorkspace { name: parts[0].clone() }));
    }
    if chars_eq(name_cs, "destroyworkspacev2") {
        if parts.len() != 2 {
            return Some(Err(field_count_err(name.as_str(), 2, parts.len())));
        }
        return Some(match parse_i32(parts[0].as_str()) {
            Ok(parsed) => Ok(HyprEvent::DestroyWorkspaceV2 { id: parsed, name: parts[1].clone() }),
            Err(e) => Err(e),
        });
    }
    if chars_eq(name_cs, "moveworkspace") {
        if parts.len() != 2 {
            return Some(Err(field_count_err(name.as_str(), 2, parts.len())));
        }
        return Some(Ok(HyprEvent::MoveWorkspace { workspace_name: parts[0].clone(), monitor_name: parts[1].clone() }));
    }
    if chars_eq(name_cs, "moveworkspacev2") {
        if parts.len() < 3 {
            return Some(Err(field_count_err(name.as_str(), 3, parts.len())));
        }
        return Some(match parse_i32(parts[0].as_str()) {
            Ok(parsed) => Ok(HyprEvent::MoveWorkspaceV2 { id: parsed, workspace_name: parts[1].clone(), monitor_name: parts[2].clone() }),
            Err(e) => Err(e),
        });
    }
    if chars_eq(name_cs, "renameworkspace") {
        if parts.len() != 2 {
            return Some(Err(field_count_err(name.as_str(), 2, parts.len())));
        }
        return Some(match parse_i32(parts[0].as_str()) {
            Ok(parsed) => Ok(HyprEvent::RenameWorkspace { id: parsed, new_name: parts[1].clone() }),
            Err(e) => Err(e),
        });
    }
    if chars_eq(name_cs, "activespecial") {
        if parts.len() != 2 {
            return Some(Err(field_count_err(name.as_str(), 2, parts.len())));
        }
        return Some(Ok(HyprEvent::ActiveSpecial { workspace_name: parts[0].clone(), monitor_name: parts[1].clone() }));
    }
    if chars_eq(name_cs, "activespecialv2") {
        if parts.len() < 3 {
            return Some(Err(field_count_err(name.as_str(), 3, parts.len())));
        }
        if parts[0].as_str().unicode_len() == 0 {
            return Some(Ok(HyprEvent::ActiveSpecialV2 { id: CLOSED_SPECIAL_ID, workspace_name: parts[1].clone(), monitor_name: parts[2].clone() }));
        }
        return Some(match parse_i32(parts[0].as_str()) {
            Ok(parsed) => Ok(HyprEvent::ActiveSpecialV2 { id: parsed, workspace_name: parts[1].clone(), monitor_name: parts[2].clone() }),
            Err(e) => Err(e),
        });
    }
    None
}

/// Parses an event whose name concerns monitors.
fn parse_monitor_event_exec(
    name_cs: &Vec<char>,
    name: &String,
    data_cs: &Vec<char>,
    data: &String,
    parts: &Vec<String>,
) -> (r: Option<Result<HyprEvent, ParseEventError>>)
    requires
        name_cs@ == name@,
        data_cs@ == data@,
        views(parts@) == event_parts(data@),
    ensures
        match r {
            Some(res) => parse_monitor_event(name@, data@) == Some(result_view(res)),
            None => parse_monitor_event(name@, data@) is None,
        },
{
    if chars_eq(name_cs, "focusedmon") {
        if parts.len() != 2 {
            return Some(Err(field_count_err(name.as_str(), 2, parts.len())));
        }
        return Some(Ok(HyprEvent::FocusedMon { monitor_name: parts[0].clone(), workspace_name: parts[1].clone() }));
    }
    if chars_eq(name_cs, "focusedmonv2") {
        if parts.len() != 2 {
            return Some(Err(field_count_err(name.as_str(), 2, parts.len())));
        }
        return Some(match parse_i32(parts[1].as_str()) {
            Ok(parsed) => Ok(HyprEvent::FocusedMonV2 { monitor_connector: parts[0].clone(), workspace_id: parsed }),
            Err(e) => Err(e),
        });
    }
    if chars_eq(name_cs, "monitorremoved") {
        if parts.len() != 1 {
            return Some(Err(field_count_err(name.as_str(), 1, parts.len())));
        }
        return Some(Ok(HyprEvent::MonitorRemoved { name: parts[0].clone() }));
    }
    if chars_eq(name_cs, "monitorremovedv2") {
        let (first, rest) = match split_once_chars(data_cs, ',') {
            Some(p) => p,
            None => return Some(Err(missing_field(name.as_str(), "name"))),
        };
        let rest_cs = char_vec(rest.as_str());
        let (second, third) = split_once_or_all_chars(&rest_cs, ',');
        return Some(match parse_i32(first.as_str()) {
            Ok(parsed) => Ok(HyprEvent::MonitorRemovedV2 { id: parsed, name: second, description: third }),
            Err(e) => Err(e),
        });
    }
    if chars_eq(name_cs, "monitoradded") {
        if parts.len() != 1 {
            return Some(Err(field_count_err(name.as_str(), 1, parts.len())));
        }
        return Some(Ok(HyprEvent::MonitorAdded { name: parts[0].clone() }));
    }
    if chars_eq(name_cs, "monitoraddedv2") {
        let (first, rest) = match split_once_chars(data_cs, ',') {
            Some(p) => p,
            None => return Some(Err(missing_field(name.as_str(), "name"))),
        };
        let rest_cs = char_vec(rest.as_str());
        let (second, third) = split_once_or_all_chars(&rest_cs, ',');
        return Some(match parse_i32(first.as_str()) {
            Ok(parsed) => Ok(HyprEvent::MonitorAddedV2 { id: parsed, name: second, description: third }),
            Err(e) => Err(e),
        });
    }
    None
}

/// Parses an event whose name concerns windows.
fn parse_window_event_exec(
    name_cs: &Vec<char>,
    name: &String,
    data_cs: &Vec<char>,
    data: &String,
    parts: &Vec<String>,
) -> (r: Option<Result<HyprEvent, ParseEventError>>)
    requires
        name_cs@ == name@,
        data_cs@ == data@,
        views(parts@) == event_parts(data@),
    ensures
        match r {
            Some(res) => parse_window_event(name@, data@) == Some(result_view(res)),
            None => parse_window_event(name@, data@) is None,
        },
{
    if chars_eq(name_cs, "activewindow") {
        if data_cs.len() == 0 {
            return Some(Err(missing_field(name.as_str(), "window data")));
        }
        let (first, rest) = split_once_or_all_chars(data_cs, ',');
        return Some(Ok(HyprEvent::ActiveWindow { window_class: first, window_title: rest }));
    }
    if chars_eq(name_cs, "activewindowv2") {
        if parts.len() != 1 {
            return Some(Err(field_count_err(name.as_str(), 1, parts.len())));
        }
        return Some(Ok(HyprEvent::ActiveWindowV2 { window_address: parts[0].clone() }));
    }
    if chars_eq(name_cs, "fullscreen") {
        if parts.len() != 1 {
            return Some(Err(field_count_err(name.as_str(), 1, parts.len())));
        }
        return Some(match parse_bool(parts[0].as_str()) {
            Ok(parsed) => Ok(HyprEvent::Fullscreen { state: parsed }),
            Err(e) => Err(e),
        });
    }
    if chars_eq(name_cs, "openwindow") {
        let (first, rest) = match split_once_chars(data_cs, ',') {
            Some(p) => p,
            None => return Some(Err(missing_field(name.as_str(), "workspace_name"))),
        };
        let rest_cs = char_vec(rest.as_str());
        let (second, rest2) = match split_once_chars(&rest_cs, ',') {
            Some(p) => p,
            None => return Some(Err(missing_field(name.as_str(), "class"))),
        };
        let rest2_cs = char_vec(rest2.as_str());
        let (third, fourth) = split_once_or_all_chars(&rest2_cs, ',');
        return Some(Ok(HyprEvent::OpenWindow { window_address: first, workspace_name: second, window_class: third, window_title: fourth }));
    }
    if chars_eq(name_cs, "closewindow") {
        if parts.len() != 1 {
            return Some(Err(field_count_err(name.as_str(), 1, parts.len())));
        }
        return Some(Ok(HyprEvent::CloseWindow { window_address: parts[0].clone() }));
    }
    if chars_eq(name_cs, "kill") {
        if parts.len() != 1 {
            return Some(Err(field_count_err(name.as_str(), 1, parts.len())));
        }
        return Some(Ok(HyprEvent::Kill { window_address: parts[0].clone() }));
    }
    if chars_eq(name_cs, "movewindow") {
        if parts.len() != 2 {
            return Some(Err(field_count_err(name.as_str(), 2, parts.len())));
        }
        return Some(Ok(HyprEvent::MoveWindow { window_address: parts[0].clone(), workspace_name: parts[1].clone() }));
    }
    if chars_eq(name_cs, "movewindowv2") {
        if parts.len() < 3 {
            return Some(Err(field_count_err(name.as_str(), 3, parts.len())));
        }
        return Some(match parse_i32(parts[1].as_str()) {
            Ok(parsed) => Ok(HyprEvent::MoveWindowV2 { window_address: parts[0].clone(), workspace_id: parsed, workspace_name: parts[2].clone() }),
            Err(e) => Err(e),
        });
    }
    if chars_eq(name_cs, "changefloatingmode") {
        if parts.len() != 2 {
            return Some(Err(field_count_err(name.as_str(), 2, parts.len())));
        }
        return Some(match parse_bool(parts[1].as_str()) {
            Ok(parsed) => Ok(HyprEvent::ChangeFloatingMode { window_address: parts[0].clone(), floating: parsed }),
            Err(e) => Err(e),
        });
    }
    if chars_eq(name_cs, "urgent") {
        if parts.len() != 1 {
            return Some(Err(field_count_err(name.as_str(), 1, parts.len())));
        }
        return Some(Ok(HyprEvent::Urgent { window_address: parts[0].clone() }));
    }
    if chars_eq(name_cs, "windowtitle") {
        if parts.len() != 1 {
            return Some(Err(field_count_err(name.as_str(), 1, parts.len())));
        }
        return Some(Ok(HyprEvent::WindowTitle { window_address: parts[0].clone() }));
    }
    if chars_eq(name_cs, "windowtitlev2") {
        if data_cs.len() == 0 {
            return Some(Err(missing_field(name.as_str(), "window_title data")));
        }
        let (first, rest) = split_once_or_all_chars(data_cs, ',');
        return Some(Ok(HyprEvent::WindowTitleV2 { window_address: first, window_title: rest }));
    }
    if chars_eq(name_cs, "pin") {
        if parts.len() != 2 {
            return Some(Err(field_count_err(name.as_str(), 2, parts.len())));
        }
        return Some(match parse_bool(parts[1].as_str()) {
            Ok(parsed) => Ok(HyprEvent::Pin { window_address: parts[0].clone(), pin_state: parsed }),
            Err(e) => Err(e),
        });
    }
    if chars_eq(name_cs, "minimized") {
        if parts.len() != 2 {
            return Some(Err(field_count_err(name.as_str(), 2, parts.len())));
        }
        return Some(match parse_bool(parts[1].as_str()) {
            Ok(parsed) => Ok(HyprEvent::Minimized { window_address: parts[0].clone(), minimized: parsed }),
            Err(e) => Err(e),
        });
    }
    None
}

/// Parses an event whose name concerns layouts, layers, submaps, screencasts, groups and the remaining.
fn parse_other_event_exec(
    name_cs: &Vec<char>,
    name: &String,
    data_cs: &Vec<char>,
    data: &String,
    parts: &Vec<String>,
) -> (r: Option<Result<HyprEvent, ParseEventError>>)
    requires
        name_cs@ == name@,
        data_cs@ == data@,
        views(parts@) == event_parts(data@),
    ensures
        match r {
            Some(res) => parse_other_event(name@, data@) == Some(result_view(res)),
            None => parse_other_event(name@, data@) is None,
        },
{
    if chars_eq(name_cs, "activelayout") {
        if parts.len() != 2 {
            return Some(Err(field_count_err(name.as_str(), 2, parts.len())));
        }
        return Some(Ok(HyprEvent::ActiveLayout { keyboard_name: parts[0].clone(), layout_name: parts[1].clone() }));
    }
    if chars_eq(name_cs, "openlayer") {
        if parts.len() != 1 {
            return Some(Err(field_count_err(name.as_str(), 1, parts.len())));
        }
        return Some(Ok(HyprEvent::OpenLayer { namespace: parts[0].clone() }));
    }
    if chars_eq(name_cs, "closelayer") {
        if parts.len() != 1 {
            return Some(Err(field_count_err(name.as_str(), 1, parts.len())));
        }
        return Some(Ok(HyprEvent::CloseLayer { namespace: parts[0].clone() }));
    }
    if chars_eq(name_cs, "submap") {
        return Some(Ok(HyprEvent::Submap { submap_name: data.clone() }));
    }
    if chars_eq(name_cs, "screencast") {
        if parts.len() != 2 {
            return Some(Err(field_count_err(name.as_str(), 2, parts.len())));
        }
        return Some(match parse_bool(parts[0].as_str()) {
            Ok(parsed) => Ok(HyprEvent::Screencast { state: parsed, owner: parts[1].clone() }),
            Err(e) => Err(e),
        });
    }
    if chars_eq(name_cs, "screencastv2") {
        let (first, rest) = match split_once_chars(data_cs, ',') {
            Some(p) => p,
            None => return Some(Err(missing_field(name.as_str(), "owner"))),
        };
        let rest_cs = char_vec(rest.as_str());
        let (second, third) = split_once_or_all_chars(&rest_cs, ',');
        return Some(match parse_bool(first.as_str()) {
            Ok(parsed) => Ok(HyprEvent::ScreencastV2 { state: parsed, owner: second, name: third }),
            Err(e) => Err(e),
        });
    }
    if chars_eq(name_cs, "togglegroup") {
        let (first, rest) = split_once_or_all_chars(data_cs, ',');
        return Some(match parse_bool(first.as_str()) {
            Ok(parsed) => Ok(HyprEvent::ToggleGroup { state: parsed, handles: rest }),
            Err(e) => Err(e),
        });
    }
    if chars_eq(name_cs, "moveintogroup") {
        if parts.len() != 1 {
            return Some(Err(field_count_err(name.as_str(), 1, parts.len())));
        }
        return Some(Ok(HyprEvent::MoveIntoGroup { window_address: parts[0].clone() }));
    }
    if chars_eq(name_cs, "moveoutofgroup") {
        if parts.len() != 1 {
            return Some(Err(field_count_err(name.as_str(), 1, parts.len())));
        }
        return Some(Ok(HyprEvent::MoveOutOfGroup { window_address: parts[0].clone() }));
    }
    if chars_eq(name_cs, "ignoregrouplock") {
        if parts.len() != 1 {
            return Some(Err(field_count_err(name.as_str(), 1, parts.len())));
        }
        return Some(match parse_bool(parts[0].as_str()) {
            Ok(parsed) => Ok(HyprEvent::IgnoreGroupLock { state: parsed }),
            Err(e) => Err(e),
        });
    }
    if chars_eq(name_cs, "lockgroups") {
        if parts.len() != 1 {
            return Some(Err(field_count_err(name.as_str(), 1, parts.len())));
        }
        return Some(match parse_bool(parts[0].as_str()) {
            Ok(parsed) => Ok(HyprEvent::LockGroups { state: parsed }),
            Err(e) => Err(e),
        });
    }
    if chars_eq(name_cs, "configreloaded") {
        return Some(Ok(HyprEvent::ConfigReloaded));
    }
    if chars_eq(name_cs, "bell") {
        let window_address = if parts.len() > 0 { parts[0].clone() } else { String::new() };
        return Some(Ok(HyprEvent::Bell { window_address: window_address }));
    }
    None
}

/// The meaning of the event named `name` with data `data`.
pub open spec fn parse_named(name: Seq<char>, data: Seq<char>) -> Result<HyprEventView, ParseEventErrorView> {
    match parse_workspace_event(name, data) {
        Some(r) => r,
        None => match parse_monitor_event(name, data) {
            Some(r) => r,
            None => match parse_window_event(name, data) {
                Some(r) => r,
                None => match parse_other_event(name, data) {
                    Some(r) => r,
                    None => Err(ParseEventErrorView::UnknownEvent(name)),
                },
            },
        },
    }
}

/// The meaning of the event line `s`: the name is what comes before the
/// first `>>`, the data what follows it.
pub open spec fn parse_event(s: Seq<char>) -> Result<HyprEventView, ParseEventErrorView> {
    match find_double(s, '>') {
        Some(i) => parse_named(s.take(i), s.skip(i + 2)),
        None => Err(ParseEventErrorView::MissingDelimiter),
    }
}

impl HyprEvent {
    /// Parses one line of the Hyprland event socket.
    pub fn from_str(s: &str) -> (r: Result<HyprEvent, ParseEventError>)
        ensures
            result_view(r) == parse_event(s@),
    {
        let cs = char_vec(s);
        let n = cs.len();
        let i = match index_of_double(&cs, '>') {
            Some(i) => i,
            None => return Err(ParseEventError::MissingDelimiter),
        };
        let name_cs = sub_vec(&cs, 0, i);
        let data_cs = sub_vec(&cs, i + 2, n);
        let name = string_of(&cs, 0, i);
        let data = string_of(&cs, i + 2, n);
        assert(name@ == s@.take(i as int));
        assert(data@ == s@.skip(i + 2));
        let parts = if data_cs.len() == 0 {
            let empty: Vec<String> = Vec::new();
            assert(views(empty@) =~= Seq::<Seq<char>>::empty());
            empty
        } else {
            split_all_chars(&data_cs, ',')
        };
        if let Some(r) = parse_workspace_event_exec(&name_cs, &name, &data_cs, &data, &parts) {
            return r;
        }
        if let Some(r) = parse_monitor_event_exec(&name_cs, &name, &data_cs, &data, &parts) {
            return r;
        }
        if let Some(r) = parse_window_event_exec(&name_cs, &name, &data_cs, &data, &parts) {
            return r;
        }
        if let Some(r) = parse_other_event_exec(&name_cs, &name, &data_cs, &data, &parts) {
            return r;
        }
        Err(ParseEventError::UnknownEvent(name))
    }
}

impl std::str::FromStr for HyprEvent {
    type Err = ParseEventError;

    fn from_str(s: &str) -> (r: Result<HyprEvent, ParseEventError>)
        ensures
            result_view(r) == parse_event(s@),
    {
        HyprEvent::from_str(s)
    }
}

} // verus!
