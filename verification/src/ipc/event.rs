//! The Hyprland events that the IPC layer listens to, in the form
//! `name>>field,field,...`.

use vstd::prelude::*;
use crate::text::{
    char_vec, chars_eq, decimal_i32, find_double, index_of_double, parse_decimal_i32, split_all,
    split_all_chars, string_of, sub_vec, views,
};

verus! {

broadcast use vstd::string::group_string_axioms;

/// The Hyprland events that the IPC layer knows.
#[derive(Debug, Clone)]
pub enum HyprEvent {
    ActiveLayout { keyboard_name: String, layout_name: String },
    WorkspaceV2 { id: i32, name: String },
    FocusedMonV2 { monitor_connector: String, workspace_id: i32 },
    MonitorRemoved { name: String },
    MonitorAdded { name: String },
    CreateWorkspaceV2 { id: i32, name: String },
    DestroyWorkspaceV2 { id: i32, name: String },
    NoEvent,
}

/// The meaning of a `HyprEvent`.
pub enum HyprEventView {
    ActiveLayout { keyboard_name: Seq<char>, layout_name: Seq<char> },
    WorkspaceV2 { id: i32, name: Seq<char> },
    FocusedMonV2 { monitor_connector: Seq<char>, workspace_id: i32 },
    MonitorRemoved { name: Seq<char> },
    MonitorAdded { name: Seq<char> },
    CreateWorkspaceV2 { id: i32, name: Seq<char> },
    DestroyWorkspaceV2 { id: i32, name: Seq<char> },
    NoEvent,
}

impl View for HyprEvent {
    type V = HyprEventView;

    open spec fn view(&self) -> HyprEventView {
        match self {
            HyprEvent::ActiveLayout { keyboard_name, layout_name } => HyprEventView::ActiveLayout {
                keyboard_name: keyboard_name@,
                layout_name: layout_name@,
            },
            HyprEvent::WorkspaceV2 { id, name } => HyprEventView::WorkspaceV2 { id: *id, name: name@ },
            HyprEvent::FocusedMonV2 { monitor_connector, workspace_id } => HyprEventView::FocusedMonV2 {
                monitor_connector: monitor_connector@,
                workspace_id: *workspace_id,
            },
            HyprEvent::MonitorRemoved { name } => HyprEventView::MonitorRemoved { name: name@ },
            HyprEvent::MonitorAdded { name } => HyprEventView::MonitorAdded { name: name@ },
            HyprEvent::CreateWorkspaceV2 { id, name } => HyprEventView::CreateWorkspaceV2 { id: *id, name: name@ },
            HyprEvent::DestroyWorkspaceV2 { id, name } => HyprEventView::DestroyWorkspaceV2 {
                id: *id,
                name: name@,
            },
            HyprEvent::NoEvent => HyprEventView::NoEvent,
        }
    }
}

impl Default for HyprEvent {
    fn default() -> (r: Self)
        ensures
            r is NoEvent,
    {
        HyprEvent::NoEvent
    }
}

/// Why a line is not an event that the IPC layer knows.
#[derive(Debug, Clone)]
pub enum IpcEventError {
    /// The line holds no `>>`.
    InvalidInput,
    /// The event name is not one that the IPC layer knows.
    UndefinedEvent(String),
}

/// The meaning of an `IpcEventError`.
pub enum IpcEventErrorView {
    InvalidInput,
    UndefinedEvent(Seq<char>),
}

impl View for IpcEventError {
    type V = IpcEventErrorView;

    open spec fn view(&self) -> IpcEventErrorView {
        match self {
            IpcEventError::InvalidInput => IpcEventErrorView::InvalidInput,
            IpcEventError::UndefinedEvent(n) => IpcEventErrorView::UndefinedEvent(n@),
        }
    }
}

/// The message of an error.
pub open spec fn error_message(e: IpcEventErrorView) -> Seq<char> {
    match e {
        IpcEventErrorView::InvalidInput => "invalid input"@,
        IpcEventErrorView::UndefinedEvent(n) => "Undefined hyprland event: '"@ + n + "'"@,
    }
}

impl IpcEventError {
    /// The message that describes the error.
    pub fn message(&self) -> (r: String)
        ensures
            r@ == error_message(self@),
    {
        match self {
            IpcEventError::InvalidInput => "invalid input".to_owned(),
            IpcEventError::UndefinedEvent(n) => {
                let r = "Undefined hyprland event: '".to_owned().concat(n.as_str());
                r.concat("'")
            },
        }
    }
}

/// Whether the field `k` of `fields` exists.
pub open spec fn has_field(fields: Seq<Seq<char>>, k: int) -> bool {
    k < fields.len()
}

/// Whether the field `k` of `fields` exists and is a decimal `i32`.
pub open spec fn has_int_field(fields: Seq<Seq<char>>, k: int) -> bool {
    k < fields.len() && decimal_i32(fields[k]) is Some
}

/// Whether the line `s` can be read as an event without failing: a known
/// event has all its fields, and its integer fields are decimal `i32`s.
/// Other lines are errors, not failures.
pub open spec fn line_is_well_formed(s: Seq<char>) -> bool {
    match find_double(s, '>') {
        None => true,
        Some(i) => {
            let name = s.take(i);
            let f = split_all(s.skip(i + 2), ',');
            if name == "activelayout"@ {
                has_field(f, 1)
            } else if name == "workspacev2"@ {
                has_int_field(f, 0) && has_field(f, 1)
            } else if name == "focusedmonv2"@ {
                has_field(f, 0) && has_int_field(f, 1)
            } else if name == "createworkspacev2"@ || name == "destroyworkspacev2"@ {
                has_int_field(f, 0) && has_field(f, 1)
            } else {
                true
            }
        },
    }
}

/// The event that the line `s` holds: the fields are the comma-separated
/// pieces of the data after `>>`, taken in order, further pieces ignored.
pub open spec fn ipc_event(s: Seq<char>) -> Result<HyprEventView, IpcEventErrorView> {
    match find_double(s, '>') {
        None => Err(IpcEventErrorView::InvalidInput),
        Some(i) => {
            let name = s.take(i);
            let f = split_all(s.skip(i + 2), ',');
            if name == "activelayout"@ {
                Ok(HyprEventView::ActiveLayout { keyboard_name: f[0], layout_name: f[1] })
            } else if name == "workspacev2"@ {
                Ok(HyprEventView::WorkspaceV2 { id: decimal_i32(f[0]).unwrap(), name: f[1] })
            } else if name == "focusedmonv2"@ {
                Ok(HyprEventView::FocusedMonV2 { monitor_connector: f[0], workspace_id: decimal_i32(f[1]).unwrap() })
            } else if name == "createworkspacev2"@ {
                Ok(HyprEventView::CreateWorkspaceV2 { id: decimal_i32(f[0]).unwrap(), name: f[1] })
            } else if name == "destroyworkspacev2"@ {
                Ok(HyprEventView::DestroyWorkspaceV2 { id: decimal_i32(f[0]).unwrap(), name: f[1] })
            } else {
                Err(IpcEventErrorView::UndefinedEvent(name))
            }
        },
    }
}

/// The integer field `k`, which is known to be one.
fn int_at(fields: &Vec<String>, k: usize) -> (r: i32)
    requires
        has_int_field(views(fields@), k as int),
    ensures
        decimal_i32(fields@[k as int]@) == Some(r),
{
    match parse_decimal_i32(fields[k].as_str()) {
        Ok(v) => v,
        Err(_) => 0,
    }
}

/// Whether a line can be read as an event without failing.
pub fn is_well_formed(s: &str) -> (r: bool)
    ensures
        r == line_is_well_formed(s@),
{
    let cs = char_vec(s);
    let n = cs.len();
    let i = match index_of_double(&cs, '>') {
        Some(i) => i,
        None => return true,
    };
    let name = sub_vec(&cs, 0, i);
    let data = sub_vec(&cs, i + 2, n);
    assert(name@ == s@.take(i as int));
    assert(data@ == s@.skip(i + 2));
    let f = split_all_chars(&data, ',');
    if chars_eq(&name, "activelayout") {
        f.len() > 1
    } else if chars_eq(&name, "workspacev2") {
        f.len() > 1 && parse_decimal_i32(f[0].as_str()).is_ok()
    } else if chars_eq(&name, "focusedmonv2") {
        f.len() > 1 && parse_decimal_i32(f[1].as_str()).is_ok()
    } else if chars_eq(&name, "createworkspacev2") || chars_eq(&name, "destroyworkspacev2") {
        f.len() > 1 && parse_decimal_i32(f[0].as_str()).is_ok()
    } else {
        true
    }
}

impl HyprEvent {
    /// Reads an event line.
    pub fn from_str(s: &str) -> (r: Result<HyprEvent, IpcEventError>)
        requires
            line_is_well_formed(s@),
        ensures
            match r {
                Ok(e) => ipc_event(s@) == Ok::<HyprEventView, IpcEventErrorView>(e@),
                Err(e) => ipc_event(s@) == Err::<HyprEventView, IpcEventErrorView>(e@),
            },
    {
        let cs = char_vec(s);
        let n = cs.len();
        let i = match index_of_double(&cs, '>') {
            Some(i) => i,
            None => return Err(IpcEventError::InvalidInput),
        };
        let name_cs = sub_vec(&cs, 0, i);
        let data = sub_vec(&cs, i + 2, n);
        assert(name_cs@ == s@.take(i as int));
        assert(data@ == s@.skip(i + 2));
        let f = split_all_chars(&data, ',');
        if chars_eq(&name_cs, "activelayout") {
            Ok(HyprEvent::ActiveLayout { keyboard_name: f[0].clone(), layout_name: f[1].clone() })
        } else if chars_eq(&name_cs, "workspacev2") {
            Ok(HyprEvent::WorkspaceV2 { id: int_at(&f, 0), name: f[1].clone() })
        } else if chars_eq(&name_cs, "focusedmonv2") {
            Ok(HyprEvent::FocusedMonV2 { monitor_connector: f[0].clone(), workspace_id: int_at(&f, 1) })
        } else if chars_eq(&name_cs, "createworkspacev2") {
            Ok(HyprEvent::CreateWorkspaceV2 { id: int_at(&f, 0), name: f[1].clone() })
        } else if chars_eq(&name_cs, "destroyworkspacev2") {
            Ok(HyprEvent::DestroyWorkspaceV2 { id: int_at(&f, 0), name: f[1].clone() })
        } else {
            Err(IpcEventError::UndefinedEvent(string_of(&cs, 0, i)))
        }
    }

    /// The keyboard layout that an event switches to, for a layout change.
    pub fn layout_name(&self) -> (r: Option<String>)
        ensures
            match self@ {
                HyprEventView::ActiveLayout { layout_name, .. } => r matches Some(l) && l@ == layout_name,
                _ => r is None,
            },
    {
        match self {
            HyprEvent::ActiveLayout { layout_name, .. } => Some(layout_name.clone()),
            _ => None,
        }
    }
}

} // verus!
