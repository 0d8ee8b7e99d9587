//! What a line of the event socket means, field by field: for each event,
//! the fields of the parsed event are the comma-separated fields of its
//! data, at the positions that the event documents.

use vstd::prelude::*;
use crate::hyprland::event::{
    event_parts, parse_event, parse_named, HyprEventView, ParseEventErrorView, CLOSED_SPECIAL_ID,
};
use crate::text::{
    decimal_i32, lacks, lemma_find_double_after, lemma_split_all_after, lemma_split_once_after,
};

verus! {

/// A line is its name, `>>` and its data, when the name holds no `>`.
proof fn lemma_line(name: Seq<char>, data: Seq<char>)
    requires
        lacks(name, '>'),
    ensures
        parse_event(name + seq!['>', '>'] + data) == parse_named(name, data),
{
    let s = name + seq!['>', '>'] + data;
    lemma_find_double_after(name, '>', data);
    assert(s.take(name.len() as int) =~= name);
    assert(s.skip(name.len() as int + 2) =~= data);
}

/// The fields of one field that holds no comma.
proof fn lemma_parts1(a: Seq<char>)
    requires
        lacks(a, ','),
        a.len() > 0,
    ensures
        event_parts(a) == seq![a],
{
    lemma_split_all_after(a, ',', Seq::empty());
}

/// The fields of two fields that hold no comma.
proof fn lemma_parts2(a: Seq<char>, b: Seq<char>)
    requires
        lacks(a, ','),
        lacks(b, ','),
    ensures
        event_parts(a + seq![','] + b) == seq![a, b],
{
    lemma_split_all_after(a, ',', b);
    lemma_split_all_after(b, ',', Seq::empty());
    assert(seq![a] + seq![b] =~= seq![a, b]);
}

/// The fields of three fields that hold no comma.
proof fn lemma_parts3(a: Seq<char>, b: Seq<char>, c: Seq<char>)
    requires
        lacks(a, ','),
        lacks(b, ','),
        lacks(c, ','),
    ensures
        event_parts(a + seq![','] + b + seq![','] + c) == seq![a, b, c],
{
    let rest = b + seq![','] + c;
    assert(a + seq![','] + b + seq![','] + c =~= a + seq![','] + rest);
    lemma_split_all_after(a, ',', rest);
    lemma_split_all_after(b, ',', c);
    lemma_split_all_after(c, ',', Seq::empty());
    assert(seq![a] + (seq![b] + seq![c]) =~= seq![a, b, c]);
}

/// A successful parse.
pub open spec fn ok_event(e: HyprEventView) -> Result<HyprEventView, ParseEventErrorView> {
    Ok(e)
}

/// A `workspace` line gives the workspace's name, taken from the fields of its data in
/// this order.
pub proof fn law_workspace_fields(a: Seq<char>)
    requires
        lacks(a, ','),
        a.len() > 0,
    ensures
        parse_event("workspace"@ + seq!['>', '>'] + a) == ok_event(HyprEventView::Workspace { workspace_name: a }),
{
    reveal_strlit("workspace");
    let name = "workspace"@;
    let data = a;
    assert(name + seq!['>', '>'] + a =~= name + seq!['>', '>'] + data);
    lemma_line(name, data);
    lemma_parts1(a);
}

/// A `workspacev2` line gives the workspace's id and name, taken from the fields of its data in
/// this order.
pub proof fn law_workspacev2_fields(a: Seq<char>, b: Seq<char>)
    requires
        lacks(a, ','),
        lacks(b, ','),
        decimal_i32(a) is Some,
    ensures
        parse_event("workspacev2"@ + seq!['>', '>'] + a + seq![','] + b) == ok_event(HyprEventView::WorkspaceV2 { id: decimal_i32(a).unwrap(), name: b }),
{
    reveal_strlit("workspace");
    reveal_strlit("workspacev2");
    let name = "workspacev2"@;
    assert(name.len() != "workspace"@.len());
    assert(name != "workspace"@);
    let data = a + seq![','] + b;
    assert(name + seq!['>', '>'] + a + seq![','] + b =~= name + seq!['>', '>'] + data);
    lemma_line(name, data);
    lemma_parts2(a, b);
}

/// A `createworkspace` line gives the workspace's name, taken from the fields of its data in
/// this order.
pub proof fn law_createworkspace_fields(a: Seq<char>)
    requires
        lacks(a, ','),
        a.len() > 0,
    ensures
        parse_event("createworkspace"@ + seq!['>', '>'] + a) == ok_event(HyprEventView::CreateWorkspace { name: a }),
{
    reveal_strlit("workspace");
    reveal_strlit("workspacev2");
    reveal_strlit("createworkspace");
    let name = "createworkspace"@;
    assert(name.len() != "workspace"@.len());
    assert(name != "workspace"@);
    assert(name.len() != "workspacev2"@.len());
    assert(name != "workspacev2"@);
    let data = a;
    assert(name + seq!['>', '>'] + a =~= name + seq!['>', '>'] + data);
    lemma_line(name, data);
    lemma_parts1(a);
}

/// A `createworkspacev2` line gives the workspace's id and name, taken from the fields of its data in
/// this order.
pub proof fn law_createworkspacev2_fields(a: Seq<char>, b: Seq<char>)
    requires
        lacks(a, ','),
        lacks(b, ','),
        decimal_i32(a) is Some,
    ensures
        parse_event("createworkspacev2"@ + seq!['>', '>'] + a + seq![','] + b) == ok_event(HyprEventView::CreateWorkspaceV2 { id: decimal_i32(a).unwrap(), name: b }),
{
    reveal_strlit("workspace");
    reveal_strlit("workspacev2");
    reveal_strlit("createworkspace");
    reveal_strlit("createworkspacev2");
    let name = "createworkspacev2"@;
    assert(name.len() != "workspace"@.len());
    assert(name != "workspace"@);
    assert(name.len() != "workspacev2"@.len());
    assert(name != "workspacev2"@);
    assert(name.len() != "createworkspace"@.len());
    assert(name != "createworkspace"@);
    let data = a + seq![','] + b;
    assert(name + seq!['>', '>'] + a + seq![','] + b =~= name + seq!['>', '>'] + data);
    lemma_line(name, data);
    lemma_parts2(a, b);
}

/// A `destroyworkspace` line gives the workspace's name, taken from the fields of its data in
/// this order.
pub proof fn law_destroyworkspace_fields(a: Seq<char>)
    requires
        lacks(a, ','),
        a.len() > 0,
    ensures
        parse_event("destroyworkspace"@ + seq!['>', '>'] + a) == ok_event(HyprEventView::DestroyWorkspace { name: a }),
{
    reveal_strlit("workspace");
    reveal_strlit("workspacev2");
    reveal_strlit("createworkspace");
    reveal_strlit("createworkspacev2");
    reveal_strlit("destroyworkspace");
    let name = "destroyworkspace"@;
    assert(name.len() != "workspace"@.len());
    assert(name != "workspace"@);
    assert(name.len() != "workspacev2"@.len());
    assert(name != "workspacev2"@);
    assert(name.len() != "createworkspace"@.len());
    assert(name != "createworkspace"@);
    assert(name.len() != "createworkspacev2"@.len());
    assert(name != "createworkspacev2"@);
    let data = a;
    assert(name + seq!['>', '>'] + a =~= name + seq!['>', '>'] + data);
    lemma_line(name, data);
    lemma_parts1(a);
}

/// A `destroyworkspacev2` line gives the workspace's id and name, taken from the fields of its data in
/// this order.
pub proof fn law_destroyworkspacev2_fields(a: Seq<char>, b: Seq<char>)
    requires
        lacks(a, ','),
        lacks(b, ','),
        decimal_i32(a) is Some,
    ensures
        parse_event("destroyworkspacev2"@ + seq!['>', '>'] + a + seq![','] + b) == ok_event(HyprEventView::DestroyWorkspaceV2 { id: decimal_i32(a).unwrap(), name: b }),
{
    reveal_strlit("workspace");
    reveal_strlit("workspacev2");
    reveal_strlit("createworkspace");
    reveal_strlit("createworkspacev2");
    reveal_strlit("destroyworkspace");
    reveal_strlit("destroyworkspacev2");
    let name = "destroyworkspacev2"@;
    assert(name.len() != "workspace"@.len());
    assert(name != "workspace"@);
    assert(name.len() != "workspacev2"@.len());
    assert(name != "workspacev2"@);
    assert(name.len() != "createworkspace"@.len());
    assert(name != "createworkspace"@);
    assert(name.len() != "createworkspacev2"@.len());
    assert(name != "createworkspacev2"@);
    assert(name.len() != "destroyworkspace"@.len());
    assert(name != "destroyworkspace"@);
    let data = a + seq![','] + b;
    assert(name + seq!['>', '>'] + a + seq![','] + b =~= name + seq!['>', '>'] + data);
    lemma_line(name, data);
    lemma_parts2(a, b);
}

/// A `moveworkspace` line gives the workspace's name and its monitor, taken from the fields of its data in
/// this order.
pub proof fn law_moveworkspace_fields(a: Seq<char>, b: Seq<char>)
    requires
        lacks(a, ','),
        lacks(b, ','),
    ensures
        parse_event("moveworkspace"@ + seq!['>', '>'] + a + seq![','] + b) == ok_event(HyprEventView::MoveWorkspace { workspace_name: a, monitor_name: b }),
{
    reveal_strlit("workspace");
    reveal_strlit("workspacev2");
    reveal_strlit("createworkspace");
    reveal_strlit("createworkspacev2");
    reveal_strlit("destroyworkspace");
    reveal_strlit("destroyworkspacev2");
    reveal_strlit("moveworkspace");
    let name = "moveworkspace"@;
    assert(name.len() != "workspace"@.len());
    assert(name != "workspace"@);
    assert(name.len() != "workspacev2"@.len());
    assert(name != "workspacev2"@);
    assert(name.len() != "createworkspace"@.len());
    assert(name != "createworkspace"@);
    assert(name.len() != "createworkspacev2"@.len());
    assert(name != "createworkspacev2"@);
    assert(name.len() != "destroyworkspace"@.len());
    assert(name != "destroyworkspace"@);
    assert(name.len() != "destroyworkspacev2"@.len());
    assert(name != "destroyworkspacev2"@);
    let data = a + seq![','] + b;
    assert(name + seq!['>', '>'] + a + seq![','] + b =~= name + seq!['>', '>'] + data);
    lemma_line(name, data);
    lemma_parts2(a, b);
}

/// A `moveworkspacev2` line gives the workspace's id, its name and its monitor, taken from the fields of its data in
/// this order.
pub proof fn law_moveworkspacev2_fields(a: Seq<char>, b: Seq<char>, c: Seq<char>)
    requires
        lacks(a, ','),
        lacks(b, ','),
        lacks(c, ','),
        decimal_i32(a) is Some,
    ensures
        parse_event("moveworkspacev2"@ + seq!['>', '>'] + a + seq![','] + b + seq![','] + c) == ok_event(HyprEventView::MoveWorkspaceV2 { id: decimal_i32(a).unwrap(), workspace_name: b, monitor_name: c }),
{
    reveal_strlit("workspace");
    reveal_strlit("workspacev2");
    reveal_strlit("createworkspace");
    reveal_strlit("createworkspacev2");
    reveal_strlit("destroyworkspace");
    reveal_strlit("destroyworkspacev2");
    reveal_strlit("moveworkspace");
    reveal_strlit("moveworkspacev2");
    let name = "moveworkspacev2"@;
    assert(name.len() != "workspace"@.len());
    assert(name != "workspace"@);
    assert(name.len() != "workspacev2"@.len());
    assert(name != "workspacev2"@);
    assert(name[0] != "createworkspace"@[0]);
    assert(name != "createworkspace"@);
    assert(name.len() != "createworkspacev2"@.len());
    assert(name != "createworkspacev2"@);
    assert(name.len() != "destroyworkspace"@.len());
    assert(name != "destroyworkspace"@);
    assert(name.len() != "destroyworkspacev2"@.len());
    assert(name != "destroyworkspacev2"@);
    assert(name.len() != "moveworkspace"@.len());
    assert(name != "moveworkspace"@);
    let data = a + seq![','] + b + seq![','] + c;
    assert(name + seq!['>', '>'] + a + seq![','] + b + seq![','] + c =~= name + seq!['>', '>'] + data);
    lemma_line(name, data);
    lemma_parts3(a, b, c);
}

/// A `renameworkspace` line gives the workspace's id and its new name, taken from the fields of its data in
/// this order.
pub proof fn law_renameworkspace_fields(a: Seq<char>, b: Seq<char>)
    requires
        lacks(a, ','),
        lacks(b, ','),
        decimal_i32(a) is Some,
    ensures
        parse_event("renameworkspace"@ + seq!['>', '>'] + a + seq![','] + b) == ok_event(HyprEventView::RenameWorkspace { id: decimal_i32(a).unwrap(), new_name: b }),
{
    reveal_strlit("workspace");
    reveal_strlit("workspacev2");
    reveal_strlit("createworkspace");
    reveal_strlit("createworkspacev2");
    reveal_strlit("destroyworkspace");
    reveal_strlit("destroyworkspacev2");
    reveal_strlit("moveworkspace");
    reveal_strlit("moveworkspacev2");
    reveal_strlit("renameworkspace");
    let name = "renameworkspace"@;
    assert(name.len() != "workspace"@.len());
    assert(name != "workspace"@);
    assert(name.len() != "workspacev2"@.len());
    assert(name != "workspacev2"@);
    assert(name[0] != "createworkspace"@[0]);
    assert(name != "createworkspace"@);
    assert(name.len() != "createworkspacev2"@.len());
    assert(name != "createworkspacev2"@);
    assert(name.len() != "destroyworkspace"@.len());
    assert(name != "destroyworkspace"@);
    assert(name.len() != "destroyworkspacev2"@.len());
    assert(name != "destroyworkspacev2"@);
    assert(name.len() != "moveworkspace"@.len());
    assert(name != "moveworkspace"@);
    assert(name[0] != "moveworkspacev2"@[0]);
    assert(name != "moveworkspacev2"@);
    let data = a + seq![','] + b;
    assert(name + seq!['>', '>'] + a + seq![','] + b =~= name + seq!['>', '>'] + data);
    lemma_line(name, data);
    lemma_parts2(a, b);
}

/// A `activespecial` line gives the special workspace's name and its monitor, taken from the fields of its data in
/// this order.
pub proof fn law_activespecial_fields(a: Seq<char>, b: Seq<char>)
    requires
        lacks(a, ','),
        lacks(b, ','),
    ensures
        parse_event("activespecial"@ + seq!['>', '>'] + a + seq![','] + b) == ok_event(HyprEventView::ActiveSpecial { workspace_name: a, monitor_name: b }),
{
    reveal_strlit("workspace");
    reveal_strlit("workspacev2");
    reveal_strlit("createworkspace");
    reveal_strlit("createworkspacev2");
    reveal_strlit("destroyworkspace");
    reveal_strlit("destroyworkspacev2");
    reveal_strlit("moveworkspace");
    reveal_strlit("moveworkspacev2");
    reveal_strlit("renameworkspace");
    reveal_strlit("activespecial");
    let name = "activespecial"@;
    assert(name.len() != "workspace"@.len());
    assert(name != "workspace"@);
    assert(name.len() != "workspacev2"@.len());
    assert(name != "workspacev2"@);
    assert(name.len() != "createworkspace"@.len());
    assert(name != "createworkspace"@);
    assert(name.len() != "createworkspacev2"@.len());
    assert(name != "createworkspacev2"@);
    assert(name.len() != "destroyworkspace"@.len());
    assert(name != "destroyworkspace"@);
    assert(name.len() != "destroyworkspacev2"@.len());
    assert(name != "destroyworkspacev2"@);
    assert(name[0] != "moveworkspace"@[0]);
    assert(name != "moveworkspace"@);
    assert(name.len() != "moveworkspacev2"@.len());
    assert(name != "moveworkspacev2"@);
    assert(name.len() != "renameworkspace"@.len());
    assert(name != "renameworkspace"@);
    let data = a + seq![','] + b;
    assert(name + seq!['>', '>'] + a + seq![','] + b =~= name + seq!['>', '>'] + data);
    lemma_line(name, data);
    lemma_parts2(a, b);
}

/// A `activespecialv2` line gives the special workspace's id, its name and its monitor, taken from the fields of its data in
/// this order.
pub proof fn law_activespecialv2_fields(a: Seq<char>, b: Seq<char>, c: Seq<char>)
    requires
        lacks(a, ','),
        lacks(b, ','),
        lacks(c, ','),
        decimal_i32(a) is Some,
        a.len() > 0,
    ensures
        parse_event("activespecialv2"@ + seq!['>', '>'] + a + seq![','] + b + seq![','] + c) == ok_event(HyprEventView::ActiveSpecialV2 { id: decimal_i32(a).unwrap(), workspace_name: b, monitor_name: c }),
{
    reveal_strlit("workspace");
    reveal_strlit("workspacev2");
    reveal_strlit("createworkspace");
    reveal_strlit("createworkspacev2");
    reveal_strlit("destroyworkspace");
    reveal_strlit("destroyworkspacev2");
    reveal_strlit("moveworkspace");
    reveal_strlit("moveworkspacev2");
    reveal_strlit("renameworkspace");
    reveal_strlit("activespecial");
    reveal_strlit("activespecialv2");
    let name = "activespecialv2"@;
    assert(name.len() != "workspace"@.len());
    assert(name != "workspace"@);
    assert(name.len() != "workspacev2"@.len());
    assert(name != "workspacev2"@);
    assert(name[0] != "createworkspace"@[0]);
    assert(name != "createworkspace"@);
    assert(name.len() != "createworkspacev2"@.len());
    assert(name != "createworkspacev2"@);
    assert(name.len() != "destroyworkspace"@.len());
    assert(name != "destroyworkspace"@);
    assert(name.len() != "destroyworkspacev2"@.len());
    assert(name != "destroyworkspacev2"@);
    assert(name.len() != "moveworkspace"@.len());
    assert(name != "moveworkspace"@);
    assert(name[0] != "moveworkspacev2"@[0]);
    assert(name != "moveworkspacev2"@);
    assert(name[0] != "renameworkspace"@[0]);
    assert(name != "renameworkspace"@);
    assert(name.len() != "activespecial"@.len());
    assert(name != "activespecial"@);
    let data = a + seq![','] + b + seq![','] + c;
    assert(name + seq!['>', '>'] + a + seq![','] + b + seq![','] + c =~= name + seq!['>', '>'] + data);
    lemma_line(name, data);
    lemma_parts3(a, b, c);
}

/// A `activespecialv2` line gives for a closed special workspace (an empty id) the stand-in id, the name and the monitor, taken from the fields of its data in
/// this order.
pub proof fn law_activespecialv2_closed_fields(b: Seq<char>, c: Seq<char>)
    requires
        lacks(b, ','),
        lacks(c, ','),
    ensures
        parse_event("activespecialv2"@ + seq!['>', '>'] + seq![','] + b + seq![','] + c) == ok_event(HyprEventView::ActiveSpecialV2 { id: CLOSED_SPECIAL_ID, workspace_name: b, monitor_name: c }),
{
    reveal_strlit("workspace");
    reveal_strlit("workspacev2");
    reveal_strlit("createworkspace");
    reveal_strlit("createworkspacev2");
    reveal_strlit("destroyworkspace");
    reveal_strlit("destroyworkspacev2");
    reveal_strlit("moveworkspace");
    reveal_strlit("moveworkspacev2");
    reveal_strlit("renameworkspace");
    reveal_strlit("activespecial");
    reveal_strlit("activespecialv2");
    let name = "activespecialv2"@;
    assert(name.len() != "workspace"@.len());
    assert(name != "workspace"@);
    assert(name.len() != "workspacev2"@.len());
    assert(name != "workspacev2"@);
    assert(name[0] != "createworkspace"@[0]);
    assert(name != "createworkspace"@);
    assert(name.len() != "createworkspacev2"@.len());
    assert(name != "createworkspacev2"@);
    assert(name.len() != "destroyworkspace"@.len());
    assert(name != "destroyworkspace"@);
    assert(name.len() != "destroyworkspacev2"@.len());
    assert(name != "destroyworkspacev2"@);
    assert(name.len() != "moveworkspace"@.len());
    assert(name != "moveworkspace"@);
    assert(name[0] != "moveworkspacev2"@[0]);
    assert(name != "moveworkspacev2"@);
    assert(name[0] != "renameworkspace"@[0]);
    assert(name != "renameworkspace"@);
    assert(name.len() != "activespecial"@.len());
    assert(name != "activespecial"@);
    let data = seq![','] + b + seq![','] + c;
    assert(name + seq!['>', '>'] + seq![','] + b + seq![','] + c =~= name + seq!['>', '>'] + data);
    lemma_line(name, data);
    lemma_parts3(Seq::empty(), b, c);
    assert(Seq::<char>::empty() + seq![','] + b + seq![','] + c =~= data);
}

/// A `focusedmon` line gives the monitor's name and the workspace's name, taken from the fields of its data in
/// this order.
pub proof fn law_focusedmon_fields(a: Seq<char>, b: Seq<char>)
    requires
        lacks(a, ','),
        lacks(b, ','),
    ensures
        parse_event("focusedmon"@ + seq!['>', '>'] + a + seq![','] + b) == ok_event(HyprEventView::FocusedMon { monitor_name: a, workspace_name: b }),
{
    reveal_strlit("workspace");
    reveal_strlit("workspacev2");
    reveal_strlit("createworkspace");
    reveal_strlit("createworkspacev2");
    reveal_strlit("destroyworkspace");
    reveal_strlit("destroyworkspacev2");
    reveal_strlit("moveworkspace");
    reveal_strlit("moveworkspacev2");
    reveal_strlit("renameworkspace");
    reveal_strlit("activespecial");
    reveal_strlit("activespecialv2");
    reveal_strlit("focusedmon");
    let name = "focusedmon"@;
    assert(name.len() != "workspace"@.len());
    assert(name != "workspace"@);
    assert(name.len() != "workspacev2"@.len());
    assert(name != "workspacev2"@);
    assert(name.len() != "createworkspace"@.len());
    assert(name != "createworkspace"@);
    assert(name.len() != "createworkspacev2"@.len());
    assert(name != "createworkspacev2"@);
    assert(name.len() != "destroyworkspace"@.len());
    assert(name != "destroyworkspace"@);
    assert(name.len() != "destroyworkspacev2"@.len());
    assert(name != "destroyworkspacev2"@);
    assert(name.len() != "moveworkspace"@.len());
    assert(name != "moveworkspace"@);
    assert(name.len() != "moveworkspacev2"@.len());
    assert(name != "moveworkspacev2"@);
    assert(name.len() != "renameworkspace"@.len());
    assert(name != "renameworkspace"@);
    assert(name.len() != "activespecial"@.len());
    assert(name != "activespecial"@);
    assert(name.len() != "activespecialv2"@.len());
    assert(name != "activespecialv2"@);
    let data = a + seq![','] + b;
    assert(name + seq!['>', '>'] + a + seq![','] + b =~= name + seq!['>', '>'] + data);
    lemma_line(name, data);
    lemma_parts2(a, b);
}

/// A `focusedmonv2` line gives the monitor's connector and the workspace's id, taken from the fields of its data in
/// this order.
pub proof fn law_focusedmonv2_fields(a: Seq<char>, b: Seq<char>)
    requires
        lacks(a, ','),
        lacks(b, ','),
        decimal_i32(b) is Some,
    ensures
        parse_event("focusedmonv2"@ + seq!['>', '>'] + a + seq![','] + b) == ok_event(HyprEventView::FocusedMonV2 { monitor_connector: a, workspace_id: decimal_i32(b).unwrap() }),
{
    reveal_strlit("workspace");
    reveal_strlit("workspacev2");
    reveal_strlit("createworkspace");
    reveal_strlit("createworkspacev2");
    reveal_strlit("destroyworkspace");
    reveal_strlit("destroyworkspacev2");
    reveal_strlit("moveworkspace");
    reveal_strlit("moveworkspacev2");
    reveal_strlit("renameworkspace");
    reveal_strlit("activespecial");
    reveal_strlit("activespecialv2");
    reveal_strlit("focusedmon");
    reveal_strlit("focusedmonv2");
    let name = "focusedmonv2"@;
    assert(name.len() != "workspace"@.len());
    assert(name != "workspace"@);
    assert(name.len() != "workspacev2"@.len());
    assert(name != "workspacev2"@);
    assert(name.len() != "createworkspace"@.len());
    assert(name != "createworkspace"@);
    assert(name.len() != "createworkspacev2"@.len());
    assert(name != "createworkspacev2"@);
    assert(name.len() != "destroyworkspace"@.len());
    assert(name != "destroyworkspace"@);
    assert(name.len() != "destroyworkspacev2"@.len());
    assert(name != "destroyworkspacev2"@);
    assert(name.len() != "moveworkspace"@.len());
    assert(name != "moveworkspace"@);
    assert(name.len() != "moveworkspacev2"@.len());
    assert(name != "moveworkspacev2"@);
    assert(name.len() != "renameworkspace"@.len());
    assert(name != "renameworkspace"@);
    assert(name.len() != "activespecial"@.len());
    assert(name != "activespecial"@);
    assert(name.len() != "activespecialv2"@.len());
    assert(name != "activespecialv2"@);
    assert(name.len() != "focusedmon"@.len());
    assert(name != "focusedmon"@);
    let data = a + seq![','] + b;
    assert(name + seq!['>', '>'] + a + seq![','] + b =~= name + seq!['>', '>'] + data);
    lemma_line(name, data);
    lemma_parts2(a, b);
}

/// A `monitorremoved` line gives the monitor's name, taken from the fields of its data in
/// this order.
pub proof fn law_monitorremoved_fields(a: Seq<char>)
    requires
        lacks(a, ','),
        a.len() > 0,
    ensures
        parse_event("monitorremoved"@ + seq!['>', '>'] + a) == ok_event(HyprEventView::MonitorRemoved { name: a }),
{
    reveal_strlit("workspace");
    reveal_strlit("workspacev2");
    reveal_strlit("createworkspace");
    reveal_strlit("createworkspacev2");
    reveal_strlit("destroyworkspace");
    reveal_strlit("destroyworkspacev2");
    reveal_strlit("moveworkspace");
    reveal_strlit("moveworkspacev2");
    reveal_strlit("renameworkspace");
    reveal_strlit("activespecial");
    reveal_strlit("activespecialv2");
    reveal_strlit("focusedmon");
    reveal_strlit("focusedmonv2");
    reveal_strlit("monitorremoved");
    let name = "monitorremoved"@;
    assert(name.len() != "workspace"@.len());
    assert(name != "workspace"@);
    assert(name.len() != "workspacev2"@.len());
    assert(name != "workspacev2"@);
    assert(name.len() != "createworkspace"@.len());
    assert(name != "createworkspace"@);
    assert(name.len() != "createworkspacev2"@.len());
    assert(name != "createworkspacev2"@);
    assert(name.len() != "destroyworkspace"@.len());
    assert(name != "destroyworkspace"@);
    assert(name.len() != "destroyworkspacev2"@.len());
    assert(name != "destroyworkspacev2"@);
    assert(name.len() != "moveworkspace"@.len());
    assert(name != "moveworkspace"@);
    assert(name.len() != "moveworkspacev2"@.len());
    assert(name != "moveworkspacev2"@);
    assert(name.len() != "renameworkspace"@.len());
    assert(name != "renameworkspace"@);
    assert(name.len() != "activespecial"@.len());
    assert(name != "activespecial"@);
    assert(name.len() != "activespecialv2"@.len());
    assert(name != "activespecialv2"@);
    assert(name.len() != "focusedmon"@.len());
    assert(name != "focusedmon"@);
    assert(name.len() != "focusedmonv2"@.len());
    assert(name != "focusedmonv2"@);
    let data = a;
    assert(name + seq!['>', '>'] + a =~= name + seq!['>', '>'] + data);
    lemma_line(name, data);
    lemma_parts1(a);
}

/// A `monitorremovedv2` line gives the monitor's id, its name and its description (which may hold commas), taken from the fields of its data in
/// this order.
pub proof fn law_monitorremovedv2_fields(a: Seq<char>, b: Seq<char>, rest: Seq<char>)
    requires
        lacks(a, ','),
        lacks(b, ','),
        decimal_i32(a) is Some,
    ensures
        parse_event("monitorremovedv2"@ + seq!['>', '>'] + a + seq![','] + b + seq![','] + rest) == ok_event(HyprEventView::MonitorRemovedV2 { id: decimal_i32(a).unwrap(), name: b, description: rest }),
{
    reveal_strlit("workspace");
    reveal_strlit("workspacev2");
    reveal_strlit("createworkspace");
    reveal_strlit("createworkspacev2");
    reveal_strlit("destroyworkspace");
    reveal_strlit("destroyworkspacev2");
    reveal_strlit("moveworkspace");
    reveal_strlit("moveworkspacev2");
    reveal_strlit("renameworkspace");
    reveal_strlit("activespecial");
    reveal_strlit("activespecialv2");
    reveal_strlit("focusedmon");
    reveal_strlit("focusedmonv2");
    reveal_strlit("monitorremoved");
    reveal_strlit("monitorremovedv2");
    let name = "monitorremovedv2"@;
    assert(name.len() != "workspace"@.len());
    assert(name != "workspace"@);
    assert(name.len() != "workspacev2"@.len());
    assert(name != "workspacev2"@);
    assert(name.len() != "createworkspace"@.len());
    assert(name != "createworkspace"@);
    assert(name.len() != "createworkspacev2"@.len());
    assert(name != "createworkspacev2"@);
    assert(name[0] != "destroyworkspace"@[0]);
    assert(name != "destroyworkspace"@);
    assert(name.len() != "destroyworkspacev2"@.len());
    assert(name != "destroyworkspacev2"@);
    assert(name.len() != "moveworkspace"@.len());
    assert(name != "moveworkspace"@);
    assert(name.len() != "moveworkspacev2"@.len());
    assert(name != "moveworkspacev2"@);
    assert(name.len() != "renameworkspace"@.len());
    assert(name != "renameworkspace"@);
    assert(name.len() != "activespecial"@.len());
    assert(name != "activespecial"@);
    assert(name.len() != "activespecialv2"@.len());
    assert(name != "activespecialv2"@);
    assert(name.len() != "focusedmon"@.len());
    assert(name != "focusedmon"@);
    assert(name.len() != "focusedmonv2"@.len());
    assert(name != "focusedmonv2"@);
    assert(name.len() != "monitorremoved"@.len());
    assert(name != "monitorremoved"@);
    let data = a + seq![','] + b + seq![','] + rest;
    assert(name + seq!['>', '>'] + a + seq![','] + b + seq![','] + rest =~= name + seq!['>', '>'] + data);
    lemma_line(name, data);
    let rest1 = b + seq![','] + rest;
    assert(data =~= a + seq![','] + rest1);
    lemma_split_once_after(a, ',', rest1);
    lemma_split_once_after(b, ',', rest);
}

/// A `monitoradded` line gives the monitor's name, taken from the fields of its data in
/// this order.
pub proof fn law_monitoradded_fields(a: Seq<char>)
    requires
        lacks(a, ','),
        a.len() > 0,
    ensures
        parse_event("monitoradded"@ + seq!['>', '>'] + a) == ok_event(HyprEventView::MonitorAdded { name: a }),
{
    reveal_strlit("workspace");
    reveal_strlit("workspacev2");
    reveal_strlit("createworkspace");
    reveal_strlit("createworkspacev2");
    reveal_strlit("destroyworkspace");
    reveal_strlit("destroyworkspacev2");
    reveal_strlit("moveworkspace");
    reveal_strlit("moveworkspacev2");
    reveal_strlit("renameworkspace");
    reveal_strlit("activespecial");
    reveal_strlit("activespecialv2");
    reveal_strlit("focusedmon");
    reveal_strlit("focusedmonv2");
    reveal_strlit("monitorremoved");
    reveal_strlit("monitorremovedv2");
    reveal_strlit("monitoradded");
    let name = "monitoradded"@;
    assert(name.len() != "workspace"@.len());
    assert(name != "workspace"@);
    assert(name.len() != "workspacev2"@.len());
    assert(name != "workspacev2"@);
    assert(name.len() != "createworkspace"@.len());
    assert(name != "createworkspace"@);
    assert(name.len() != "createworkspacev2"@.len());
    assert(name != "createworkspacev2"@);
    assert(name.len() != "destroyworkspace"@.len());
    assert(name != "destroyworkspace"@);
    assert(name.len() != "destroyworkspacev2"@.len());
    assert(name != "destroyworkspacev2"@);
    assert(name.len() != "moveworkspace"@.len());
    assert(name != "moveworkspace"@);
    assert(name.len() != "moveworkspacev2"@.len());
    assert(name != "moveworkspacev2"@);
    assert(name.len() != "renameworkspace"@.len());
    assert(name != "renameworkspace"@);
    assert(name.len() != "activespecial"@.len());
    assert(name != "activespecial"@);
    assert(name.len() != "activespecialv2"@.len());
    assert(name != "activespecialv2"@);
    assert(name.len() != "focusedmon"@.len());
    assert(name != "focusedmon"@);
    assert(name[0] != "focusedmonv2"@[0]);
    assert(name != "focusedmonv2"@);
    assert(name.len() != "monitorremoved"@.len());
    assert(name != "monitorremoved"@);
    assert(name.len() != "monitorremovedv2"@.len());
    assert(name != "monitorremovedv2"@);
    let data = a;
    assert(name + seq!['>', '>'] + a =~= name + seq!['>', '>'] + data);
    lemma_line(name, data);
    lemma_parts1(a);
}

/// A `monitoraddedv2` line gives the monitor's id, its name and its description (which may hold commas), taken from the fields of its data in
/// this order.
pub proof fn law_monitoraddedv2_fields(a: Seq<char>, b: Seq<char>, rest: Seq<char>)
    requires
        lacks(a, ','),
        lacks(b, ','),
        decimal_i32(a) is Some,
    ensures
        parse_event("monitoraddedv2"@ + seq!['>', '>'] + a + seq![','] + b + seq![','] + rest) == ok_event(HyprEventView::MonitorAddedV2 { id: decimal_i32(a).unwrap(), name: b, description: rest }),
{
    reveal_strlit("workspace");
    reveal_strlit("workspacev2");
    reveal_strlit("createworkspace");
    reveal_strlit("createworkspacev2");
    reveal_strlit("destroyworkspace");
    reveal_strlit("destroyworkspacev2");
    reveal_strlit("moveworkspace");
    reveal_strlit("moveworkspacev2");
    reveal_strlit("renameworkspace");
    reveal_strlit("activespecial");
    reveal_strlit("activespecialv2");
    reveal_strlit("focusedmon");
    reveal_strlit("focusedmonv2");
    reveal_strlit("monitorremoved");
    reveal_strlit("monitorremovedv2");
    reveal_strlit("monitoradded");
    reveal_strlit("monitoraddedv2");
    let name = "monitoraddedv2"@;
    assert(name.len() != "workspace"@.len());
    assert(name != "workspace"@);
    assert(name.len() != "workspacev2"@.len());
    assert(name != "workspacev2"@);
    assert(name.len() != "createworkspace"@.len());
    assert(name != "createworkspace"@);
    assert(name.len() != "createworkspacev2"@.len());
    assert(name != "createworkspacev2"@);
    assert(name.len() != "destroyworkspace"@.len());
    assert(name != "destroyworkspace"@);
    assert(name.len() != "destroyworkspacev2"@.len());
    assert(name != "destroyworkspacev2"@);
    assert(name.len() != "moveworkspace"@.len());
    assert(name != "moveworkspace"@);
    assert(name.len() != "moveworkspacev2"@.len());
    assert(name != "moveworkspacev2"@);
    assert(name.len() != "renameworkspace"@.len());
    assert(name != "renameworkspace"@);
    assert(name.len() != "activespecial"@.len());
    assert(name != "activespecial"@);
    assert(name.len() != "activespecialv2"@.len());
    assert(name != "activespecialv2"@);
    assert(name.len() != "focusedmon"@.len());
    assert(name != "focusedmon"@);
    assert(name.len() != "focusedmonv2"@.len());
    assert(name != "focusedmonv2"@);
    assert(name[7] != "monitorremoved"@[7]);
    assert(name != "monitorremoved"@);
    assert(name.len() != "monitorremovedv2"@.len());
    assert(name != "monitorremovedv2"@);
    assert(name.len() != "monitoradded"@.len());
    assert(name != "monitoradded"@);
    let data = a + seq![','] + b + seq![','] + rest;
    assert(name + seq!['>', '>'] + a + seq![','] + b + seq![','] + rest =~= name + seq!['>', '>'] + data);
    lemma_line(name, data);
    let rest1 = b + seq![','] + rest;
    assert(data =~= a + seq![','] + rest1);
    lemma_split_once_after(a, ',', rest1);
    lemma_split_once_after(b, ',', rest);
}

/// A `activewindow` line gives the window's class and its title (which may hold commas), taken from the fields of its data in
/// this order.
pub proof fn law_activewindow_fields(a: Seq<char>, rest: Seq<char>)
    requires
        lacks(a, ','),
    ensures
        parse_event("activewindow"@ + seq!['>', '>'] + a + seq![','] + rest) == ok_event(HyprEventView::ActiveWindow { window_class: a, window_title: rest }),
{
    reveal_strlit("workspace");
    reveal_strlit("workspacev2");
    reveal_strlit("createworkspace");
    reveal_strlit("createworkspacev2");
    reveal_strlit("destroyworkspace");
    reveal_strlit("destroyworkspacev2");
    reveal_strlit("moveworkspace");
    reveal_strlit("moveworkspacev2");
    reveal_strlit("renameworkspace");
    reveal_strlit("activespecial");
    reveal_strlit("activespecialv2");
    reveal_strlit("focusedmon");
    reveal_strlit("focusedmonv2");
    reveal_strlit("monitorremoved");
    reveal_strlit("monitorremovedv2");
    reveal_strlit("monitoradded");
    reveal_strlit("monitoraddedv2");
    reveal_strlit("activewindow");
    let name = "activewindow"@;
    assert(name.len() != "workspace"@.len());
    assert(name != "workspace"@);
    assert(name.len() != "workspacev2"@.len());
    assert(name != "workspacev2"@);
    assert(name.len() != "createworkspace"@.len());
    assert(name != "createworkspace"@);
    assert(name.len() != "createworkspacev2"@.len());
    assert(name != "createworkspacev2"@);
    assert(name.len() != "destroyworkspace"@.len());
    assert(name != "destroyworkspace"@);
    assert(name.len() != "destroyworkspacev2"@.len());
    assert(name != "destroyworkspacev2"@);
    assert(name.len() != "moveworkspace"@.len());
    assert(name != "moveworkspace"@);
    assert(name.len() != "moveworkspacev2"@.len());
    assert(name != "moveworkspacev2"@);
    assert(name.len() != "renameworkspace"@.len());
    assert(name != "renameworkspace"@);
    assert(name.len() != "activespecial"@.len());
    assert(name != "activespecial"@);
    assert(name.len() != "activespecialv2"@.len());
    assert(name != "activespecialv2"@);
    assert(name.len() != "focusedmon"@.len());
    assert(name != "focusedmon"@);
    assert(name[0] != "focusedmonv2"@[0]);
    assert(name != "focusedmonv2"@);
    assert(name.len() != "monitorremoved"@.len());
    assert(name != "monitorremoved"@);
    assert(name.len() != "monitorremovedv2"@.len());
    assert(name != "monitorremovedv2"@);
    assert(name[0] != "monitoradded"@[0]);
    assert(name != "monitoradded"@);
    assert(name.len() != "monitoraddedv2"@.len());
    assert(name != "monitoraddedv2"@);
    let data = a + seq![','] + rest;
    assert(name + seq!['>', '>'] + a + seq![','] + rest =~= name + seq!['>', '>'] + data);
    lemma_line(name, data);
    lemma_split_once_after(a, ',', rest);
}

/// A `activewindowv2` line gives the window's address, taken from the fields of its data in
/// this order.
pub proof fn law_activewindowv2_fields(a: Seq<char>)
    requires
        lacks(a, ','),
        a.len() > 0,
    ensures
        parse_event("activewindowv2"@ + seq!['>', '>'] + a) == ok_event(HyprEventView::ActiveWindowV2 { window_address: a }),
{
    reveal_strlit("workspace");
    reveal_strlit("workspacev2");
    reveal_strlit("createworkspace");
    reveal_strlit("createworkspacev2");
    reveal_strlit("destroyworkspace");
    reveal_strlit("destroyworkspacev2");
    reveal_strlit("moveworkspace");
    reveal_strlit("moveworkspacev2");
    reveal_strlit("renameworkspace");
    reveal_strlit("activespecial");
    reveal_strlit("activespecialv2");
    reveal_strlit("focusedmon");
    reveal_strlit("focusedmonv2");
    reveal_strlit("monitorremoved");
    reveal_strlit("monitorremovedv2");
    reveal_strlit("monitoradded");
    reveal_strlit("monitoraddedv2");
    reveal_strlit("activewindow");
    reveal_strlit("activewindowv2");
    let name = "activewindowv2"@;
    assert(name.len() != "workspace"@.len());
    assert(name != "workspace"@);
    assert(name.len() != "workspacev2"@.len());
    assert(name != "workspacev2"@);
    assert(name.len() != "createworkspace"@.len());
    assert(name != "createworkspace"@);
    assert(name.len() != "createworkspacev2"@.len());
    assert(name != "createworkspacev2"@);
    assert(name.len() != "destroyworkspace"@.len());
    assert(name != "destroyworkspace"@);
    assert(name.len() != "destroyworkspacev2"@.len());
    assert(name != "destroyworkspacev2"@);
    assert(name.len() != "moveworkspace"@.len());
    assert(name != "moveworkspace"@);
    assert(name.len() != "moveworkspacev2"@.len());
    assert(name != "moveworkspacev2"@);
    assert(name.len() != "renameworkspace"@.len());
    assert(name != "renameworkspace"@);
    assert(name.len() != "activespecial"@.len());
    assert(name != "activespecial"@);
    assert(name.len() != "activespecialv2"@.len());
    assert(name != "activespecialv2"@);
    assert(name.len() != "focusedmon"@.len());
    assert(name != "focusedmon"@);
    assert(name.len() != "focusedmonv2"@.len());
    assert(name != "focusedmonv2"@);
    assert(name[0] != "monitorremoved"@[0]);
    assert(name != "monitorremoved"@);
    assert(name.len() != "monitorremovedv2"@.len());
    assert(name != "monitorremovedv2"@);
    assert(name.len() != "monitoradded"@.len());
    assert(name != "monitoradded"@);
    assert(name[0] != "monitoraddedv2"@[0]);
    assert(name != "monitoraddedv2"@);
    assert(name.len() != "activewindow"@.len());
    assert(name != "activewindow"@);
    let data = a;
    assert(name + seq!['>', '>'] + a =~= name + seq!['>', '>'] + data);
    lemma_line(name, data);
    lemma_parts1(a);
}

/// A `fullscreen` line gives whether fullscreen is on, taken from the fields of its data in
/// this order.
pub proof fn law_fullscreen_fields(a: Seq<char>)
    requires
        lacks(a, ','),
        a.len() > 0,
        a == "0"@ || a == "1"@,
    ensures
        parse_event("fullscreen"@ + seq!['>', '>'] + a) == ok_event(HyprEventView::Fullscreen { state: (a == "1"@) }),
{
    reveal_strlit("workspace");
    reveal_strlit("workspacev2");
    reveal_strlit("createworkspace");
    reveal_strlit("createworkspacev2");
    reveal_strlit("destroyworkspace");
    reveal_strlit("destroyworkspacev2");
    reveal_strlit("moveworkspace");
    reveal_strlit("moveworkspacev2");
    reveal_strlit("renameworkspace");
    reveal_strlit("activespecial");
    reveal_strlit("activespecialv2");
    reveal_strlit("focusedmon");
    reveal_strlit("focusedmonv2");
    reveal_strlit("monitorremoved");
    reveal_strlit("monitorremovedv2");
    reveal_strlit("monitoradded");
    reveal_strlit("monitoraddedv2");
    reveal_strlit("activewindow");
    reveal_strlit("activewindowv2");
    reveal_strlit("fullscreen");
    reveal_strlit("0");
    reveal_strlit("1");
    let name = "fullscreen"@;
    assert(name.len() != "workspace"@.len());
    assert(name != "workspace"@);
    assert(name.len() != "workspacev2"@.len());
    assert(name != "workspacev2"@);
    assert(name.len() != "createworkspace"@.len());
    assert(name != "createworkspace"@);
    assert(name.len() != "createworkspacev2"@.len());
    assert(name != "createworkspacev2"@);
    assert(name.len() != "destroyworkspace"@.len());
    assert(name != "destroyworkspace"@);
    assert(name.len() != "destroyworkspacev2"@.len());
    assert(name != "destroyworkspacev2"@);
    assert(name.len() != "moveworkspace"@.len());
    assert(name != "moveworkspace"@);
    assert(name.len() != "moveworkspacev2"@.len());
    assert(name != "moveworkspacev2"@);
    assert(name.len() != "renameworkspace"@.len());
    assert(name != "renameworkspace"@);
    assert(name.len() != "activespecial"@.len());
    assert(name != "activespecial"@);
    assert(name.len() != "activespecialv2"@.len());
    assert(name != "activespecialv2"@);
    assert(name[1] != "focusedmon"@[1]);
    assert(name != "focusedmon"@);
    assert(name.len() != "focusedmonv2"@.len());
    assert(name != "focusedmonv2"@);
    assert(name.len() != "monitorremoved"@.len());
    assert(name != "monitorremoved"@);
    assert(name.len() != "monitorremovedv2"@.len());
    assert(name != "monitorremovedv2"@);
    assert(name.len() != "monitoradded"@.len());
    assert(name != "monitoradded"@);
    assert(name.len() != "monitoraddedv2"@.len());
    assert(name != "monitoraddedv2"@);
    assert(name.len() != "activewindow"@.len());
    assert(name != "activewindow"@);
    assert(name.len() != "activewindowv2"@.len());
    assert(name != "activewindowv2"@);
    let data = a;
    assert(name + seq!['>', '>'] + a =~= name + seq!['>', '>'] + data);
    lemma_line(name, data);
    lemma_parts1(a);
}

/// A `openwindow` line gives the window's address, its workspace, its class and its title (which may hold commas), taken from the fields of its data in
/// this order.
pub proof fn law_openwindow_fields(a: Seq<char>, b: Seq<char>, c: Seq<char>, rest: Seq<char>)
    requires
        lacks(a, ','),
        lacks(b, ','),
        lacks(c, ','),
    ensures
        parse_event("openwindow"@ + seq!['>', '>'] + a + seq![','] + b + seq![','] + c + seq![','] + rest) == ok_event(HyprEventView::OpenWindow { window_address: a, workspace_name: b, window_class: c, window_title: rest }),
{
    reveal_strlit("workspace");
    reveal_strlit("workspacev2");
    reveal_strlit("createworkspace");
    reveal_strlit("createworkspacev2");
    reveal_strlit("destroyworkspace");
    reveal_strlit("destroyworkspacev2");
    reveal_strlit("moveworkspace");
    reveal_strlit("moveworkspacev2");
    reveal_strlit("renameworkspace");
    reveal_strlit("activespecial");
    reveal_strlit("activespecialv2");
    reveal_strlit("focusedmon");
    reveal_strlit("focusedmonv2");
    reveal_strlit("monitorremoved");
    reveal_strlit("monitorremovedv2");
    reveal_strlit("monitoradded");
    reveal_strlit("monitoraddedv2");
    reveal_strlit("activewindow");
    reveal_strlit("activewindowv2");
    reveal_strlit("fullscreen");
    reveal_strlit("openwindow");
    let name = "openwindow"@;
    assert(name.len() != "workspace"@.len());
    assert(name != "workspace"@);
    assert(name.len() != "workspacev2"@.len());
    assert(name != "workspacev2"@);
    assert(name.len() != "createworkspace"@.len());
    assert(name != "createworkspace"@);
    assert(name.len() != "createworkspacev2"@.len());
    assert(name != "createworkspacev2"@);
    assert(name.len() != "destroyworkspace"@.len());
    assert(name != "destroyworkspace"@);
    assert(name.len() != "destroyworkspacev2"@.len());
    assert(name != "destroyworkspacev2"@);
    assert(name.len() != "moveworkspace"@.len());
    assert(name != "moveworkspace"@);
    assert(name.len() != "moveworkspacev2"@.len());
    assert(name != "moveworkspacev2"@);
    assert(name.len() != "renameworkspace"@.len());
    assert(name != "renameworkspace"@);
    assert(name.len() != "activespecial"@.len());
    assert(name != "activespecial"@);
    assert(name.len() != "activespecialv2"@.len());
    assert(name != "activespecialv2"@);
    assert(name[0] != "focusedmon"@[0]);
    assert(name != "focusedmon"@);
    assert(name.len() != "focusedmonv2"@.len());
    assert(name != "focusedmonv2"@);
    assert(name.len() != "monitorremoved"@.len());
    assert(name != "monitorremoved"@);
    assert(name.len() != "monitorremovedv2"@.len());
    assert(name != "monitorremovedv2"@);
    assert(name.len() != "monitoradded"@.len());
    assert(name != "monitoradded"@);
    assert(name.len() != "monitoraddedv2"@.len());
    assert(name != "monitoraddedv2"@);
    assert(name.len() != "activewindow"@.len());
    assert(name != "activewindow"@);
    assert(name.len() != "activewindowv2"@.len());
    assert(name != "activewindowv2"@);
    assert(name[0] != "fullscreen"@[0]);
    assert(name != "fullscreen"@);
    let data = a + seq![','] + b + seq![','] + c + seq![','] + rest;
    assert(name + seq!['>', '>'] + a + seq![','] + b + seq![','] + c + seq![','] + rest =~= name + seq!['>', '>'] + data);
    lemma_line(name, data);
    let rest2 = c + seq![','] + rest;
    let rest1 = b + seq![','] + rest2;
    assert(data =~= a + seq![','] + rest1);
    lemma_split_once_after(a, ',', rest1);
    lemma_split_once_after(b, ',', rest2);
    lemma_split_once_after(c, ',', rest);
}

/// A `closewindow` line gives the window's address, taken from the fields of its data in
/// this order.
pub proof fn law_closewindow_fields(a: Seq<char>)
    requires
        lacks(a, ','),
        a.len() > 0,
    ensures
        parse_event("closewindow"@ + seq!['>', '>'] + a) == ok_event(HyprEventView::CloseWindow { window_address: a }),
{
    reveal_strlit("workspace");
    reveal_strlit("workspacev2");
    reveal_strlit("createworkspace");
    reveal_strlit("createworkspacev2");
    reveal_strlit("destroyworkspace");
    reveal_strlit("destroyworkspacev2");
    reveal_strlit("moveworkspace");
    reveal_strlit("moveworkspacev2");
    reveal_strlit("renameworkspace");
    reveal_strlit("activespecial");
    reveal_strlit("activespecialv2");
    reveal_strlit("focusedmon");
    reveal_strlit("focusedmonv2");
    reveal_strlit("monitorremoved");
    reveal_strlit("monitorremovedv2");
    reveal_strlit("monitoradded");
    reveal_strlit("monitoraddedv2");
    reveal_strlit("activewindow");
    reveal_strlit("activewindowv2");
    reveal_strlit("fullscreen");
    reveal_strlit("openwindow");
    reveal_strlit("closewindow");
    let name = "closewindow"@;
    assert(name.len() != "workspace"@.len());
    assert(name != "workspace"@);
    assert(name[0] != "workspacev2"@[0]);
    assert(name != "workspacev2"@);
    assert(name.len() != "createworkspace"@.len());
    assert(name != "createworkspace"@);
    assert(name.len() != "createworkspacev2"@.len());
    assert(name != "createworkspacev2"@);
    assert(name.len() != "destroyworkspace"@.len());
    assert(name != "destroyworkspace"@);
    assert(name.len() != "destroyworkspacev2"@.len());
    assert(name != "destroyworkspacev2"@);
    assert(name.len() != "moveworkspace"@.len());
    assert(name != "moveworkspace"@);
    assert(name.len() != "moveworkspacev2"@.len());
    assert(name != "moveworkspacev2"@);
    assert(name.len() != "renameworkspace"@.len());
    assert(name != "renameworkspace"@);
    assert(name.len() != "activespecial"@.len());
    assert(name != "activespecial"@);
    assert(name.len() != "activespecialv2"@.len());
    assert(name != "activespecialv2"@);
    assert(name.len() != "focusedmon"@.len());
    assert(name != "focusedmon"@);
    assert(name.len() != "focusedmonv2"@.len());
    assert(name != "focusedmonv2"@);
    assert(name.len() != "monitorremoved"@.len());
    assert(name != "monitorremoved"@);
    assert(name.len() != "monitorremovedv2"@.len());
    assert(name != "monitorremovedv2"@);
    assert(name.len() != "monitoradded"@.len());
    assert(name != "monitoradded"@);
    assert(name.len() != "monitoraddedv2"@.len());
    assert(name != "monitoraddedv2"@);
    assert(name.len() != "activewindow"@.len());
    assert(name != "activewindow"@);
    assert(name.len() != "activewindowv2"@.len());
    assert(name != "activewindowv2"@);
    assert(name.len() != "fullscreen"@.len());
    assert(name != "fullscreen"@);
    assert(name.len() != "openwindow"@.len());
    assert(name != "openwindow"@);
    let data = a;
    assert(name + seq!['>', '>'] + a =~= name + seq!['>', '>'] + data);
    lemma_line(name, data);
    lemma_parts1(a);
}

/// A `kill` line gives the window's address, taken from the fields of its data in
/// this order.
pub proof fn law_kill_fields(a: Seq<char>)
    requires
        lacks(a, ','),
        a.len() > 0,
    ensures
        parse_event("kill"@ + seq!['>', '>'] + a) == ok_event(HyprEventView::Kill { window_address: a }),
{
    reveal_strlit("workspace");
    reveal_strlit("workspacev2");
    reveal_strlit("createworkspace");
    reveal_strlit("createworkspacev2");
    reveal_strlit("destroyworkspace");
    reveal_strlit("destroyworkspacev2");
    reveal_strlit("moveworkspace");
    reveal_strlit("moveworkspacev2");
    reveal_strlit("renameworkspace");
    reveal_strlit("activespecial");
    reveal_strlit("activespecialv2");
    reveal_strlit("focusedmon");
    reveal_strlit("focusedmonv2");
    reveal_strlit("monitorremoved");
    reveal_strlit("monitorremovedv2");
    reveal_strlit("monitoradded");
    reveal_strlit("monitoraddedv2");
    reveal_strlit("activewindow");
    reveal_strlit("activewindowv2");
    reveal_strlit("fullscreen");
    reveal_strlit("openwindow");
    reveal_strlit("closewindow");
    reveal_strlit("kill");
    let name = "kill"@;
    assert(name.len() != "workspace"@.len());
    assert(name != "workspace"@);
    assert(name.len() != "workspacev2"@.len());
    assert(name != "workspacev2"@);
    assert(name.len() != "createworkspace"@.len());
    assert(name != "createworkspace"@);
    assert(name.len() != "createworkspacev2"@.len());
    assert(name != "createworkspacev2"@);
    assert(name.len() != "destroyworkspace"@.len());
    assert(name != "destroyworkspace"@);
    assert(name.len() != "destroyworkspacev2"@.len());
    assert(name != "destroyworkspacev2"@);
    assert(name.len() != "moveworkspace"@.len());
    assert(name != "moveworkspace"@);
    assert(name.len() != "moveworkspacev2"@.len());
    assert(name != "moveworkspacev2"@);
    assert(name.len() != "renameworkspace"@.len());
    assert(name != "renameworkspace"@);
    assert(name.len() != "activespecial"@.len());
    assert(name != "activespecial"@);
    assert(name.len() != "activespecialv2"@.len());
    assert(name != "activespecialv2"@);
    assert(name.len() != "focusedmon"@.len());
    assert(name != "focusedmon"@);
    assert(name.len() != "focusedmonv2"@.len());
    assert(name != "focusedmonv2"@);
    assert(name.len() != "monitorremoved"@.len());
    assert(name != "monitorremoved"@);
    assert(name.len() != "monitorremovedv2"@.len());
    assert(name != "monitorremovedv2"@);
    assert(name.len() != "monitoradded"@.len());
    assert(name != "monitoradded"@);
    assert(name.len() != "monitoraddedv2"@.len());
    assert(name != "monitoraddedv2"@);
    assert(name.len() != "activewindow"@.len());
    assert(name != "activewindow"@);
    assert(name.len() != "activewindowv2"@.len());
    assert(name != "activewindowv2"@);
    assert(name.len() != "fullscreen"@.len());
    assert(name != "fullscreen"@);
    assert(name.len() != "openwindow"@.len());
    assert(name != "openwindow"@);
    assert(name.len() != "closewindow"@.len());
    assert(name != "closewindow"@);
    let data = a;
    assert(name + seq!['>', '>'] + a =~= name + seq!['>', '>'] + data);
    lemma_line(name, data);
    lemma_parts1(a);
}

/// A `movewindow` line gives the window's address and its workspace's name, taken from the fields of its data in
/// this order.
pub proof fn law_movewindow_fields(a: Seq<char>, b: Seq<char>)
    requires
        lacks(a, ','),
        lacks(b, ','),
    ensures
        parse_event("movewindow"@ + seq!['>', '>'] + a + seq![','] + b) == ok_event(HyprEventView::MoveWindow { window_address: a, workspace_name: b }),
{
    reveal_strlit("workspace");
    reveal_strlit("workspacev2");
    reveal_strlit("createworkspace");
    reveal_strlit("createworkspacev2");
    reveal_strlit("destroyworkspace");
    reveal_strlit("destroyworkspacev2");
    reveal_strlit("moveworkspace");
    reveal_strlit("moveworkspacev2");
    reveal_strlit("renameworkspace");
    reveal_strlit("activespecial");
    reveal_strlit("activespecialv2");
    reveal_strlit("focusedmon");
    reveal_strlit("focusedmonv2");
    reveal_strlit("monitorremoved");
    reveal_strlit("monitorremovedv2");
    reveal_strlit("monitoradded");
    reveal_strlit("monitoraddedv2");
    reveal_strlit("activewindow");
    reveal_strlit("activewindowv2");
    reveal_strlit("fullscreen");
    reveal_strlit("openwindow");
    reveal_strlit("closewindow");
    reveal_strlit("kill");
    reveal_strlit("movewindow");
    let name = "movewindow"@;
    assert(name.len() != "workspace"@.len());
    assert(name != "workspace"@);
    assert(name.len() != "workspacev2"@.len());
    assert(name != "workspacev2"@);
    assert(name.len() != "createworkspace"@.len());
    assert(name != "createworkspace"@);
    assert(name.len() != "createworkspacev2"@.len());
    assert(name != "createworkspacev2"@);
    assert(name.len() != "destroyworkspace"@.len());
    assert(name != "destroyworkspace"@);
    assert(name.len() != "destroyworkspacev2"@.len());
    assert(name != "destroyworkspacev2"@);
    assert(name.len() != "moveworkspace"@.len());
    assert(name != "moveworkspace"@);
    assert(name.len() != "moveworkspacev2"@.len());
    assert(name != "moveworkspacev2"@);
    assert(name.len() != "renameworkspace"@.len());
    assert(name != "renameworkspace"@);
    assert(name.len() != "activespecial"@.len());
    assert(name != "activespecial"@);
    assert(name.len() != "activespecialv2"@.len());
    assert(name != "activespecialv2"@);
    assert(name[0] != "focusedmon"@[0]);
    assert(name != "focusedmon"@);
    assert(name.len() != "focusedmonv2"@.len());
    assert(name != "focusedmonv2"@);
    assert(name.len() != "monitorremoved"@.len());
    assert(name != "monitorremoved"@);
    assert(name.len() != "monitorremovedv2"@.len());
    assert(name != "monitorremovedv2"@);
    assert(name.len() != "monitoradded"@.len());
    assert(name != "monitoradded"@);
    assert(name.len() != "monitoraddedv2"@.len());
    assert(name != "monitoraddedv2"@);
    assert(name.len() != "activewindow"@.len());
    assert(name != "activewindow"@);
    assert(name.len() != "activewindowv2"@.len());
    assert(name != "activewindowv2"@);
    assert(name[0] != "fullscreen"@[0]);
    assert(name != "fullscreen"@);
    assert(name[0] != "openwindow"@[0]);
    assert(name != "openwindow"@);
    assert(name.len() != "closewindow"@.len());
    assert(name != "closewindow"@);
    assert(name.len() != "kill"@.len());
    assert(name != "kill"@);
    let data = a + seq![','] + b;
    assert(name + seq!['>', '>'] + a + seq![','] + b =~= name + seq!['>', '>'] + data);
    lemma_line(name, data);
    lemma_parts2(a, b);
}

/// A `movewindowv2` line gives the window's address, its workspace's id and name, taken from the fields of its data in
/// this order.
pub proof fn law_movewindowv2_fields(a: Seq<char>, b: Seq<char>, c: Seq<char>)
    requires
        lacks(a, ','),
        lacks(b, ','),
        lacks(c, ','),
        decimal_i32(b) is Some,
    ensures
        parse_event("movewindowv2"@ + seq!['>', '>'] + a + seq![','] + b + seq![','] + c) == ok_event(HyprEventView::MoveWindowV2 { window_address: a, workspace_id: decimal_i32(b).unwrap(), workspace_name: c }),
{
    reveal_strlit("workspace");
    reveal_strlit("workspacev2");
    reveal_strlit("createworkspace");
    reveal_strlit("createworkspacev2");
    reveal_strlit("destroyworkspace");
    reveal_strlit("destroyworkspacev2");
    reveal_strlit("moveworkspace");
    reveal_strlit("moveworkspacev2");
    reveal_strlit("renameworkspace");
    reveal_strlit("activespecial");
    reveal_strlit("activespecialv2");
    reveal_strlit("focusedmon");
    reveal_strlit("focusedmonv2");
    reveal_strlit("monitorremoved");
    reveal_strlit("monitorremovedv2");
    reveal_strlit("monitoradded");
    reveal_strlit("monitoraddedv2");
    reveal_strlit("activewindow");
    reveal_strlit("activewindowv2");
    reveal_strlit("fullscreen");
    reveal_strlit("openwindow");
    reveal_strlit("closewindow");
    reveal_strlit("kill");
    reveal_strlit("movewindow");
    reveal_strlit("movewindowv2");
    let name = "movewindowv2"@;
    assert(name.len() != "workspace"@.len());
    assert(name != "workspace"@);
    assert(name.len() != "workspacev2"@.len());
    assert(name != "workspacev2"@);
    assert(name.len() != "createworkspace"@.len());
    assert(name != "createworkspace"@);
    assert(name.len() != "createworkspacev2"@.len());
    assert(name != "createworkspacev2"@);
    assert(name.len() != "destroyworkspace"@.len());
    assert(name != "destroyworkspace"@);
    assert(name.len() != "destroyworkspacev2"@.len());
    assert(name != "destroyworkspacev2"@);
    assert(name.len() != "moveworkspace"@.len());
    assert(name != "moveworkspace"@);
    assert(name.len() != "moveworkspacev2"@.len());
    assert(name != "moveworkspacev2"@);
    assert(name.len() != "renameworkspace"@.len());
    assert(name != "renameworkspace"@);
    assert(name.len() != "activespecial"@.len());
    assert(name != "activespecial"@);
    assert(name.len() != "activespecialv2"@.len());
    assert(name != "activespecialv2"@);
    assert(name.len() != "focusedmon"@.len());
    assert(name != "focusedmon"@);
    assert(name[0] != "focusedmonv2"@[0]);
    assert(name != "focusedmonv2"@);
    assert(name.len() != "monitorremoved"@.len());
    assert(name != "monitorremoved"@);
    assert(name.len() != "monitorremovedv2"@.len());
    assert(name != "monitorremovedv2"@);
    assert(name[2] != "monitoradded"@[2]);
    assert(name != "monitoradded"@);
    assert(name.len() != "monitoraddedv2"@.len());
    assert(name != "monitoraddedv2"@);
    assert(name[0] != "activewindow"@[0]);
    assert(name != "activewindow"@);
    assert(name.len() != "activewindowv2"@.len());
    assert(name != "activewindowv2"@);
    assert(name.len() != "fullscreen"@.len());
    assert(name != "fullscreen"@);
    assert(name.len() != "openwindow"@.len());
    assert(name != "openwindow"@);
    assert(name.len() != "closewindow"@.len());
    assert(name != "closewindow"@);
    assert(name.len() != "kill"@.len());
    assert(name != "kill"@);
    assert(name.len() != "movewindow"@.len());
    assert(name != "movewindow"@);
    let data = a + seq![','] + b + seq![','] + c;
    assert(name + seq!['>', '>'] + a + seq![','] + b + seq![','] + c =~= name + seq!['>', '>'] + data);
    lemma_line(name, data);
    lemma_parts3(a, b, c);
}

/// A `changefloatingmode` line gives the window's address and whether it floats, taken from the fields of its data in
/// this order.
pub proof fn law_changefloatingmode_fields(a: Seq<char>, b: Seq<char>)
    requires
        lacks(a, ','),
        lacks(b, ','),
        b == "0"@ || b == "1"@,
    ensures
        parse_event("changefloatingmode"@ + seq!['>', '>'] + a + seq![','] + b) == ok_event(HyprEventView::ChangeFloatingMode { window_address: a, floating: (b == "1"@) }),
{
    reveal_strlit("workspace");
    reveal_strlit("workspacev2");
    reveal_strlit("createworkspace");
    reveal_strlit("createworkspacev2");
    reveal_strlit("destroyworkspace");
    reveal_strlit("destroyworkspacev2");
    reveal_strlit("moveworkspace");
    reveal_strlit("moveworkspacev2");
    reveal_strlit("renameworkspace");
    reveal_strlit("activespecial");
    reveal_strlit("activespecialv2");
    reveal_strlit("focusedmon");
    reveal_strlit("focusedmonv2");
    reveal_strlit("monitorremoved");
    reveal_strlit("monitorremovedv2");
    reveal_strlit("monitoradded");
    reveal_strlit("monitoraddedv2");
    reveal_strlit("activewindow");
    reveal_strlit("activewindowv2");
    reveal_strlit("fullscreen");
    reveal_strlit("openwindow");
    reveal_strlit("closewindow");
    reveal_strlit("kill");
    reveal_strlit("movewindow");
    reveal_strlit("movewindowv2");
    reveal_strlit("changefloatingmode");
    reveal_strlit("0");
    reveal_strlit("1");
    let name = "changefloatingmode"@;
    assert(name.len() != "workspace"@.len());
    assert(name != "workspace"@);
    assert(name.len() != "workspacev2"@.len());
    assert(name != "workspacev2"@);
    assert(name.len() != "createworkspace"@.len());
    assert(name != "createworkspace"@);
    assert(name.len() != "createworkspacev2"@.len());
    assert(name != "createworkspacev2"@);
    assert(name.len() != "destroyworkspace"@.len());
    assert(name != "destroyworkspace"@);
    assert(name[0] != "destroyworkspacev2"@[0]);
    assert(name != "destroyworkspacev2"@);
    assert(name.len() != "moveworkspace"@.len());
    assert(name != "moveworkspace"@);
    assert(name.len() != "moveworkspacev2"@.len());
    assert(name != "moveworkspacev2"@);
    assert(name.len() != "renameworkspace"@.len());
    assert(name != "renameworkspace"@);
    assert(name.len() != "activespecial"@.len());
    assert(name != "activespecial"@);
    assert(name.len() != "activespecialv2"@.len());
    assert(name != "activespecialv2"@);
    assert(name.len() != "focusedmon"@.len());
    assert(name != "focusedmon"@);
    assert(name.len() != "focusedmonv2"@.len());
    assert(name != "focusedmonv2"@);
    assert(name.len() != "monitorremoved"@.len());
    assert(name != "monitorremoved"@);
    assert(name.len() != "monitorremovedv2"@.len());
    assert(name != "monitorremovedv2"@);
    assert(name.len() != "monitoradded"@.len());
    assert(name != "monitoradded"@);
    assert(name.len() != "monitoraddedv2"@.len());
    assert(name != "monitoraddedv2"@);
    assert(name.len() != "activewindow"@.len());
    assert(name != "activewindow"@);
    assert(name.len() != "activewindowv2"@.len());
    assert(name != "activewindowv2"@);
    assert(name.len() != "fullscreen"@.len());
    assert(name != "fullscreen"@);
    assert(name.len() != "openwindow"@.len());
    assert(name != "openwindow"@);
    assert(name.len() != "closewindow"@.len());
    assert(name != "closewindow"@);
    assert(name.len() != "kill"@.len());
    assert(name != "kill"@);
    assert(name.len() != "movewindow"@.len());
    assert(name != "movewindow"@);
    assert(name.len() != "movewindowv2"@.len());
    assert(name != "movewindowv2"@);
    let data = a + seq![','] + b;
    assert(name + seq!['>', '>'] + a + seq![','] + b =~= name + seq!['>', '>'] + data);
    lemma_line(name, data);
    lemma_parts2(a, b);
}

/// A `urgent` line gives the window's address, taken from the fields of its data in
/// this order.
pub proof fn law_urgent_fields(a: Seq<char>)
    requires
        lacks(a, ','),
        a.len() > 0,
    ensures
        parse_event("urgent"@ + seq!['>', '>'] + a) == ok_event(HyprEventView::Urgent { window_address: a }),
{
    reveal_strlit("workspace");
    reveal_strlit("workspacev2");
    reveal_strlit("createworkspace");
    reveal_strlit("createworkspacev2");
    reveal_strlit("destroyworkspace");
    reveal_strlit("destroyworkspacev2");
    reveal_strlit("moveworkspace");
    reveal_strlit("moveworkspacev2");
    reveal_strlit("renameworkspace");
    reveal_strlit("activespecial");
    reveal_strlit("activespecialv2");
    reveal_strlit("focusedmon");
    reveal_strlit("focusedmonv2");
    reveal_strlit("monitorremoved");
    reveal_strlit("monitorremovedv2");
    reveal_strlit("monitoradded");
    reveal_strlit("monitoraddedv2");
    reveal_strlit("activewindow");
    reveal_strlit("activewindowv2");
    reveal_strlit("fullscreen");
    reveal_strlit("openwindow");
    reveal_strlit("closewindow");
    reveal_strlit("kill");
    reveal_strlit("movewindow");
    reveal_strlit("movewindowv2");
    reveal_strlit("changefloatingmode");
    reveal_strlit("urgent");
    let name = "urgent"@;
    assert(name.len() != "workspace"@.len());
    assert(name != "workspace"@);
    assert(name.len() != "workspacev2"@.len());
    assert(name != "workspacev2"@);
    assert(name.len() != "createworkspace"@.len());
    assert(name != "createworkspace"@);
    assert(name.len() != "createworkspacev2"@.len());
    assert(name != "createworkspacev2"@);
    assert(name.len() != "destroyworkspace"@.len());
    assert(name != "destroyworkspace"@);
    assert(name.len() != "destroyworkspacev2"@.len());
    assert(name != "destroyworkspacev2"@);
    assert(name.len() != "moveworkspace"@.len());
    assert(name != "moveworkspace"@);
    assert(name.len() != "moveworkspacev2"@.len());
    assert(name != "moveworkspacev2"@);
    assert(name.len() != "renameworkspace"@.len());
    assert(name != "renameworkspace"@);
    assert(name.len() != "activespecial"@.len());
    assert(name != "activespecial"@);
    assert(name.len() != "activespecialv2"@.len());
    assert(name != "activespecialv2"@);
    assert(name.len() != "focusedmon"@.len());
    assert(name != "focusedmon"@);
    assert(name.len() != "focusedmonv2"@.len());
    assert(name != "focusedmonv2"@);
    assert(name.len() != "monitorremoved"@.len());
    assert(name != "monitorremoved"@);
    assert(name.len() != "monitorremovedv2"@.len());
    assert(name != "monitorremovedv2"@);
    assert(name.len() != "monitoradded"@.len());
    assert(name != "monitoradded"@);
    assert(name.len() != "monitoraddedv2"@.len());
    assert(name != "monitoraddedv2"@);
    assert(name.len() != "activewindow"@.len());
    assert(name != "activewindow"@);
    assert(name.len() != "activewindowv2"@.len());
    assert(name != "activewindowv2"@);
    assert(name.len() != "fullscreen"@.len());
    assert(name != "fullscreen"@);
    assert(name.len() != "openwindow"@.len());
    assert(name != "openwindow"@);
    assert(name.len() != "closewindow"@.len());
    assert(name != "closewindow"@);
    assert(name.len() != "kill"@.len());
    assert(name != "kill"@);
    assert(name.len() != "movewindow"@.len());
    assert(name != "movewindow"@);
    assert(name.len() != "movewindowv2"@.len());
    assert(name != "movewindowv2"@);
    assert(name.len() != "changefloatingmode"@.len());
    assert(name != "changefloatingmode"@);
    let data = a;
    assert(name + seq!['>', '>'] + a =~= name + seq!['>', '>'] + data);
    lemma_line(name, data);
    lemma_parts1(a);
}

/// A `windowtitle` line gives the window's address, taken from the fields of its data in
/// this order.
pub proof fn law_windowtitle_fields(a: Seq<char>)
    requires
        lacks(a, ','),
        a.len() > 0,
    ensures
        parse_event("windowtitle"@ + seq!['>', '>'] + a) == ok_event(HyprEventView::WindowTitle { window_address: a }),
{
    reveal_strlit("workspace");
    reveal_strlit("workspacev2");
    reveal_strlit("createworkspace");
    reveal_strlit("createworkspacev2");
    reveal_strlit("destroyworkspace");
    reveal_strlit("destroyworkspacev2");
    reveal_strlit("moveworkspace");
    reveal_strlit("moveworkspacev2");
    reveal_strlit("renameworkspace");
    reveal_strlit("activespecial");
    reveal_strlit("activespecialv2");
    reveal_strlit("focusedmon");
    reveal_strlit("focusedmonv2");
    reveal_strlit("monitorremoved");
    reveal_strlit("monitorremovedv2");
    reveal_strlit("monitoradded");
    reveal_strlit("monitoraddedv2");
    reveal_strlit("activewindow");
    reveal_strlit("activewindowv2");
    reveal_strlit("fullscreen");
    reveal_strlit("openwindow");
    reveal_strlit("closewindow");
    reveal_strlit("kill");
    reveal_strlit("movewindow");
    reveal_strlit("movewindowv2");
    reveal_strlit("changefloatingmode");
    reveal_strlit("urgent");
    reveal_strlit("windowtitle");
    let name = "windowtitle"@;
    assert(name.len() != "workspace"@.len());
    assert(name != "workspace"@);
    assert(name[1] != "workspacev2"@[1]);
    assert(name != "workspacev2"@);
    assert(name.len() != "createworkspace"@.len());
    assert(name != "createworkspace"@);
    assert(name.len() != "createworkspacev2"@.len());
    assert(name != "createworkspacev2"@);
    assert(name.len() != "destroyworkspace"@.len());
    assert(name != "destroyworkspace"@);
    assert(name.len() != "destroyworkspacev2"@.len());
    assert(name != "destroyworkspacev2"@);
    assert(name.len() != "moveworkspace"@.len());
    assert(name != "moveworkspace"@);
    assert(name.len() != "moveworkspacev2"@.len());
    assert(name != "moveworkspacev2"@);
    assert(name.len() != "renameworkspace"@.len());
    assert(name != "renameworkspace"@);
    assert(name.len() != "activespecial"@.len());
    assert(name != "activespecial"@);
    assert(name.len() != "activespecialv2"@.len());
    assert(name != "activespecialv2"@);
    assert(name.len() != "focusedmon"@.len());
    assert(name != "focusedmon"@);
    assert(name.len() != "focusedmonv2"@.len());
    assert(name != "focusedmonv2"@);
    assert(name.len() != "monitorremoved"@.len());
    assert(name != "monitorremoved"@);
    assert(name.len() != "monitorremovedv2"@.len());
    assert(name != "monitorremovedv2"@);
    assert(name.len() != "monitoradded"@.len());
    assert(name != "monitoradded"@);
    assert(name.len() != "monitoraddedv2"@.len());
    assert(name != "monitoraddedv2"@);
    assert(name.len() != "activewindow"@.len());
    assert(name != "activewindow"@);
    assert(name.len() != "activewindowv2"@.len());
    assert(name != "activewindowv2"@);
    assert(name.len() != "fullscreen"@.len());
    assert(name != "fullscreen"@);
    assert(name.len() != "openwindow"@.len());
    assert(name != "openwindow"@);
    assert(name[0] != "closewindow"@[0]);
    assert(name != "closewindow"@);
    assert(name.len() != "kill"@.len());
    assert(name != "kill"@);
    assert(name.len() != "movewindow"@.len());
    assert(name != "movewindow"@);
    assert(name.len() != "movewindowv2"@.len());
    assert(name != "movewindowv2"@);
    assert(name.len() != "changefloatingmode"@.len());
    assert(name != "changefloatingmode"@);
    assert(name.len() != "urgent"@.len());
    assert(name != "urgent"@);
    let data = a;
    assert(name + seq!['>', '>'] + a =~= name + seq!['>', '>'] + data);
    lemma_line(name, data);
    lemma_parts1(a);
}

/// A `windowtitlev2` line gives the window's address and its title (which may hold commas), taken from the fields of its data in
/// this order.
pub proof fn law_windowtitlev2_fields(a: Seq<char>, rest: Seq<char>)
    requires
        lacks(a, ','),
    ensures
        parse_event("windowtitlev2"@ + seq!['>', '>'] + a + seq![','] + rest) == ok_event(HyprEventView::WindowTitleV2 { window_address: a, window_title: rest }),
{
    reveal_strlit("workspace");
    reveal_strlit("workspacev2");
    reveal_strlit("createworkspace");
    reveal_strlit("createworkspacev2");
    reveal_strlit("destroyworkspace");
    reveal_strlit("destroyworkspacev2");
    reveal_strlit("moveworkspace");
    reveal_strlit("moveworkspacev2");
    reveal_strlit("renameworkspace");
    reveal_strlit("activespecial");
    reveal_strlit("activespecialv2");
    reveal_strlit("focusedmon");
    reveal_strlit("focusedmonv2");
    reveal_strlit("monitorremoved");
    reveal_strlit("monitorremovedv2");
    reveal_strlit("monitoradded");
    reveal_strlit("monitoraddedv2");
    reveal_strlit("activewindow");
    reveal_strlit("activewindowv2");
    reveal_strlit("fullscreen");
    reveal_strlit("openwindow");
    reveal_strlit("closewindow");
    reveal_strlit("kill");
    reveal_strlit("movewindow");
    reveal_strlit("movewindowv2");
    reveal_strlit("changefloatingmode");
    reveal_strlit("urgent");
    reveal_strlit("windowtitle");
    reveal_strlit("windowtitlev2");
    let name = "windowtitlev2"@;
    assert(name.len() != "workspace"@.len());
    assert(name != "workspace"@);
    assert(name.len() != "workspacev2"@.len());
    assert(name != "workspacev2"@);
    assert(name.len() != "createworkspace"@.len());
    assert(name != "createworkspace"@);
    assert(name.len() != "createworkspacev2"@.len());
    assert(name != "createworkspacev2"@);
    assert(name.len() != "destroyworkspace"@.len());
    assert(name != "destroyworkspace"@);
    assert(name.len() != "destroyworkspacev2"@.len());
    assert(name != "destroyworkspacev2"@);
    assert(name[0] != "moveworkspace"@[0]);
    assert(name != "moveworkspace"@);
    assert(name.len() != "moveworkspacev2"@.len());
    assert(name != "moveworkspacev2"@);
    assert(name.len() != "renameworkspace"@.len());
    assert(name != "renameworkspace"@);
    assert(name[0] != "activespecial"@[0]);
    assert(name != "activespecial"@);
    assert(name.len() != "activespecialv2"@.len());
    assert(name != "activespecialv2"@);
    assert(name.len() != "focusedmon"@.len());
    assert(name != "focusedmon"@);
    assert(name.len() != "focusedmonv2"@.len());
    assert(name != "focusedmonv2"@);
    assert(name.len() != "monitorremoved"@.len());
    assert(name != "monitorremoved"@);
    assert(name.len() != "monitorremovedv2"@.len());
    assert(name != "monitorremovedv2"@);
    assert(name.len() != "monitoradded"@.len());
    assert(name != "monitoradded"@);
    assert(name.len() != "monitoraddedv2"@.len());
    assert(name != "monitoraddedv2"@);
    assert(name.len() != "activewindow"@.len());
    assert(name != "activewindow"@);
    assert(name.len() != "activewindowv2"@.len());
    assert(name != "activewindowv2"@);
    assert(name.len() != "fullscreen"@.len());
    assert(name != "fullscreen"@);
    assert(name.len() != "openwindow"@.len());
    assert(name != "openwindow"@);
    assert(name.len() != "closewindow"@.len());
    assert(name != "closewindow"@);
    assert(name.len() != "kill"@.len());
    assert(name != "kill"@);
    assert(name.len() != "movewindow"@.len());
    assert(name != "movewindow"@);
    assert(name.len() != "movewindowv2"@.len());
    assert(name != "movewindowv2"@);
    assert(name.len() != "changefloatingmode"@.len());
    assert(name != "changefloatingmode"@);
    assert(name.len() != "urgent"@.len());
    assert(name != "urgent"@);
    assert(name.len() != "windowtitle"@.len());
    assert(name != "windowtitle"@);
    let data = a + seq![','] + rest;
    assert(name + seq!['>', '>'] + a + seq![','] + rest =~= name + seq!['>', '>'] + data);
    lemma_line(name, data);
    lemma_split_once_after(a, ',', rest);
}

/// A `pin` line gives the window's address and whether it is pinned, taken from the fields of its data in
/// this order.
pub proof fn law_pin_fields(a: Seq<char>, b: Seq<char>)
    requires
        lacks(a, ','),
        lacks(b, ','),
        b == "0"@ || b == "1"@,
    ensures
        parse_event("pin"@ + seq!['>', '>'] + a + seq![','] + b) == ok_event(HyprEventView::Pin { window_address: a, pin_state: (b == "1"@) }),
{
    reveal_strlit("workspace");
    reveal_strlit("workspacev2");
    reveal_strlit("createworkspace");
    reveal_strlit("createworkspacev2");
    reveal_strlit("destroyworkspace");
    reveal_strlit("destroyworkspacev2");
    reveal_strlit("moveworkspace");
    reveal_strlit("moveworkspacev2");
    reveal_strlit("renameworkspace");
    reveal_strlit("activespecial");
    reveal_strlit("activespecialv2");
    reveal_strlit("focusedmon");
    reveal_strlit("focusedmonv2");
    reveal_strlit("monitorremoved");
    reveal_strlit("monitorremovedv2");
    reveal_strlit("monitoradded");
    reveal_strlit("monitoraddedv2");
    reveal_strlit("activewindow");
    reveal_strlit("activewindowv2");
    reveal_strlit("fullscreen");
    reveal_strlit("openwindow");
    reveal_strlit("closewindow");
    reveal_strlit("kill");
    reveal_strlit("movewindow");
    reveal_strlit("movewindowv2");
    reveal_strlit("changefloatingmode");
    reveal_strlit("urgent");
    reveal_strlit("windowtitle");
    reveal_strlit("windowtitlev2");
    reveal_strlit("pin");
    reveal_strlit("0");
    reveal_strlit("1");
    let name = "pin"@;
    assert(name.len() != "workspace"@.len());
    assert(name != "workspace"@);
    assert(name.len() != "workspacev2"@.len());
    assert(name != "workspacev2"@);
    assert(name.len() != "createworkspace"@.len());
    assert(name != "createworkspace"@);
    assert(name.len() != "createworkspacev2"@.len());
    assert(name != "createworkspacev2"@);
    assert(name.len() != "destroyworkspace"@.len());
    assert(name != "destroyworkspace"@);
    assert(name.len() != "destroyworkspacev2"@.len());
    assert(name != "destroyworkspacev2"@);
    assert(name.len() != "moveworkspace"@.len());
    assert(name != "moveworkspace"@);
    assert(name.len() != "moveworkspacev2"@.len());
    assert(name != "moveworkspacev2"@);
    assert(name.len() != "renameworkspace"@.len());
    assert(name != "renameworkspace"@);
    assert(name.len() != "activespecial"@.len());
    assert(name != "activespecial"@);
    assert(name.len() != "activespecialv2"@.len());
    assert(name != "activespecialv2"@);
    assert(name.len() != "focusedmon"@.len());
    assert(name != "focusedmon"@);
    assert(name.len() != "focusedmonv2"@.len());
    assert(name != "focusedmonv2"@);
    assert(name.len() != "monitorremoved"@.len());
    assert(name != "monitorremoved"@);
    assert(name.len() != "monitorremovedv2"@.len());
    assert(name != "monitorremovedv2"@);
    assert(name.len() != "monitoradded"@.len());
    assert(name != "monitoradded"@);
    assert(name.len() != "monitoraddedv2"@.len());
    assert(name != "monitoraddedv2"@);
    assert(name.len() != "activewindow"@.len());
    assert(name != "activewindow"@);
    assert(name.len() != "activewindowv2"@.len());
    assert(name != "activewindowv2"@);
    assert(name.len() != "fullscreen"@.len());
    assert(name != "fullscreen"@);
    assert(name.len() != "openwindow"@.len());
    assert(name != "openwindow"@);
    assert(name.len() != "closewindow"@.len());
    assert(name != "closewindow"@);
    assert(name.len() != "kill"@.len());
    assert(name != "kill"@);
    assert(name.len() != "movewindow"@.len());
    assert(name != "movewindow"@);
    assert(name.len() != "movewindowv2"@.len());
    assert(name != "movewindowv2"@);
    assert(name.len() != "changefloatingmode"@.len());
    assert(name != "changefloatingmode"@);
    assert(name.len() != "urgent"@.len());
    assert(name != "urgent"@);
    assert(name.len() != "windowtitle"@.len());
    assert(name != "windowtitle"@);
    assert(name.len() != "windowtitlev2"@.len());
    assert(name != "windowtitlev2"@);
    let data = a + seq![','] + b;
    assert(name + seq!['>', '>'] + a + seq![','] + b =~= name + seq!['>', '>'] + data);
    lemma_line(name, data);
    lemma_parts2(a, b);
}

/// A `minimized` line gives the window's address and whether it is minimized, taken from the fields of its data in
/// this order.
pub proof fn law_minimized_fields(a: Seq<char>, b: Seq<char>)
    requires
        lacks(a, ','),
        lacks(b, ','),
        b == "0"@ || b == "1"@,
    ensures
        parse_event("minimized"@ + seq!['>', '>'] + a + seq![','] + b) == ok_event(HyprEventView::Minimized { window_address: a, minimized: (b == "1"@) }),
{
    reveal_strlit("workspace");
    reveal_strlit("workspacev2");
    reveal_strlit("createworkspace");
    reveal_strlit("createworkspacev2");
    reveal_strlit("destroyworkspace");
    reveal_strlit("destroyworkspacev2");
    reveal_strlit("moveworkspace");
    reveal_strlit("moveworkspacev2");
    reveal_strlit("renameworkspace");
    reveal_strlit("activespecial");
    reveal_strlit("activespecialv2");
    reveal_strlit("focusedmon");
    reveal_strlit("focusedmonv2");
    reveal_strlit("monitorremoved");
    reveal_strlit("monitorremovedv2");
    reveal_strlit("monitoradded");
    reveal_strlit("monitoraddedv2");
    reveal_strlit("activewindow");
    reveal_strlit("activewindowv2");
    reveal_strlit("fullscreen");
    reveal_strlit("openwindow");
    reveal_strlit("closewindow");
    reveal_strlit("kill");
    reveal_strlit("movewindow");
    reveal_strlit("movewindowv2");
    reveal_strlit("changefloatingmode");
    reveal_strlit("urgent");
    reveal_strlit("windowtitle");
    reveal_strlit("windowtitlev2");
    reveal_strlit("pin");
    reveal_strlit("minimized");
    reveal_strlit("0");
    reveal_strlit("1");
    let name = "minimized"@;
    assert(name[0] != "workspace"@[0]);
    assert(name != "workspace"@);
    assert(name.len() != "workspacev2"@.len());
    assert(name != "workspacev2"@);
    assert(name.len() != "createworkspace"@.len());
    assert(name != "createworkspace"@);
    assert(name.len() != "createworkspacev2"@.len());
    assert(name != "createworkspacev2"@);
    assert(name.len() != "destroyworkspace"@.len());
    assert(name != "destroyworkspace"@);
    assert(name.len() != "destroyworkspacev2"@.len());
    assert(name != "destroyworkspacev2"@);
    assert(name.len() != "moveworkspace"@.len());
    assert(name != "moveworkspace"@);
    assert(name.len() != "moveworkspacev2"@.len());
    assert(name != "moveworkspacev2"@);
    assert(name.len() != "renameworkspace"@.len());
    assert(name != "renameworkspace"@);
    assert(name.len() != "activespecial"@.len());
    assert(name != "activespecial"@);
    assert(name.len() != "activespecialv2"@.len());
    assert(name != "activespecialv2"@);
    assert(name.len() != "focusedmon"@.len());
    assert(name != "focusedmon"@);
    assert(name.len() != "focusedmonv2"@.len());
    assert(name != "focusedmonv2"@);
    assert(name.len() != "monitorremoved"@.len());
    assert(name != "monitorremoved"@);
    assert(name.len() != "monitorremovedv2"@.len());
    assert(name != "monitorremovedv2"@);
    assert(name.len() != "monitoradded"@.len());
    assert(name != "monitoradded"@);
    assert(name.len() != "monitoraddedv2"@.len());
    assert(name != "monitoraddedv2"@);
    assert(name.len() != "activewindow"@.len());
    assert(name != "activewindow"@);
    assert(name.len() != "activewindowv2"@.len());
    assert(name != "activewindowv2"@);
    assert(name.len() != "fullscreen"@.len());
    assert(name != "fullscreen"@);
    assert(name.len() != "openwindow"@.len());
    assert(name != "openwindow"@);
    assert(name.len() != "closewindow"@.len());
    assert(name != "closewindow"@);
    assert(name.len() != "kill"@.len());
    assert(name != "kill"@);
    assert(name.len() != "movewindow"@.len());
    assert(name != "movewindow"@);
    assert(name.len() != "movewindowv2"@.len());
    assert(name != "movewindowv2"@);
    assert(name.len() != "changefloatingmode"@.len());
    assert(name != "changefloatingmode"@);
    assert(name.len() != "urgent"@.len());
    assert(name != "urgent"@);
    assert(name.len() != "windowtitle"@.len());
    assert(name != "windowtitle"@);
    assert(name.len() != "windowtitlev2"@.len());
    assert(name != "windowtitlev2"@);
    assert(name.len() != "pin"@.len());
    assert(name != "pin"@);
    let data = a + seq![','] + b;
    assert(name + seq!['>', '>'] + a + seq![','] + b =~= name + seq!['>', '>'] + data);
    lemma_line(name, data);
    lemma_parts2(a, b);
}

/// A `activelayout` line gives the keyboard's name and the layout's name, taken from the fields of its data in
/// this order.
pub proof fn law_activelayout_fields(a: Seq<char>, b: Seq<char>)
    requires
        lacks(a, ','),
        lacks(b, ','),
    ensures
        parse_event("activelayout"@ + seq!['>', '>'] + a + seq![','] + b) == ok_event(HyprEventView::ActiveLayout { keyboard_name: a, layout_name: b }),
{
    reveal_strlit("workspace");
    reveal_strlit("workspacev2");
    reveal_strlit("createworkspace");
    reveal_strlit("createworkspacev2");
    reveal_strlit("destroyworkspace");
    reveal_strlit("destroyworkspacev2");
    reveal_strlit("moveworkspace");
    reveal_strlit("moveworkspacev2");
    reveal_strlit("renameworkspace");
    reveal_strlit("activespecial");
    reveal_strlit("activespecialv2");
    reveal_strlit("focusedmon");
    reveal_strlit("focusedmonv2");
    reveal_strlit("monitorremoved");
    reveal_strlit("monitorremovedv2");
    reveal_strlit("monitoradded");
    reveal_strlit("monitoraddedv2");
    reveal_strlit("activewindow");
    reveal_strlit("activewindowv2");
    reveal_strlit("fullscreen");
    reveal_strlit("openwindow");
    reveal_strlit("closewindow");
    reveal_strlit("kill");
    reveal_strlit("movewindow");
    reveal_strlit("movewindowv2");
    reveal_strlit("changefloatingmode");
    reveal_strlit("urgent");
    reveal_strlit("windowtitle");
    reveal_strlit("windowtitlev2");
    reveal_strlit("pin");
    reveal_strlit("minimized");
    reveal_strlit("activelayout");
    let name = "activelayout"@;
    assert(name.len() != "workspace"@.len());
    assert(name != "workspace"@);
    assert(name.len() != "workspacev2"@.len());
    assert(name != "workspacev2"@);
    assert(name.len() != "createworkspace"@.len());
    assert(name != "createworkspace"@);
    assert(name.len() != "createworkspacev2"@.len());
    assert(name != "createworkspacev2"@);
    assert(name.len() != "destroyworkspace"@.len());
    assert(name != "destroyworkspace"@);
    assert(name.len() != "destroyworkspacev2"@.len());
    assert(name != "destroyworkspacev2"@);
    assert(name.len() != "moveworkspace"@.len());
    assert(name != "moveworkspace"@);
    assert(name.len() != "moveworkspacev2"@.len());
    assert(name != "moveworkspacev2"@);
    assert(name.len() != "renameworkspace"@.len());
    assert(name != "renameworkspace"@);
    assert(name.len() != "activespecial"@.len());
    assert(name != "activespecial"@);
    assert(name.len() != "activespecialv2"@.len());
    assert(name != "activespecialv2"@);
    assert(name.len() != "focusedmon"@.len());
    assert(name != "focusedmon"@);
    assert(name[0] != "focusedmonv2"@[0]);
    assert(name != "focusedmonv2"@);
    assert(name.len() != "monitorremoved"@.len());
    assert(name != "monitorremoved"@);
    assert(name.len() != "monitorremovedv2"@.len());
    assert(name != "monitorremovedv2"@);
    assert(name[0] != "monitoradded"@[0]);
    assert(name != "monitoradded"@);
    assert(name.len() != "monitoraddedv2"@.len());
    assert(name != "monitoraddedv2"@);
    assert(name[6] != "activewindow"@[6]);
    assert(name != "activewindow"@);
    assert(name.len() != "activewindowv2"@.len());
    assert(name != "activewindowv2"@);
    assert(name.len() != "fullscreen"@.len());
    assert(name != "fullscreen"@);
    assert(name.len() != "openwindow"@.len());
    assert(name != "openwindow"@);
    assert(name.len() != "closewindow"@.len());
    assert(name != "closewindow"@);
    assert(name.len() != "kill"@.len());
    assert(name != "kill"@);
    assert(name.len() != "movewindow"@.len());
    assert(name != "movewindow"@);
    assert(name[0] != "movewindowv2"@[0]);
    assert(name != "movewindowv2"@);
    assert(name.len() != "changefloatingmode"@.len());
    assert(name != "changefloatingmode"@);
    assert(name.len() != "urgent"@.len());
    assert(name != "urgent"@);
    assert(name.len() != "windowtitle"@.len());
    assert(name != "windowtitle"@);
    assert(name.len() != "windowtitlev2"@.len());
    assert(name != "windowtitlev2"@);
    assert(name.len() != "pin"@.len());
    assert(name != "pin"@);
    assert(name.len() != "minimized"@.len());
    assert(name != "minimized"@);
    let data = a + seq![','] + b;
    assert(name + seq!['>', '>'] + a + seq![','] + b =~= name + seq!['>', '>'] + data);
    lemma_line(name, data);
    lemma_parts2(a, b);
}

/// A `openlayer` line gives the layer's namespace, taken from the fields of its data in
/// this order.
pub proof fn law_openlayer_fields(a: Seq<char>)
    requires
        lacks(a, ','),
        a.len() > 0,
    ensures
        parse_event("openlayer"@ + seq!['>', '>'] + a) == ok_event(HyprEventView::OpenLayer { namespace: a }),
{
    reveal_strlit("workspace");
    reveal_strlit("workspacev2");
    reveal_strlit("createworkspace");
    reveal_strlit("createworkspacev2");
    reveal_strlit("destroyworkspace");
    reveal_strlit("destroyworkspacev2");
    reveal_strlit("moveworkspace");
    reveal_strlit("moveworkspacev2");
    reveal_strlit("renameworkspace");
    reveal_strlit("activespecial");
    reveal_strlit("activespecialv2");
    reveal_strlit("focusedmon");
    reveal_strlit("focusedmonv2");
    reveal_strlit("monitorremoved");
    reveal_strlit("monitorremovedv2");
    reveal_strlit("monitoradded");
    reveal_strlit("monitoraddedv2");
    reveal_strlit("activewindow");
    reveal_strlit("activewindowv2");
    reveal_strlit("fullscreen");
    reveal_strlit("openwindow");
    reveal_strlit("closewindow");
    reveal_strlit("kill");
    reveal_strlit("movewindow");
    reveal_strlit("movewindowv2");
    reveal_strlit("changefloatingmode");
    reveal_strlit("urgent");
    reveal_strlit("windowtitle");
    reveal_strlit("windowtitlev2");
    reveal_strlit("pin");
    reveal_strlit("minimized");
    reveal_strlit("activelayout");
    reveal_strlit("openlayer");
    let name = "openlayer"@;
    assert(name[0] != "workspace"@[0]);
    assert(name != "workspace"@);
    assert(name.len() != "workspacev2"@.len());
    assert(name != "workspacev2"@);
    assert(name.len() != "createworkspace"@.len());
    assert(name != "createworkspace"@);
    assert(name.len() != "createworkspacev2"@.len());
    assert(name != "createworkspacev2"@);
    assert(name.len() != "destroyworkspace"@.len());
    assert(name != "destroyworkspace"@);
    assert(name.len() != "destroyworkspacev2"@.len());
    assert(name != "destroyworkspacev2"@);
    assert(name.len() != "moveworkspace"@.len());
    assert(name != "moveworkspace"@);
    assert(name.len() != "moveworkspacev2"@.len());
    assert(name != "moveworkspacev2"@);
    assert(name.len() != "renameworkspace"@.len());
    assert(name != "renameworkspace"@);
    assert(name.len() != "activespecial"@.len());
    assert(name != "activespecial"@);
    assert(name.len() != "activespecialv2"@.len());
    assert(name != "activespecialv2"@);
    assert(name.len() != "focusedmon"@.len());
    assert(name != "focusedmon"@);
    assert(name.len() != "focusedmonv2"@.len());
    assert(name != "focusedmonv2"@);
    assert(name.len() != "monitorremoved"@.len());
    assert(name != "monitorremoved"@);
    assert(name.len() != "monitorremovedv2"@.len());
    assert(name != "monitorremovedv2"@);
    assert(name.len() != "monitoradded"@.len());
    assert(name != "monitoradded"@);
    assert(name.len() != "monitoraddedv2"@.len());
    assert(name != "monitoraddedv2"@);
    assert(name.len() != "activewindow"@.len());
    assert(name != "activewindow"@);
    assert(name.len() != "activewindowv2"@.len());
    assert(name != "activewindowv2"@);
    assert(name.len() != "fullscreen"@.len());
    assert(name != "fullscreen"@);
    assert(name.len() != "openwindow"@.len());
    assert(name != "openwindow"@);
    assert(name.len() != "closewindow"@.len());
    assert(name != "closewindow"@);
    assert(name.len() != "kill"@.len());
    assert(name != "kill"@);
    assert(name.len() != "movewindow"@.len());
    assert(name != "movewindow"@);
    assert(name.len() != "movewindowv2"@.len());
    assert(name != "movewindowv2"@);
    assert(name.len() != "changefloatingmode"@.len());
    assert(name != "changefloatingmode"@);
    assert(name.len() != "urgent"@.len());
    assert(name != "urgent"@);
    assert(name.len() != "windowtitle"@.len());
    assert(name != "windowtitle"@);
    assert(name.len() != "windowtitlev2"@.len());
    assert(name != "windowtitlev2"@);
    assert(name.len() != "pin"@.len());
    assert(name != "pin"@);
    assert(name[0] != "minimized"@[0]);
    assert(name != "minimized"@);
    assert(name.len() != "activelayout"@.len());
    assert(name != "activelayout"@);
    let data = a;
    assert(name + seq!['>', '>'] + a =~= name + seq!['>', '>'] + data);
    lemma_line(name, data);
    lemma_parts1(a);
}

/// A `closelayer` line gives the layer's namespace, taken from the fields of its data in
/// this order.
pub proof fn law_closelayer_fields(a: Seq<char>)
    requires
        lacks(a, ','),
        a.len() > 0,
    ensures
        parse_event("closelayer"@ + seq!['>', '>'] + a) == ok_event(HyprEventView::CloseLayer { namespace: a }),
{
    reveal_strlit("workspace");
    reveal_strlit("workspacev2");
    reveal_strlit("createworkspace");
    reveal_strlit("createworkspacev2");
    reveal_strlit("destroyworkspace");
    reveal_strlit("destroyworkspacev2");
    reveal_strlit("moveworkspace");
    reveal_strlit("moveworkspacev2");
    reveal_strlit("renameworkspace");
    reveal_strlit("activespecial");
    reveal_strlit("activespecialv2");
    reveal_strlit("focusedmon");
    reveal_strlit("focusedmonv2");
    reveal_strlit("monitorremoved");
    reveal_strlit("monitorremovedv2");
    reveal_strlit("monitoradded");
    reveal_strlit("monitoraddedv2");
    reveal_strlit("activewindow");
    reveal_strlit("activewindowv2");
    reveal_strlit("fullscreen");
    reveal_strlit("openwindow");
    reveal_strlit("closewindow");
    reveal_strlit("kill");
    reveal_strlit("movewindow");
    reveal_strlit("movewindowv2");
    reveal_strlit("changefloatingmode");
    reveal_strlit("urgent");
    reveal_strlit("windowtitle");
    reveal_strlit("windowtitlev2");
    reveal_strlit("pin");
    reveal_strlit("minimized");
    reveal_strlit("activelayout");
    reveal_strlit("openlayer");
    reveal_strlit("closelayer");
    let name = "closelayer"@;
    assert(name.len() != "workspace"@.len());
    assert(name != "workspace"@);
    assert(name.len() != "workspacev2"@.len());
    assert(name != "workspacev2"@);
    assert(name.len() != "createworkspace"@.len());
    assert(name != "createworkspace"@);
    assert(name.len() != "createworkspacev2"@.len());
    assert(name != "createworkspacev2"@);
    assert(name.len() != "destroyworkspace"@.len());
    assert(name != "destroyworkspace"@);
    assert(name.len() != "destroyworkspacev2"@.len());
    assert(name != "destroyworkspacev2"@);
    assert(name.len() != "moveworkspace"@.len());
    assert(name != "moveworkspace"@);
    assert(name.len() != "moveworkspacev2"@.len());
    assert(name != "moveworkspacev2"@);
    assert(name.len() != "renameworkspace"@.len());
    assert(name != "renameworkspace"@);
    assert(name.len() != "activespecial"@.len());
    assert(name != "activespecial"@);
    assert(name.len() != "activespecialv2"@.len());
    assert(name != "activespecialv2"@);
    assert(name[0] != "focusedmon"@[0]);
    assert(name != "focusedmon"@);
    assert(name.len() != "focusedmonv2"@.len());
    assert(name != "focusedmonv2"@);
    assert(name.len() != "monitorremoved"@.len());
    assert(name != "monitorremoved"@);
    assert(name.len() != "monitorremovedv2"@.len());
    assert(name != "monitorremovedv2"@);
    assert(name.len() != "monitoradded"@.len());
    assert(name != "monitoradded"@);
    assert(name.len() != "monitoraddedv2"@.len());
    assert(name != "monitoraddedv2"@);
    assert(name.len() != "activewindow"@.len());
    assert(name != "activewindow"@);
    assert(name.len() != "activewindowv2"@.len());
    assert(name != "activewindowv2"@);
    assert(name[0] != "fullscreen"@[0]);
    assert(name != "fullscreen"@);
    assert(name[0] != "openwindow"@[0]);
    assert(name != "openwindow"@);
    assert(name.len() != "closewindow"@.len());
    assert(name != "closewindow"@);
    assert(name.len() != "kill"@.len());
    assert(name != "kill"@);
    assert(name[0] != "movewindow"@[0]);
    assert(name != "movewindow"@);
    assert(name.len() != "movewindowv2"@.len());
    assert(name != "movewindowv2"@);
    assert(name.len() != "changefloatingmode"@.len());
    assert(name != "changefloatingmode"@);
    assert(name.len() != "urgent"@.len());
    assert(name != "urgent"@);
    assert(name.len() != "windowtitle"@.len());
    assert(name != "windowtitle"@);
    assert(name.len() != "windowtitlev2"@.len());
    assert(name != "windowtitlev2"@);
    assert(name.len() != "pin"@.len());
    assert(name != "pin"@);
    assert(name.len() != "minimized"@.len());
    assert(name != "minimized"@);
    assert(name.len() != "activelayout"@.len());
    assert(name != "activelayout"@);
    assert(name.len() != "openlayer"@.len());
    assert(name != "openlayer"@);
    let data = a;
    assert(name + seq!['>', '>'] + a =~= name + seq!['>', '>'] + data);
    lemma_line(name, data);
    lemma_parts1(a);
}

/// A `submap` line gives the whole data as the submap's name, taken from the fields of its data in
/// this order.
pub proof fn law_submap_fields(d: Seq<char>)
    ensures
        parse_event("submap"@ + seq!['>', '>'] + d) == ok_event(HyprEventView::Submap { submap_name: d }),
{
    reveal_strlit("workspace");
    reveal_strlit("workspacev2");
    reveal_strlit("createworkspace");
    reveal_strlit("createworkspacev2");
    reveal_strlit("destroyworkspace");
    reveal_strlit("destroyworkspacev2");
    reveal_strlit("moveworkspace");
    reveal_strlit("moveworkspacev2");
    reveal_strlit("renameworkspace");
    reveal_strlit("activespecial");
    reveal_strlit("activespecialv2");
    reveal_strlit("focusedmon");
    reveal_strlit("focusedmonv2");
    reveal_strlit("monitorremoved");
    reveal_strlit("monitorremovedv2");
    reveal_strlit("monitoradded");
    reveal_strlit("monitoraddedv2");
    reveal_strlit("activewindow");
    reveal_strlit("activewindowv2");
    reveal_strlit("fullscreen");
    reveal_strlit("openwindow");
    reveal_strlit("closewindow");
    reveal_strlit("kill");
    reveal_strlit("movewindow");
    reveal_strlit("movewindowv2");
    reveal_strlit("changefloatingmode");
    reveal_strlit("urgent");
    reveal_strlit("windowtitle");
    reveal_strlit("windowtitlev2");
    reveal_strlit("pin");
    reveal_strlit("minimized");
    reveal_strlit("activelayout");
    reveal_strlit("openlayer");
    reveal_strlit("closelayer");
    reveal_strlit("submap");
    let name = "submap"@;
    assert(name.len() != "workspace"@.len());
    assert(name != "workspace"@);
    assert(name.len() != "workspacev2"@.len());
    assert(name != "workspacev2"@);
    assert(name.len() != "createworkspace"@.len());
    assert(name != "createworkspace"@);
    assert(name.len() != "createworkspacev2"@.len());
    assert(name != "createworkspacev2"@);
    assert(name.len() != "destroyworkspace"@.len());
    assert(name != "destroyworkspace"@);
    assert(name.len() != "destroyworkspacev2"@.len());
    assert(name != "destroyworkspacev2"@);
    assert(name.len() != "moveworkspace"@.len());
    assert(name != "moveworkspace"@);
    assert(name.len() != "moveworkspacev2"@.len());
    assert(name != "moveworkspacev2"@);
    assert(name.len() != "renameworkspace"@.len());
    assert(name != "renameworkspace"@);
    assert(name.len() != "activespecial"@.len());
    assert(name != "activespecial"@);
    assert(name.len() != "activespecialv2"@.len());
    assert(name != "activespecialv2"@);
    assert(name.len() != "focusedmon"@.len());
    assert(name != "focusedmon"@);
    assert(name.len() != "focusedmonv2"@.len());
    assert(name != "focusedmonv2"@);
    assert(name.len() != "monitorremoved"@.len());
    assert(name != "monitorremoved"@);
    assert(name.len() != "monitorremovedv2"@.len());
    assert(name != "monitorremovedv2"@);
    assert(name.len() != "monitoradded"@.len());
    assert(name != "monitoradded"@);
    assert(name.len() != "monitoraddedv2"@.len());
    assert(name != "monitoraddedv2"@);
    assert(name.len() != "activewindow"@.len());
    assert(name != "activewindow"@);
    assert(name.len() != "activewindowv2"@.len());
    assert(name != "activewindowv2"@);
    assert(name.len() != "fullscreen"@.len());
    assert(name != "fullscreen"@);
    assert(name.len() != "openwindow"@.len());
    assert(name != "openwindow"@);
    assert(name.len() != "closewindow"@.len());
    assert(name != "closewindow"@);
    assert(name.len() != "kill"@.len());
    assert(name != "kill"@);
    assert(name.len() != "movewindow"@.len());
    assert(name != "movewindow"@);
    assert(name.len() != "movewindowv2"@.len());
    assert(name != "movewindowv2"@);
    assert(name.len() != "changefloatingmode"@.len());
    assert(name != "changefloatingmode"@);
    assert(name[0] != "urgent"@[0]);
    assert(name != "urgent"@);
    assert(name.len() != "windowtitle"@.len());
    assert(name != "windowtitle"@);
    assert(name.len() != "windowtitlev2"@.len());
    assert(name != "windowtitlev2"@);
    assert(name.len() != "pin"@.len());
    assert(name != "pin"@);
    assert(name.len() != "minimized"@.len());
    assert(name != "minimized"@);
    assert(name.len() != "activelayout"@.len());
    assert(name != "activelayout"@);
    assert(name.len() != "openlayer"@.len());
    assert(name != "openlayer"@);
    assert(name.len() != "closelayer"@.len());
    assert(name != "closelayer"@);
    let data = d;
    assert(name + seq!['>', '>'] + d =~= name + seq!['>', '>'] + data);
    lemma_line(name, data);
}

/// A `screencast` line gives whether screencasting is on and its owner, taken from the fields of its data in
/// this order.
pub proof fn law_screencast_fields(a: Seq<char>, b: Seq<char>)
    requires
        lacks(a, ','),
        lacks(b, ','),
        a == "0"@ || a == "1"@,
    ensures
        parse_event("screencast"@ + seq!['>', '>'] + a + seq![','] + b) == ok_event(HyprEventView::Screencast { state: (a == "1"@), owner: b }),
{
    reveal_strlit("workspace");
    reveal_strlit("workspacev2");
    reveal_strlit("createworkspace");
    reveal_strlit("createworkspacev2");
    reveal_strlit("destroyworkspace");
    reveal_strlit("destroyworkspacev2");
    reveal_strlit("moveworkspace");
    reveal_strlit("moveworkspacev2");
    reveal_strlit("renameworkspace");
    reveal_strlit("activespecial");
    reveal_strlit("activespecialv2");
    reveal_strlit("focusedmon");
    reveal_strlit("focusedmonv2");
    reveal_strlit("monitorremoved");
    reveal_strlit("monitorremovedv2");
    reveal_strlit("monitoradded");
    reveal_strlit("monitoraddedv2");
    reveal_strlit("activewindow");
    reveal_strlit("activewindowv2");
    reveal_strlit("fullscreen");
    reveal_strlit("openwindow");
    reveal_strlit("closewindow");
    reveal_strlit("kill");
    reveal_strlit("movewindow");
    reveal_strlit("movewindowv2");
    reveal_strlit("changefloatingmode");
    reveal_strlit("urgent");
    reveal_strlit("windowtitle");
    reveal_strlit("windowtitlev2");
    reveal_strlit("pin");
    reveal_strlit("minimized");
    reveal_strlit("activelayout");
    reveal_strlit("openlayer");
    reveal_strlit("closelayer");
    reveal_strlit("submap");
    reveal_strlit("screencast");
    reveal_strlit("0");
    reveal_strlit("1");
    let name = "screencast"@;
    assert(name.len() != "workspace"@.len());
    assert(name != "workspace"@);
    assert(name.len() != "workspacev2"@.len());
    assert(name != "workspacev2"@);
    assert(name.len() != "createworkspace"@.len());
    assert(name != "createworkspace"@);
    assert(name.len() != "createworkspacev2"@.len());
    assert(name != "createworkspacev2"@);
    assert(name.len() != "destroyworkspace"@.len());
    assert(name != "destroyworkspace"@);
    assert(name.len() != "destroyworkspacev2"@.len());
    assert(name != "destroyworkspacev2"@);
    assert(name.len() != "moveworkspace"@.len());
    assert(name != "moveworkspace"@);
    assert(name.len() != "moveworkspacev2"@.len());
    assert(name != "moveworkspacev2"@);
    assert(name.len() != "renameworkspace"@.len());
    assert(name != "renameworkspace"@);
    assert(name.len() != "activespecial"@.len());
    assert(name != "activespecial"@);
    assert(name.len() != "activespecialv2"@.len());
    assert(name != "activespecialv2"@);
    assert(name[0] != "focusedmon"@[0]);
    assert(name != "focusedmon"@);
    assert(name.len() != "focusedmonv2"@.len());
    assert(name != "focusedmonv2"@);
    assert(name.len() != "monitorremoved"@.len());
    assert(name != "monitorremoved"@);
    assert(name.len() != "monitorremovedv2"@.len());
    assert(name != "monitorremovedv2"@);
    assert(name.len() != "monitoradded"@.len());
    assert(name != "monitoradded"@);
    assert(name.len() != "monitoraddedv2"@.len());
    assert(name != "monitoraddedv2"@);
    assert(name.len() != "activewindow"@.len());
    assert(name != "activewindow"@);
    assert(name.len() != "activewindowv2"@.len());
    assert(name != "activewindowv2"@);
    assert(name[0] != "fullscreen"@[0]);
    assert(name != "fullscreen"@);
    assert(name[0] != "openwindow"@[0]);
    assert(name != "openwindow"@);
    assert(name.len() != "closewindow"@.len());
    assert(name != "closewindow"@);
    assert(name.len() != "kill"@.len());
    assert(name != "kill"@);
    assert(name[0] != "movewindow"@[0]);
    assert(name != "movewindow"@);
    assert(name.len() != "movewindowv2"@.len());
    assert(name != "movewindowv2"@);
    assert(name.len() != "changefloatingmode"@.len());
    assert(name != "changefloatingmode"@);
    assert(name.len() != "urgent"@.len());
    assert(name != "urgent"@);
    assert(name.len() != "windowtitle"@.len());
    assert(name != "windowtitle"@);
    assert(name.len() != "windowtitlev2"@.len());
    assert(name != "windowtitlev2"@);
    assert(name.len() != "pin"@.len());
    assert(name != "pin"@);
    assert(name.len() != "minimized"@.len());
    assert(name != "minimized"@);
    assert(name.len() != "activelayout"@.len());
    assert(name != "activelayout"@);
    assert(name.len() != "openlayer"@.len());
    assert(name != "openlayer"@);
    assert(name[0] != "closelayer"@[0]);
    assert(name != "closelayer"@);
    assert(name.len() != "submap"@.len());
    assert(name != "submap"@);
    let data = a + seq![','] + b;
    assert(name + seq!['>', '>'] + a + seq![','] + b =~= name + seq!['>', '>'] + data);
    lemma_line(name, data);
    lemma_parts2(a, b);
}

/// A `screencastv2` line gives whether screencasting is on, its owner and its name (which may hold commas), taken from the fields of its data in
/// this order.
pub proof fn law_screencastv2_fields(a: Seq<char>, b: Seq<char>, rest: Seq<char>)
    requires
        lacks(a, ','),
        lacks(b, ','),
        a == "0"@ || a == "1"@,
    ensures
        parse_event("screencastv2"@ + seq!['>', '>'] + a + seq![','] + b + seq![','] + rest) == ok_event(HyprEventView::ScreencastV2 { state: (a == "1"@), owner: b, name: rest }),
{
    reveal_strlit("workspace");
    reveal_strlit("workspacev2");
    reveal_strlit("createworkspace");
    reveal_strlit("createworkspacev2");
    reveal_strlit("destroyworkspace");
    reveal_strlit("destroyworkspacev2");
    reveal_strlit("moveworkspace");
    reveal_strlit("moveworkspacev2");
    reveal_strlit("renameworkspace");
    reveal_strlit("activespecial");
    reveal_strlit("activespecialv2");
    reveal_strlit("focusedmon");
    reveal_strlit("focusedmonv2");
    reveal_strlit("monitorremoved");
    reveal_strlit("monitorremovedv2");
    reveal_strlit("monitoradded");
    reveal_strlit("monitoraddedv2");
    reveal_strlit("activewindow");
    reveal_strlit("activewindowv2");
    reveal_strlit("fullscreen");
    reveal_strlit("openwindow");
    reveal_strlit("closewindow");
    reveal_strlit("kill");
    reveal_strlit("movewindow");
    reveal_strlit("movewindowv2");
    reveal_strlit("changefloatingmode");
    reveal_strlit("urgent");
    reveal_strlit("windowtitle");
    reveal_strlit("windowtitlev2");
    reveal_strlit("pin");
    reveal_strlit("minimized");
    reveal_strlit("activelayout");
    reveal_strlit("openlayer");
    reveal_strlit("closelayer");
    reveal_strlit("submap");
    reveal_strlit("screencast");
    reveal_strlit("screencastv2");
    reveal_strlit("0");
    reveal_strlit("1");
    let name = "screencastv2"@;
    assert(name.len() != "workspace"@.len());
    assert(name != "workspace"@);
    assert(name.len() != "workspacev2"@.len());
    assert(name != "workspacev2"@);
    assert(name.len() != "createworkspace"@.len());
    assert(name != "createworkspace"@);
    assert(name.len() != "createworkspacev2"@.len());
    assert(name != "createworkspacev2"@);
    assert(name.len() != "destroyworkspace"@.len());
    assert(name != "destroyworkspace"@);
    assert(name.len() != "destroyworkspacev2"@.len());
    assert(name != "destroyworkspacev2"@);
    assert(name.len() != "moveworkspace"@.len());
    assert(name != "moveworkspace"@);
    assert(name.len() != "moveworkspacev2"@.len());
    assert(name != "moveworkspacev2"@);
    assert(name.len() != "renameworkspace"@.len());
    assert(name != "renameworkspace"@);
    assert(name.len() != "activespecial"@.len());
    assert(name != "activespecial"@);
    assert(name.len() != "activespecialv2"@.len());
    assert(name != "activespecialv2"@);
    assert(name.len() != "focusedmon"@.len());
    assert(name != "focusedmon"@);
    assert(name[0] != "focusedmonv2"@[0]);
    assert(name != "focusedmonv2"@);
    assert(name.len() != "monitorremoved"@.len());
    assert(name != "monitorremoved"@);
    assert(name.len() != "monitorremovedv2"@.len());
    assert(name != "monitorremovedv2"@);
    assert(name[0] != "monitoradded"@[0]);
    assert(name != "monitoradded"@);
    assert(name.len() != "monitoraddedv2"@.len());
    assert(name != "monitoraddedv2"@);
    assert(name[0] != "activewindow"@[0]);
    assert(name != "activewindow"@);
    assert(name.len() != "activewindowv2"@.len());
    assert(name != "activewindowv2"@);
    assert(name.len() != "fullscreen"@.len());
    assert(name != "fullscreen"@);
    assert(name.len() != "openwindow"@.len());
    assert(name != "openwindow"@);
    assert(name.len() != "closewindow"@.len());
    assert(name != "closewindow"@);
    assert(name.len() != "kill"@.len());
    assert(name != "kill"@);
    assert(name.len() != "movewindow"@.len());
    assert(name != "movewindow"@);
    assert(name[0] != "movewindowv2"@[0]);
    assert(name != "movewindowv2"@);
    assert(name.len() != "changefloatingmode"@.len());
    assert(name != "changefloatingmode"@);
    assert(name.len() != "urgent"@.len());
    assert(name != "urgent"@);
    assert(name.len() != "windowtitle"@.len());
    assert(name != "windowtitle"@);
    assert(name.len() != "windowtitlev2"@.len());
    assert(name != "windowtitlev2"@);
    assert(name.len() != "pin"@.len());
    assert(name != "pin"@);
    assert(name.len() != "minimized"@.len());
    assert(name != "minimized"@);
    assert(name[0] != "activelayout"@[0]);
    assert(name != "activelayout"@);
    assert(name.len() != "openlayer"@.len());
    assert(name != "openlayer"@);
    assert(name.len() != "closelayer"@.len());
    assert(name != "closelayer"@);
    assert(name.len() != "submap"@.len());
    assert(name != "submap"@);
    assert(name.len() != "screencast"@.len());
    assert(name != "screencast"@);
    let data = a + seq![','] + b + seq![','] + rest;
    assert(name + seq!['>', '>'] + a + seq![','] + b + seq![','] + rest =~= name + seq!['>', '>'] + data);
    lemma_line(name, data);
    let rest1 = b + seq![','] + rest;
    assert(data =~= a + seq![','] + rest1);
    lemma_split_once_after(a, ',', rest1);
    lemma_split_once_after(b, ',', rest);
}

/// A `togglegroup` line gives whether the group is on and its window handles, taken from the fields of its data in
/// this order.
pub proof fn law_togglegroup_fields(a: Seq<char>, rest: Seq<char>)
    requires
        lacks(a, ','),
        a == "0"@ || a == "1"@,
    ensures
        parse_event("togglegroup"@ + seq!['>', '>'] + a + seq![','] + rest) == ok_event(HyprEventView::ToggleGroup { state: (a == "1"@), handles: rest }),
{
    reveal_strlit("workspace");
    reveal_strlit("workspacev2");
    reveal_strlit("createworkspace");
    reveal_strlit("createworkspacev2");
    reveal_strlit("destroyworkspace");
    reveal_strlit("destroyworkspacev2");
    reveal_strlit("moveworkspace");
    reveal_strlit("moveworkspacev2");
    reveal_strlit("renameworkspace");
    reveal_strlit("activespecial");
    reveal_strlit("activespecialv2");
    reveal_strlit("focusedmon");
    reveal_strlit("focusedmonv2");
    reveal_strlit("monitorremoved");
    reveal_strlit("monitorremovedv2");
    reveal_strlit("monitoradded");
    reveal_strlit("monitoraddedv2");
    reveal_strlit("activewindow");
    reveal_strlit("activewindowv2");
    reveal_strlit("fullscreen");
    reveal_strlit("openwindow");
    reveal_strlit("closewindow");
    reveal_strlit("kill");
    reveal_strlit("movewindow");
    reveal_strlit("movewindowv2");
    reveal_strlit("changefloatingmode");
    reveal_strlit("urgent");
    reveal_strlit("windowtitle");
    reveal_strlit("windowtitlev2");
    reveal_strlit("pin");
    reveal_strlit("minimized");
    reveal_strlit("activelayout");
    reveal_strlit("openlayer");
    reveal_strlit("closelayer");
    reveal_strlit("submap");
    reveal_strlit("screencast");
    reveal_strlit("screencastv2");
    reveal_strlit("togglegroup");
    reveal_strlit("0");
    reveal_strlit("1");
    let name = "togglegroup"@;
    assert(name.len() != "workspace"@.len());
    assert(name != "workspace"@);
    assert(name[0] != "workspacev2"@[0]);
    assert(name != "workspacev2"@);
    assert(name.len() != "createworkspace"@.len());
    assert(name != "createworkspace"@);
    assert(name.len() != "createworkspacev2"@.len());
    assert(name != "createworkspacev2"@);
    assert(name.len() != "destroyworkspace"@.len());
    assert(name != "destroyworkspace"@);
    assert(name.len() != "destroyworkspacev2"@.len());
    assert(name != "destroyworkspacev2"@);
    assert(name.len() != "moveworkspace"@.len());
    assert(name != "moveworkspace"@);
    assert(name.len() != "moveworkspacev2"@.len());
    assert(name != "moveworkspacev2"@);
    assert(name.len() != "renameworkspace"@.len());
    assert(name != "renameworkspace"@);
    assert(name.len() != "activespecial"@.len());
    assert(name != "activespecial"@);
    assert(name.len() != "activespecialv2"@.len());
    assert(name != "activespecialv2"@);
    assert(name.len() != "focusedmon"@.len());
    assert(name != "focusedmon"@);
    assert(name.len() != "focusedmonv2"@.len());
    assert(name != "focusedmonv2"@);
    assert(name.len() != "monitorremoved"@.len());
    assert(name != "monitorremoved"@);
    assert(name.len() != "monitorremovedv2"@.len());
    assert(name != "monitorremovedv2"@);
    assert(name.len() != "monitoradded"@.len());
    assert(name != "monitoradded"@);
    assert(name.len() != "monitoraddedv2"@.len());
    assert(name != "monitoraddedv2"@);
    assert(name.len() != "activewindow"@.len());
    assert(name != "activewindow"@);
    assert(name.len() != "activewindowv2"@.len());
    assert(name != "activewindowv2"@);
    assert(name.len() != "fullscreen"@.len());
    assert(name != "fullscreen"@);
    assert(name.len() != "openwindow"@.len());
    assert(name != "openwindow"@);
    assert(name[0] != "closewindow"@[0]);
    assert(name != "closewindow"@);
    assert(name.len() != "kill"@.len());
    assert(name != "kill"@);
    assert(name.len() != "movewindow"@.len());
    assert(name != "movewindow"@);
    assert(name.len() != "movewindowv2"@.len());
    assert(name != "movewindowv2"@);
    assert(name.len() != "changefloatingmode"@.len());
    assert(name != "changefloatingmode"@);
    assert(name.len() != "urgent"@.len());
    assert(name != "urgent"@);
    assert(name[0] != "windowtitle"@[0]);
    assert(name != "windowtitle"@);
    assert(name.len() != "windowtitlev2"@.len());
    assert(name != "windowtitlev2"@);
    assert(name.len() != "pin"@.len());
    assert(name != "pin"@);
    assert(name.len() != "minimized"@.len());
    assert(name != "minimized"@);
    assert(name.len() != "activelayout"@.len());
    assert(name != "activelayout"@);
    assert(name.len() != "openlayer"@.len());
    assert(name != "openlayer"@);
    assert(name.len() != "closelayer"@.len());
    assert(name != "closelayer"@);
    assert(name.len() != "submap"@.len());
    assert(name != "submap"@);
    assert(name.len() != "screencast"@.len());
    assert(name != "screencast"@);
    assert(name.len() != "screencastv2"@.len());
    assert(name != "screencastv2"@);
    let data = a + seq![','] + rest;
    assert(name + seq!['>', '>'] + a + seq![','] + rest =~= name + seq!['>', '>'] + data);
    lemma_line(name, data);
    lemma_split_once_after(a, ',', rest);
}

/// A `moveintogroup` line gives the window's address, taken from the fields of its data in
/// this order.
pub proof fn law_moveintogroup_fields(a: Seq<char>)
    requires
        lacks(a, ','),
        a.len() > 0,
    ensures
        parse_event("moveintogroup"@ + seq!['>', '>'] + a) == ok_event(HyprEventView::MoveIntoGroup { window_address: a }),
{
    reveal_strlit("workspace");
    reveal_strlit("workspacev2");
    reveal_strlit("createworkspace");
    reveal_strlit("createworkspacev2");
    reveal_strlit("destroyworkspace");
    reveal_strlit("destroyworkspacev2");
    reveal_strlit("moveworkspace");
    reveal_strlit("moveworkspacev2");
    reveal_strlit("renameworkspace");
    reveal_strlit("activespecial");
    reveal_strlit("activespecialv2");
    reveal_strlit("focusedmon");
    reveal_strlit("focusedmonv2");
    reveal_strlit("monitorremoved");
    reveal_strlit("monitorremovedv2");
    reveal_strlit("monitoradded");
    reveal_strlit("monitoraddedv2");
    reveal_strlit("activewindow");
    reveal_strlit("activewindowv2");
    reveal_strlit("fullscreen");
    reveal_strlit("openwindow");
    reveal_strlit("closewindow");
    reveal_strlit("kill");
    reveal_strlit("movewindow");
    reveal_strlit("movewindowv2");
    reveal_strlit("changefloatingmode");
    reveal_strlit("urgent");
    reveal_strlit("windowtitle");
    reveal_strlit("windowtitlev2");
    reveal_strlit("pin");
    reveal_strlit("minimized");
    reveal_strlit("activelayout");
    reveal_strlit("openlayer");
    reveal_strlit("closelayer");
    reveal_strlit("submap");
    reveal_strlit("screencast");
    reveal_strlit("screencastv2");
    reveal_strlit("togglegroup");
    reveal_strlit("moveintogroup");
    let name = "moveintogroup"@;
    assert(name.len() != "workspace"@.len());
    assert(name != "workspace"@);
    assert(name.len() != "workspacev2"@.len());
    assert(name != "workspacev2"@);
    assert(name.len() != "createworkspace"@.len());
    assert(name != "createworkspace"@);
    assert(name.len() != "createworkspacev2"@.len());
    assert(name != "createworkspacev2"@);
    assert(name.len() != "destroyworkspace"@.len());
    assert(name != "destroyworkspace"@);
    assert(name.len() != "destroyworkspacev2"@.len());
    assert(name != "destroyworkspacev2"@);
    assert(name[4] != "moveworkspace"@[4]);
    assert(name != "moveworkspace"@);
    assert(name.len() != "moveworkspacev2"@.len());
    assert(name != "moveworkspacev2"@);
    assert(name.len() != "renameworkspace"@.len());
    assert(name != "renameworkspace"@);
    assert(name[0] != "activespecial"@[0]);
    assert(name != "activespecial"@);
    assert(name.len() != "activespecialv2"@.len());
    assert(name != "activespecialv2"@);
    assert(name.len() != "focusedmon"@.len());
    assert(name != "focusedmon"@);
    assert(name.len() != "focusedmonv2"@.len());
    assert(name != "focusedmonv2"@);
    assert(name.len() != "monitorremoved"@.len());
    assert(name != "monitorremoved"@);
    assert(name.len() != "monitorremovedv2"@.len());
    assert(name != "monitorremovedv2"@);
    assert(name.len() != "monitoradded"@.len());
    assert(name != "monitoradded"@);
    assert(name.len() != "monitoraddedv2"@.len());
    assert(name != "monitoraddedv2"@);
    assert(name.len() != "activewindow"@.len());
    assert(name != "activewindow"@);
    assert(name.len() != "activewindowv2"@.len());
    assert(name != "activewindowv2"@);
    assert(name.len() != "fullscreen"@.len());
    assert(name != "fullscreen"@);
    assert(name.len() != "openwindow"@.len());
    assert(name != "openwindow"@);
    assert(name.len() != "closewindow"@.len());
    assert(name != "closewindow"@);
    assert(name.len() != "kill"@.len());
    assert(name != "kill"@);
    assert(name.len() != "movewindow"@.len());
    assert(name != "movewindow"@);
    assert(name.len() != "movewindowv2"@.len());
    assert(name != "movewindowv2"@);
    assert(name.len() != "changefloatingmode"@.len());
    assert(name != "changefloatingmode"@);
    assert(name.len() != "urgent"@.len());
    assert(name != "urgent"@);
    assert(name.len() != "windowtitle"@.len());
    assert(name != "windowtitle"@);
    assert(name[0] != "windowtitlev2"@[0]);
    assert(name != "windowtitlev2"@);
    assert(name.len() != "pin"@.len());
    assert(name != "pin"@);
    assert(name.len() != "minimized"@.len());
    assert(name != "minimized"@);
    assert(name.len() != "activelayout"@.len());
    assert(name != "activelayout"@);
    assert(name.len() != "openlayer"@.len());
    assert(name != "openlayer"@);
    assert(name.len() != "closelayer"@.len());
    assert(name != "closelayer"@);
    assert(name.len() != "submap"@.len());
    assert(name != "submap"@);
    assert(name.len() != "screencast"@.len());
    assert(name != "screencast"@);
    assert(name.len() != "screencastv2"@.len());
    assert(name != "screencastv2"@);
    assert(name.len() != "togglegroup"@.len());
    assert(name != "togglegroup"@);
    let data = a;
    assert(name + seq!['>', '>'] + a =~= name + seq!['>', '>'] + data);
    lemma_line(name, data);
    lemma_parts1(a);
}

/// A `moveoutofgroup` line gives the window's address, taken from the fields of its data in
/// this order.
pub proof fn law_moveoutofgroup_fields(a: Seq<char>)
    requires
        lacks(a, ','),
        a.len() > 0,
    ensures
        parse_event("moveoutofgroup"@ + seq!['>', '>'] + a) == ok_event(HyprEventView::MoveOutOfGroup { window_address: a }),
{
    reveal_strlit("workspace");
    reveal_strlit("workspacev2");
    reveal_strlit("createworkspace");
    reveal_strlit("createworkspacev2");
    reveal_strlit("destroyworkspace");
    reveal_strlit("destroyworkspacev2");
    reveal_strlit("moveworkspace");
    reveal_strlit("moveworkspacev2");
    reveal_strlit("renameworkspace");
    reveal_strlit("activespecial");
    reveal_strlit("activespecialv2");
    reveal_strlit("focusedmon");
    reveal_strlit("focusedmonv2");
    reveal_strlit("monitorremoved");
    reveal_strlit("monitorremovedv2");
    reveal_strlit("monitoradded");
    reveal_strlit("monitoraddedv2");
    reveal_strlit("activewindow");
    reveal_strlit("activewindowv2");
    reveal_strlit("fullscreen");
    reveal_strlit("openwindow");
    reveal_strlit("closewindow");
    reveal_strlit("kill");
    reveal_strlit("movewindow");
    reveal_strlit("movewindowv2");
    reveal_strlit("changefloatingmode");
    reveal_strlit("urgent");
    reveal_strlit("windowtitle");
    reveal_strlit("windowtitlev2");
    reveal_strlit("pin");
    reveal_strlit("minimized");
    reveal_strlit("activelayout");
    reveal_strlit("openlayer");
    reveal_strlit("closelayer");
    reveal_strlit("submap");
    reveal_strlit("screencast");
    reveal_strlit("screencastv2");
    reveal_strlit("togglegroup");
    reveal_strlit("moveintogroup");
    reveal_strlit("moveoutofgroup");
    let name = "moveoutofgroup"@;
    assert(name.len() != "workspace"@.len());
    assert(name != "workspace"@);
    assert(name.len() != "workspacev2"@.len());
    assert(name != "workspacev2"@);
    assert(name.len() != "createworkspace"@.len());
    assert(name != "createworkspace"@);
    assert(name.len() != "createworkspacev2"@.len());
    assert(name != "createworkspacev2"@);
    assert(name.len() != "destroyworkspace"@.len());
    assert(name != "destroyworkspace"@);
    assert(name.len() != "destroyworkspacev2"@.len());
    assert(name != "destroyworkspacev2"@);
    assert(name.len() != "moveworkspace"@.len());
    assert(name != "moveworkspace"@);
    assert(name.len() != "moveworkspacev2"@.len());
    assert(name != "moveworkspacev2"@);
    assert(name.len() != "renameworkspace"@.len());
    assert(name != "renameworkspace"@);
    assert(name.len() != "activespecial"@.len());
    assert(name != "activespecial"@);
    assert(name.len() != "activespecialv2"@.len());
    assert(name != "activespecialv2"@);
    assert(name.len() != "focusedmon"@.len());
    assert(name != "focusedmon"@);
    assert(name.len() != "focusedmonv2"@.len());
    assert(name != "focusedmonv2"@);
    assert(name[2] != "monitorremoved"@[2]);
    assert(name != "monitorremoved"@);
    assert(name.len() != "monitorremovedv2"@.len());
    assert(name != "monitorremovedv2"@);
    assert(name.len() != "monitoradded"@.len());
    assert(name != "monitoradded"@);
    assert(name[2] != "monitoraddedv2"@[2]);
    assert(name != "monitoraddedv2"@);
    assert(name.len() != "activewindow"@.len());
    assert(name != "activewindow"@);
    assert(name[0] != "activewindowv2"@[0]);
    assert(name != "activewindowv2"@);
    assert(name.len() != "fullscreen"@.len());
    assert(name != "fullscreen"@);
    assert(name.len() != "openwindow"@.len());
    assert(name != "openwindow"@);
    assert(name.len() != "closewindow"@.len());
    assert(name != "closewindow"@);
    assert(name.len() != "kill"@.len());
    assert(name != "kill"@);
    assert(name.len() != "movewindow"@.len());
    assert(name != "movewindow"@);
    assert(name.len() != "movewindowv2"@.len());
    assert(name != "movewindowv2"@);
    assert(name.len() != "changefloatingmode"@.len());
    assert(name != "changefloatingmode"@);
    assert(name.len() != "urgent"@.len());
    assert(name != "urgent"@);
    assert(name.len() != "windowtitle"@.len());
    assert(name != "windowtitle"@);
    assert(name.len() != "windowtitlev2"@.len());
    assert(name != "windowtitlev2"@);
    assert(name.len() != "pin"@.len());
    assert(name != "pin"@);
    assert(name.len() != "minimized"@.len());
    assert(name != "minimized"@);
    assert(name.len() != "activelayout"@.len());
    assert(name != "activelayout"@);
    assert(name.len() != "openlayer"@.len());
    assert(name != "openlayer"@);
    assert(name.len() != "closelayer"@.len());
    assert(name != "closelayer"@);
    assert(name.len() != "submap"@.len());
    assert(name != "submap"@);
    assert(name.len() != "screencast"@.len());
    assert(name != "screencast"@);
    assert(name.len() != "screencastv2"@.len());
    assert(name != "screencastv2"@);
    assert(name.len() != "togglegroup"@.len());
    assert(name != "togglegroup"@);
    assert(name.len() != "moveintogroup"@.len());
    assert(name != "moveintogroup"@);
    let data = a;
    assert(name + seq!['>', '>'] + a =~= name + seq!['>', '>'] + data);
    lemma_line(name, data);
    lemma_parts1(a);
}

/// A `ignoregrouplock` line gives whether the group lock is ignored, taken from the fields of its data in
/// this order.
pub proof fn law_ignoregrouplock_fields(a: Seq<char>)
    requires
        lacks(a, ','),
        a.len() > 0,
        a == "0"@ || a == "1"@,
    ensures
        parse_event("ignoregrouplock"@ + seq!['>', '>'] + a) == ok_event(HyprEventView::IgnoreGroupLock { state: (a == "1"@) }),
{
    reveal_strlit("workspace");
    reveal_strlit("workspacev2");
    reveal_strlit("createworkspace");
    reveal_strlit("createworkspacev2");
    reveal_strlit("destroyworkspace");
    reveal_strlit("destroyworkspacev2");
    reveal_strlit("moveworkspace");
    reveal_strlit("moveworkspacev2");
    reveal_strlit("renameworkspace");
    reveal_strlit("activespecial");
    reveal_strlit("activespecialv2");
    reveal_strlit("focusedmon");
    reveal_strlit("focusedmonv2");
    reveal_strlit("monitorremoved");
    reveal_strlit("monitorremovedv2");
    reveal_strlit("monitoradded");
    reveal_strlit("monitoraddedv2");
    reveal_strlit("activewindow");
    reveal_strlit("activewindowv2");
    reveal_strlit("fullscreen");
    reveal_strlit("openwindow");
    reveal_strlit("closewindow");
    reveal_strlit("kill");
    reveal_strlit("movewindow");
    reveal_strlit("movewindowv2");
    reveal_strlit("changefloatingmode");
    reveal_strlit("urgent");
    reveal_strlit("windowtitle");
    reveal_strlit("windowtitlev2");
    reveal_strlit("pin");
    reveal_strlit("minimized");
    reveal_strlit("activelayout");
    reveal_strlit("openlayer");
    reveal_strlit("closelayer");
    reveal_strlit("submap");
    reveal_strlit("screencast");
    reveal_strlit("screencastv2");
    reveal_strlit("togglegroup");
    reveal_strlit("moveintogroup");
    reveal_strlit("moveoutofgroup");
    reveal_strlit("ignoregrouplock");
    reveal_strlit("0");
    reveal_strlit("1");
    let name = "ignoregrouplock"@;
    assert(name.len() != "workspace"@.len());
    assert(name != "workspace"@);
    assert(name.len() != "workspacev2"@.len());
    assert(name != "workspacev2"@);
    assert(name[0] != "createworkspace"@[0]);
    assert(name != "createworkspace"@);
    assert(name.len() != "createworkspacev2"@.len());
    assert(name != "createworkspacev2"@);
    assert(name.len() != "destroyworkspace"@.len());
    assert(name != "destroyworkspace"@);
    assert(name.len() != "destroyworkspacev2"@.len());
    assert(name != "destroyworkspacev2"@);
    assert(name.len() != "moveworkspace"@.len());
    assert(name != "moveworkspace"@);
    assert(name[0] != "moveworkspacev2"@[0]);
    assert(name != "moveworkspacev2"@);
    assert(name[0] != "renameworkspace"@[0]);
    assert(name != "renameworkspace"@);
    assert(name.len() != "activespecial"@.len());
    assert(name != "activespecial"@);
    assert(name[0] != "activespecialv2"@[0]);
    assert(name != "activespecialv2"@);
    assert(name.len() != "focusedmon"@.len());
    assert(name != "focusedmon"@);
    assert(name.len() != "focusedmonv2"@.len());
    assert(name != "focusedmonv2"@);
    assert(name.len() != "monitorremoved"@.len());
    assert(name != "monitorremoved"@);
    assert(name.len() != "monitorremovedv2"@.len());
    assert(name != "monitorremovedv2"@);
    assert(name.len() != "monitoradded"@.len());
    assert(name != "monitoradded"@);
    assert(name.len() != "monitoraddedv2"@.len());
    assert(name != "monitoraddedv2"@);
    assert(name.len() != "activewindow"@.len());
    assert(name != "activewindow"@);
    assert(name.len() != "activewindowv2"@.len());
    assert(name != "activewindowv2"@);
    assert(name.len() != "fullscreen"@.len());
    assert(name != "fullscreen"@);
    assert(name.len() != "openwindow"@.len());
    assert(name != "openwindow"@);
    assert(name.len() != "closewindow"@.len());
    assert(name != "closewindow"@);
    assert(name.len() != "kill"@.len());
    assert(name != "kill"@);
    assert(name.len() != "movewindow"@.len());
    assert(name != "movewindow"@);
    assert(name.len() != "movewindowv2"@.len());
    assert(name != "movewindowv2"@);
    assert(name.len() != "changefloatingmode"@.len());
    assert(name != "changefloatingmode"@);
    assert(name.len() != "urgent"@.len());
    assert(name != "urgent"@);
    assert(name.len() != "windowtitle"@.len());
    assert(name != "windowtitle"@);
    assert(name.len() != "windowtitlev2"@.len());
    assert(name != "windowtitlev2"@);
    assert(name.len() != "pin"@.len());
    assert(name != "pin"@);
    assert(name.len() != "minimized"@.len());
    assert(name != "minimized"@);
    assert(name.len() != "activelayout"@.len());
    assert(name != "activelayout"@);
    assert(name.len() != "openlayer"@.len());
    assert(name != "openlayer"@);
    assert(name.len() != "closelayer"@.len());
    assert(name != "closelayer"@);
    assert(name.len() != "submap"@.len());
    assert(name != "submap"@);
    assert(name.len() != "screencast"@.len());
    assert(name != "screencast"@);
    assert(name.len() != "screencastv2"@.len());
    assert(name != "screencastv2"@);
    assert(name.len() != "togglegroup"@.len());
    assert(name != "togglegroup"@);
    assert(name.len() != "moveintogroup"@.len());
    assert(name != "moveintogroup"@);
    assert(name.len() != "moveoutofgroup"@.len());
    assert(name != "moveoutofgroup"@);
    let data = a;
    assert(name + seq!['>', '>'] + a =~= name + seq!['>', '>'] + data);
    lemma_line(name, data);
    lemma_parts1(a);
}

/// A `lockgroups` line gives whether groups are locked, taken from the fields of its data in
/// this order.
pub proof fn law_lockgroups_fields(a: Seq<char>)
    requires
        lacks(a, ','),
        a.len() > 0,
        a == "0"@ || a == "1"@,
    ensures
        parse_event("lockgroups"@ + seq!['>', '>'] + a) == ok_event(HyprEventView::LockGroups { state: (a == "1"@) }),
{
    reveal_strlit("workspace");
    reveal_strlit("workspacev2");
    reveal_strlit("createworkspace");
    reveal_strlit("createworkspacev2");
    reveal_strlit("destroyworkspace");
    reveal_strlit("destroyworkspacev2");
    reveal_strlit("moveworkspace");
    reveal_strlit("moveworkspacev2");
    reveal_strlit("renameworkspace");
    reveal_strlit("activespecial");
    reveal_strlit("activespecialv2");
    reveal_strlit("focusedmon");
    reveal_strlit("focusedmonv2");
    reveal_strlit("monitorremoved");
    reveal_strlit("monitorremovedv2");
    reveal_strlit("monitoradded");
    reveal_strlit("monitoraddedv2");
    reveal_strlit("activewindow");
    reveal_strlit("activewindowv2");
    reveal_strlit("fullscreen");
    reveal_strlit("openwindow");
    reveal_strlit("closewindow");
    reveal_strlit("kill");
    reveal_strlit("movewindow");
    reveal_strlit("movewindowv2");
    reveal_strlit("changefloatingmode");
    reveal_strlit("urgent");
    reveal_strlit("windowtitle");
    reveal_strlit("windowtitlev2");
    reveal_strlit("pin");
    reveal_strlit("minimized");
    reveal_strlit("activelayout");
    reveal_strlit("openlayer");
    reveal_strlit("closelayer");
    reveal_strlit("submap");
    reveal_strlit("screencast");
    reveal_strlit("screencastv2");
    reveal_strlit("togglegroup");
    reveal_strlit("moveintogroup");
    reveal_strlit("moveoutofgroup");
    reveal_strlit("ignoregrouplock");
    reveal_strlit("lockgroups");
    reveal_strlit("0");
    reveal_strlit("1");
    let name = "lockgroups"@;
    assert(name.len() != "workspace"@.len());
    assert(name != "workspace"@);
    assert(name.len() != "workspacev2"@.len());
    assert(name != "workspacev2"@);
    assert(name.len() != "createworkspace"@.len());
    assert(name != "createworkspace"@);
    assert(name.len() != "createworkspacev2"@.len());
    assert(name != "createworkspacev2"@);
    assert(name.len() != "destroyworkspace"@.len());
    assert(name != "destroyworkspace"@);
    assert(name.len() != "destroyworkspacev2"@.len());
    assert(name != "destroyworkspacev2"@);
    assert(name.len() != "moveworkspace"@.len());
    assert(name != "moveworkspace"@);
    assert(name.len() != "moveworkspacev2"@.len());
    assert(name != "moveworkspacev2"@);
    assert(name.len() != "renameworkspace"@.len());
    assert(name != "renameworkspace"@);
    assert(name.len() != "activespecial"@.len());
    assert(name != "activespecial"@);
    assert(name.len() != "activespecialv2"@.len());
    assert(name != "activespecialv2"@);
    assert(name[0] != "focusedmon"@[0]);
    assert(name != "focusedmon"@);
    assert(name.len() != "focusedmonv2"@.len());
    assert(name != "focusedmonv2"@);
    assert(name.len() != "monitorremoved"@.len());
    assert(name != "monitorremoved"@);
    assert(name.len() != "monitorremovedv2"@.len());
    assert(name != "monitorremovedv2"@);
    assert(name.len() != "monitoradded"@.len());
    assert(name != "monitoradded"@);
    assert(name.len() != "monitoraddedv2"@.len());
    assert(name != "monitoraddedv2"@);
    assert(name.len() != "activewindow"@.len());
    assert(name != "activewindow"@);
    assert(name.len() != "activewindowv2"@.len());
    assert(name != "activewindowv2"@);
    assert(name[0] != "fullscreen"@[0]);
    assert(name != "fullscreen"@);
    assert(name[0] != "openwindow"@[0]);
    assert(name != "openwindow"@);
    assert(name.len() != "closewindow"@.len());
    assert(name != "closewindow"@);
    assert(name.len() != "kill"@.len());
    assert(name != "kill"@);
    assert(name[0] != "movewindow"@[0]);
    assert(name != "movewindow"@);
    assert(name.len() != "movewindowv2"@.len());
    assert(name != "movewindowv2"@);
    assert(name.len() != "changefloatingmode"@.len());
    assert(name != "changefloatingmode"@);
    assert(name.len() != "urgent"@.len());
    assert(name != "urgent"@);
    assert(name.len() != "windowtitle"@.len());
    assert(name != "windowtitle"@);
    assert(name.len() != "windowtitlev2"@.len());
    assert(name != "windowtitlev2"@);
    assert(name.len() != "pin"@.len());
    assert(name != "pin"@);
    assert(name.len() != "minimized"@.len());
    assert(name != "minimized"@);
    assert(name.len() != "activelayout"@.len());
    assert(name != "activelayout"@);
    assert(name.len() != "openlayer"@.len());
    assert(name != "openlayer"@);
    assert(name[0] != "closelayer"@[0]);
    assert(name != "closelayer"@);
    assert(name.len() != "submap"@.len());
    assert(name != "submap"@);
    assert(name[0] != "screencast"@[0]);
    assert(name != "screencast"@);
    assert(name.len() != "screencastv2"@.len());
    assert(name != "screencastv2"@);
    assert(name.len() != "togglegroup"@.len());
    assert(name != "togglegroup"@);
    assert(name.len() != "moveintogroup"@.len());
    assert(name != "moveintogroup"@);
    assert(name.len() != "moveoutofgroup"@.len());
    assert(name != "moveoutofgroup"@);
    assert(name.len() != "ignoregrouplock"@.len());
    assert(name != "ignoregrouplock"@);
    let data = a;
    assert(name + seq!['>', '>'] + a =~= name + seq!['>', '>'] + data);
    lemma_line(name, data);
    lemma_parts1(a);
}

/// A `configreloaded` line gives the reload, whatever the data, taken from the fields of its data in
/// this order.
pub proof fn law_configreloaded_fields(d: Seq<char>)
    ensures
        parse_event("configreloaded"@ + seq!['>', '>'] + d) == ok_event(HyprEventView::ConfigReloaded),
{
    reveal_strlit("workspace");
    reveal_strlit("workspacev2");
    reveal_strlit("createworkspace");
    reveal_strlit("createworkspacev2");
    reveal_strlit("destroyworkspace");
    reveal_strlit("destroyworkspacev2");
    reveal_strlit("moveworkspace");
    reveal_strlit("moveworkspacev2");
    reveal_strlit("renameworkspace");
    reveal_strlit("activespecial");
    reveal_strlit("activespecialv2");
    reveal_strlit("focusedmon");
    reveal_strlit("focusedmonv2");
    reveal_strlit("monitorremoved");
    reveal_strlit("monitorremovedv2");
    reveal_strlit("monitoradded");
    reveal_strlit("monitoraddedv2");
    reveal_strlit("activewindow");
    reveal_strlit("activewindowv2");
    reveal_strlit("fullscreen");
    reveal_strlit("openwindow");
    reveal_strlit("closewindow");
    reveal_strlit("kill");
    reveal_strlit("movewindow");
    reveal_strlit("movewindowv2");
    reveal_strlit("changefloatingmode");
    reveal_strlit("urgent");
    reveal_strlit("windowtitle");
    reveal_strlit("windowtitlev2");
    reveal_strlit("pin");
    reveal_strlit("minimized");
    reveal_strlit("activelayout");
    reveal_strlit("openlayer");
    reveal_strlit("closelayer");
    reveal_strlit("submap");
    reveal_strlit("screencast");
    reveal_strlit("screencastv2");
    reveal_strlit("togglegroup");
    reveal_strlit("moveintogroup");
    reveal_strlit("moveoutofgroup");
    reveal_strlit("ignoregrouplock");
    reveal_strlit("lockgroups");
    reveal_strlit("configreloaded");
    let name = "configreloaded"@;
    assert(name.len() != "workspace"@.len());
    assert(name != "workspace"@);
    assert(name.len() != "workspacev2"@.len());
    assert(name != "workspacev2"@);
    assert(name.len() != "createworkspace"@.len());
    assert(name != "createworkspace"@);
    assert(name.len() != "createworkspacev2"@.len());
    assert(name != "createworkspacev2"@);
    assert(name.len() != "destroyworkspace"@.len());
    assert(name != "destroyworkspace"@);
    assert(name.len() != "destroyworkspacev2"@.len());
    assert(name != "destroyworkspacev2"@);
    assert(name.len() != "moveworkspace"@.len());
    assert(name != "moveworkspace"@);
    assert(name.len() != "moveworkspacev2"@.len());
    assert(name != "moveworkspacev2"@);
    assert(name.len() != "renameworkspace"@.len());
    assert(name != "renameworkspace"@);
    assert(name.len() != "activespecial"@.len());
    assert(name != "activespecial"@);
    assert(name.len() != "activespecialv2"@.len());
    assert(name != "activespecialv2"@);
    assert(name.len() != "focusedmon"@.len());
    assert(name != "focusedmon"@);
    assert(name.len() != "focusedmonv2"@.len());
    assert(name != "focusedmonv2"@);
    assert(name[0] != "monitorremoved"@[0]);
    assert(name != "monitorremoved"@);
    assert(name.len() != "monitorremovedv2"@.len());
    assert(name != "monitorremovedv2"@);
    assert(name.len() != "monitoradded"@.len());
    assert(name != "monitoradded"@);
    assert(name[0] != "monitoraddedv2"@[0]);
    assert(name != "monitoraddedv2"@);
    assert(name.len() != "activewindow"@.len());
    assert(name != "activewindow"@);
    assert(name[0] != "activewindowv2"@[0]);
    assert(name != "activewindowv2"@);
    assert(name.len() != "fullscreen"@.len());
    assert(name != "fullscreen"@);
    assert(name.len() != "openwindow"@.len());
    assert(name != "openwindow"@);
    assert(name.len() != "closewindow"@.len());
    assert(name != "closewindow"@);
    assert(name.len() != "kill"@.len());
    assert(name != "kill"@);
    assert(name.len() != "movewindow"@.len());
    assert(name != "movewindow"@);
    assert(name.len() != "movewindowv2"@.len());
    assert(name != "movewindowv2"@);
    assert(name.len() != "changefloatingmode"@.len());
    assert(name != "changefloatingmode"@);
    assert(name.len() != "urgent"@.len());
    assert(name != "urgent"@);
    assert(name.len() != "windowtitle"@.len());
    assert(name != "windowtitle"@);
    assert(name.len() != "windowtitlev2"@.len());
    assert(name != "windowtitlev2"@);
    assert(name.len() != "pin"@.len());
    assert(name != "pin"@);
    assert(name.len() != "minimized"@.len());
    assert(name != "minimized"@);
    assert(name.len() != "activelayout"@.len());
    assert(name != "activelayout"@);
    assert(name.len() != "openlayer"@.len());
    assert(name != "openlayer"@);
    assert(name.len() != "closelayer"@.len());
    assert(name != "closelayer"@);
    assert(name.len() != "submap"@.len());
    assert(name != "submap"@);
    assert(name.len() != "screencast"@.len());
    assert(name != "screencast"@);
    assert(name.len() != "screencastv2"@.len());
    assert(name != "screencastv2"@);
    assert(name.len() != "togglegroup"@.len());
    assert(name != "togglegroup"@);
    assert(name.len() != "moveintogroup"@.len());
    assert(name != "moveintogroup"@);
    assert(name[0] != "moveoutofgroup"@[0]);
    assert(name != "moveoutofgroup"@);
    assert(name.len() != "ignoregrouplock"@.len());
    assert(name != "ignoregrouplock"@);
    assert(name.len() != "lockgroups"@.len());
    assert(name != "lockgroups"@);
    let data = d;
    assert(name + seq!['>', '>'] + d =~= name + seq!['>', '>'] + data);
    lemma_line(name, data);
}

/// A `bell` line gives the window's address, taken from the fields of its data in
/// this order.
pub proof fn law_bell_fields(a: Seq<char>)
    requires
        lacks(a, ','),
        a.len() > 0,
    ensures
        parse_event("bell"@ + seq!['>', '>'] + a) == ok_event(HyprEventView::Bell { window_address: a }),
{
    reveal_strlit("workspace");
    reveal_strlit("workspacev2");
    reveal_strlit("createworkspace");
    reveal_strlit("createworkspacev2");
    reveal_strlit("destroyworkspace");
    reveal_strlit("destroyworkspacev2");
    reveal_strlit("moveworkspace");
    reveal_strlit("moveworkspacev2");
    reveal_strlit("renameworkspace");
    reveal_strlit("activespecial");
    reveal_strlit("activespecialv2");
    reveal_strlit("focusedmon");
    reveal_strlit("focusedmonv2");
    reveal_strlit("monitorremoved");
    reveal_strlit("monitorremovedv2");
    reveal_strlit("monitoradded");
    reveal_strlit("monitoraddedv2");
    reveal_strlit("activewindow");
    reveal_strlit("activewindowv2");
    reveal_strlit("fullscreen");
    reveal_strlit("openwindow");
    reveal_strlit("closewindow");
    reveal_strlit("kill");
    reveal_strlit("movewindow");
    reveal_strlit("movewindowv2");
    reveal_strlit("changefloatingmode");
    reveal_strlit("urgent");
    reveal_strlit("windowtitle");
    reveal_strlit("windowtitlev2");
    reveal_strlit("pin");
    reveal_strlit("minimized");
    reveal_strlit("activelayout");
    reveal_strlit("openlayer");
    reveal_strlit("closelayer");
    reveal_strlit("submap");
    reveal_strlit("screencast");
    reveal_strlit("screencastv2");
    reveal_strlit("togglegroup");
    reveal_strlit("moveintogroup");
    reveal_strlit("moveoutofgroup");
    reveal_strlit("ignoregrouplock");
    reveal_strlit("lockgroups");
    reveal_strlit("configreloaded");
    reveal_strlit("bell");
    let name = "bell"@;
    assert(name.len() != "workspace"@.len());
    assert(name != "workspace"@);
    assert(name.len() != "workspacev2"@.len());
    assert(name != "workspacev2"@);
    assert(name.len() != "createworkspace"@.len());
    assert(name != "createworkspace"@);
    assert(name.len() != "createworkspacev2"@.len());
    assert(name != "createworkspacev2"@);
    assert(name.len() != "destroyworkspace"@.len());
    assert(name != "destroyworkspace"@);
    assert(name.len() != "destroyworkspacev2"@.len());
    assert(name != "destroyworkspacev2"@);
    assert(name.len() != "moveworkspace"@.len());
    assert(name != "moveworkspace"@);
    assert(name.len() != "moveworkspacev2"@.len());
    assert(name != "moveworkspacev2"@);
    assert(name.len() != "renameworkspace"@.len());
    assert(name != "renameworkspace"@);
    assert(name.len() != "activespecial"@.len());
    assert(name != "activespecial"@);
    assert(name.len() != "activespecialv2"@.len());
    assert(name != "activespecialv2"@);
    assert(name.len() != "focusedmon"@.len());
    assert(name != "focusedmon"@);
    assert(name.len() != "focusedmonv2"@.len());
    assert(name != "focusedmonv2"@);
    assert(name.len() != "monitorremoved"@.len());
    assert(name != "monitorremoved"@);
    assert(name.len() != "monitorremovedv2"@.len());
    assert(name != "monitorremovedv2"@);
    assert(name.len() != "monitoradded"@.len());
    assert(name != "monitoradded"@);
    assert(name.len() != "monitoraddedv2"@.len());
    assert(name != "monitoraddedv2"@);
    assert(name.len() != "activewindow"@.len());
    assert(name != "activewindow"@);
    assert(name.len() != "activewindowv2"@.len());
    assert(name != "activewindowv2"@);
    assert(name.len() != "fullscreen"@.len());
    assert(name != "fullscreen"@);
    assert(name.len() != "openwindow"@.len());
    assert(name != "openwindow"@);
    assert(name.len() != "closewindow"@.len());
    assert(name != "closewindow"@);
    assert(name[0] != "kill"@[0]);
    assert(name != "kill"@);
    assert(name.len() != "movewindow"@.len());
    assert(name != "movewindow"@);
    assert(name.len() != "movewindowv2"@.len());
    assert(name != "movewindowv2"@);
    assert(name.len() != "changefloatingmode"@.len());
    assert(name != "changefloatingmode"@);
    assert(name.len() != "urgent"@.len());
    assert(name != "urgent"@);
    assert(name.len() != "windowtitle"@.len());
    assert(name != "windowtitle"@);
    assert(name.len() != "windowtitlev2"@.len());
    assert(name != "windowtitlev2"@);
    assert(name.len() != "pin"@.len());
    assert(name != "pin"@);
    assert(name.len() != "minimized"@.len());
    assert(name != "minimized"@);
    assert(name.len() != "activelayout"@.len());
    assert(name != "activelayout"@);
    assert(name.len() != "openlayer"@.len());
    assert(name != "openlayer"@);
    assert(name.len() != "closelayer"@.len());
    assert(name != "closelayer"@);
    assert(name.len() != "submap"@.len());
    assert(name != "submap"@);
    assert(name.len() != "screencast"@.len());
    assert(name != "screencast"@);
    assert(name.len() != "screencastv2"@.len());
    assert(name != "screencastv2"@);
    assert(name.len() != "togglegroup"@.len());
    assert(name != "togglegroup"@);
    assert(name.len() != "moveintogroup"@.len());
    assert(name != "moveintogroup"@);
    assert(name.len() != "moveoutofgroup"@.len());
    assert(name != "moveoutofgroup"@);
    assert(name.len() != "ignoregrouplock"@.len());
    assert(name != "ignoregrouplock"@);
    assert(name.len() != "lockgroups"@.len());
    assert(name != "lockgroups"@);
    assert(name.len() != "configreloaded"@.len());
    assert(name != "configreloaded"@);
    let data = a;
    assert(name + seq!['>', '>'] + a =~= name + seq!['>', '>'] + data);
    lemma_line(name, data);
    lemma_parts1(a);
}


} // verus!
