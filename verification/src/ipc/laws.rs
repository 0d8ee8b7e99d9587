//! What an event line of the IPC layer means, field by field: the fields of
//! the event are the comma-separated fields of its data, in the order that
//! the event declares them.

use vstd::prelude::*;
use crate::ipc::event::{ipc_event, HyprEventView, IpcEventErrorView};
use crate::text::{decimal_i32, find_double, lacks, lemma_find_double_after, lemma_split_all_after, split_all};

verus! {

/// A successful reading.
pub open spec fn ok_ipc_event(e: HyprEventView) -> Result<HyprEventView, IpcEventErrorView> {
    Ok(e)
}

/// A line is its name, `>>` and its data, when the name holds no `>`.
proof fn lemma_ipc_line(name: Seq<char>, data: Seq<char>)
    requires
        lacks(name, '>'),
    ensures
        find_double(name + seq!['>', '>'] + data, '>') == Some(name.len() as int),
        (name + seq!['>', '>'] + data).take(name.len() as int) == name,
        (name + seq!['>', '>'] + data).skip(name.len() as int + 2) == data,
{
    let s = name + seq!['>', '>'] + data;
    lemma_find_double_after(name, '>', data);
    assert(s.take(name.len() as int) =~= name);
    assert(s.skip(name.len() as int + 2) =~= data);
}

/// The first two fields of `a`, `b` and more fields are `a` and `b`.
proof fn lemma_first_two_fields(a: Seq<char>, b: Seq<char>, more: Seq<char>)
    requires
        lacks(a, ','),
        lacks(b, ','),
        more.len() == 0 || more[0] == ',',
    ensures
        split_all(a + seq![','] + b + more, ',').len() >= 2,
        split_all(a + seq![','] + b + more, ',')[0] == a,
        split_all(a + seq![','] + b + more, ',')[1] == b,
{
    let rest = b + more;
    assert(a + seq![','] + b + more =~= a + seq![','] + rest);
    lemma_split_all_after(a, ',', rest);
    if more.len() == 0 {
        assert(rest =~= b);
        lemma_split_all_after(b, ',', Seq::empty());
    } else {
        let tail = more.drop_first();
        assert(rest =~= b + seq![','] + tail);
        lemma_split_all_after(b, ',', tail);
    }
    assert(split_all(rest, ',')[0] == b);
    assert((seq![a] + split_all(rest, ','))[1] == split_all(rest, ',')[0]);
}

/// A `activelayout` line gives the keyboard's name, then the layout's name: the first two fields of its data, in
/// this order; further fields are ignored.
pub proof fn law_activelayout_fields(a: Seq<char>, b: Seq<char>, more: Seq<char>)
    requires
        lacks(a, ','),
        lacks(b, ','),
        more.len() == 0 || more[0] == ',',
    ensures
        ipc_event("activelayout"@ + seq!['>', '>'] + a + seq![','] + b + more) == ok_ipc_event(HyprEventView::ActiveLayout { keyboard_name: a, layout_name: b }),
{
    reveal_strlit("activelayout");
    let name = "activelayout"@;
    let data = a + seq![','] + b + more;
    assert(name + seq!['>', '>'] + a + seq![','] + b + more =~= name + seq!['>', '>'] + data);
    lemma_ipc_line(name, data);
    lemma_first_two_fields(a, b, more);
}

/// A `workspacev2` line gives the workspace's id, then its name: the first two fields of its data, in
/// this order; further fields are ignored.
pub proof fn law_workspacev2_fields(a: Seq<char>, b: Seq<char>, more: Seq<char>)
    requires
        lacks(a, ','),
        lacks(b, ','),
        more.len() == 0 || more[0] == ',',
        decimal_i32(a) is Some,
    ensures
        ipc_event("workspacev2"@ + seq!['>', '>'] + a + seq![','] + b + more) == ok_ipc_event(HyprEventView::WorkspaceV2 { id: decimal_i32(a).unwrap(), name: b }),
{
    reveal_strlit("activelayout");
    reveal_strlit("workspacev2");
    let name = "workspacev2"@;
    assert(name.len() != "activelayout"@.len());
    assert(name != "activelayout"@);
    let data = a + seq![','] + b + more;
    assert(name + seq!['>', '>'] + a + seq![','] + b + more =~= name + seq!['>', '>'] + data);
    lemma_ipc_line(name, data);
    lemma_first_two_fields(a, b, more);
}

/// A `focusedmonv2` line gives the monitor's connector, then the workspace's id: the first two fields of its data, in
/// this order; further fields are ignored.
pub proof fn law_focusedmonv2_fields(a: Seq<char>, b: Seq<char>, more: Seq<char>)
    requires
        lacks(a, ','),
        lacks(b, ','),
        more.len() == 0 || more[0] == ',',
        decimal_i32(b) is Some,
    ensures
        ipc_event("focusedmonv2"@ + seq!['>', '>'] + a + seq![','] + b + more) == ok_ipc_event(HyprEventView::FocusedMonV2 { monitor_connector: a, workspace_id: decimal_i32(b).unwrap() }),
{
    reveal_strlit("activelayout");
    reveal_strlit("workspacev2");
    reveal_strlit("focusedmonv2");
    let name = "focusedmonv2"@;
    assert(name[0] != "activelayout"@[0]);
    assert(name != "activelayout"@);
    assert(name.len() != "workspacev2"@.len());
    assert(name != "workspacev2"@);
    let data = a + seq![','] + b + more;
    assert(name + seq!['>', '>'] + a + seq![','] + b + more =~= name + seq!['>', '>'] + data);
    lemma_ipc_line(name, data);
    lemma_first_two_fields(a, b, more);
}

/// A `createworkspacev2` line gives the workspace's id, then its name: the first two fields of its data, in
/// this order; further fields are ignored.
pub proof fn law_createworkspacev2_fields(a: Seq<char>, b: Seq<char>, more: Seq<char>)
    requires
        lacks(a, ','),
        lacks(b, ','),
        more.len() == 0 || more[0] == ',',
        decimal_i32(a) is Some,
    ensures
        ipc_event("createworkspacev2"@ + seq!['>', '>'] + a + seq![','] + b + more) == ok_ipc_event(HyprEventView::CreateWorkspaceV2 { id: decimal_i32(a).unwrap(), name: b }),
{
    reveal_strlit("activelayout");
    reveal_strlit("workspacev2");
    reveal_strlit("focusedmonv2");
    reveal_strlit("createworkspacev2");
    let name = "createworkspacev2"@;
    assert(name.len() != "activelayout"@.len());
    assert(name != "activelayout"@);
    assert(name.len() != "workspacev2"@.len());
    assert(name != "workspacev2"@);
    assert(name.len() != "focusedmonv2"@.len());
    assert(name != "focusedmonv2"@);
    let data = a + seq![','] + b + more;
    assert(name + seq!['>', '>'] + a + seq![','] + b + more =~= name + seq!['>', '>'] + data);
    lemma_ipc_line(name, data);
    lemma_first_two_fields(a, b, more);
}

/// A `destroyworkspacev2` line gives the workspace's id, then its name: the first two fields of its data, in
/// this order; further fields are ignored.
pub proof fn law_destroyworkspacev2_fields(a: Seq<char>, b: Seq<char>, more: Seq<char>)
    requires
        lacks(a, ','),
        lacks(b, ','),
        more.len() == 0 || more[0] == ',',
        decimal_i32(a) is Some,
    ensures
        ipc_event("destroyworkspacev2"@ + seq!['>', '>'] + a + seq![','] + b + more) == ok_ipc_event(HyprEventView::DestroyWorkspaceV2 { id: decimal_i32(a).unwrap(), name: b }),
{
    reveal_strlit("activelayout");
    reveal_strlit("workspacev2");
    reveal_strlit("focusedmonv2");
    reveal_strlit("createworkspacev2");
    reveal_strlit("destroyworkspacev2");
    let name = "destroyworkspacev2"@;
    assert(name.len() != "activelayout"@.len());
    assert(name != "activelayout"@);
    assert(name.len() != "workspacev2"@.len());
    assert(name != "workspacev2"@);
    assert(name.len() != "focusedmonv2"@.len());
    assert(name != "focusedmonv2"@);
    assert(name.len() != "createworkspacev2"@.len());
    assert(name != "createworkspacev2"@);
    let data = a + seq![','] + b + more;
    assert(name + seq!['>', '>'] + a + seq![','] + b + more =~= name + seq!['>', '>'] + data);
    lemma_ipc_line(name, data);
    lemma_first_two_fields(a, b, more);
}


} // verus!
