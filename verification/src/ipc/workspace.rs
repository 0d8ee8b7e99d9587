//! Hyprland's workspaces, as `hyprctl workspaces` lists them.

use vstd::prelude::*;
use crate::text::{char_vec, chars_same};

verus! {

broadcast use vstd::string::group_string_axioms;

/// A workspace.
pub struct Workspace {
    pub id: i32,
    pub name: String,
    /// Monitors connector
    pub monitor: String,
    pub monitor_id: i32,
    pub windows: i32,
    pub has_fullscreen: bool,
    pub last_window: String,
    pub last_window_title: String,
    pub is_persistent: bool,
    pub tiled_layout: String,
}

impl Clone for Workspace {
    fn clone(&self) -> (r: Self)
        ensures
            r == *self,
    {
        Workspace {
            id: self.id,
            name: self.name.clone(),
            monitor: self.monitor.clone(),
            monitor_id: self.monitor_id,
            windows: self.windows,
            has_fullscreen: self.has_fullscreen,
            last_window: self.last_window.clone(),
            last_window_title: self.last_window_title.clone(),
            is_persistent: self.is_persistent,
            tiled_layout: self.tiled_layout.clone(),
        }
    }
}

/// The workspaces of `all` that are on the monitor with connector
/// `connector`, in their order.
pub open spec fn on_monitor(all: Seq<Workspace>, connector: Seq<char>) -> Seq<Workspace> {
    all.filter(|w: Workspace| w.monitor@ == connector)
}

/// Keeps the workspaces on the monitor with connector `connector`.
pub fn workspaces_on_monitor(all: &Vec<Workspace>, connector: &str) -> (r: Vec<Workspace>)
    ensures
        r@ == on_monitor(all@, connector@),
{
    let target = char_vec(connector);
    let mut kept: Vec<Workspace> = Vec::new();
    let mut i: usize = 0;
    assert(all@.take(0) =~= Seq::<Workspace>::empty());
    while i < all.len()
        invariant
            i <= all@.len(),
            target@ == connector@,
            kept@ == on_monitor(all@.take(i as int), connector@),
        decreases all@.len() - i,
    {
        let w = &all[i];
        proof {
            reveal_with_fuel(Seq::<_>::filter, 1);
            assert(all@.take(i + 1).drop_last() =~= all@.take(i as int));
        }
        let m = char_vec(w.monitor.as_str());
        if chars_same(&m, &target) {
            kept.push(w.clone());
        }
        i += 1;
    }
    assert(all@.take(all@.len() as int) =~= all@);
    kept
}

} // verus!
