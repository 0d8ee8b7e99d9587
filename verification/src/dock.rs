//! The dock: the applications pinned to it.

use vstd::prelude::*;
use crate::launcher::entry::ApplicationEntry;
use crate::text::{char_vec, chars_same};

verus! {

broadcast use vstd::string::group_string_axioms;

/// Settings of the dock.
pub struct Config {
    /// The names of the applications pinned to the dock.
    pub apps: Vec<String>,
    /// Command that terminal applications are started with.
    pub terminal_cmd: Option<String>,
    /// Whether started applications leave the dock's session.
    pub detach: bool,
}

impl Config {
    /// The names of the pinned applications.
    pub open spec fn pinned(&self) -> Set<Seq<char>> {
        Set::new(|n: Seq<char>| exists|i: int| 0 <= i < self.apps@.len() && self.apps@[i]@ == n)
    }
}

impl Default for Config {
    fn default() -> (r: Self)
        ensures
            r.apps@.len() == 0,
            r.terminal_cmd is None,
            !r.detach,
    {
        Config { apps: Vec::new(), terminal_cmd: None, detach: false }
    }
}

/// Whether the name `name` is one of `names`.
pub fn contains_name(names: &Vec<String>, name: &str) -> (r: bool)
    ensures
        r == exists|i: int| 0 <= i < names@.len() && names@[i]@ == name@,
{
    let target = char_vec(name);
    let mut i: usize = 0;
    while i < names.len()
        invariant
            i <= names@.len(),
            target@ == name@,
            forall|k: int| 0 <= k < i ==> names@[k]@ != name@,
        decreases names@.len() - i,
    {
        let v = char_vec(names[i].as_str());
        if chars_same(&v, &target) {
            return true;
        }
        i += 1;
    }
    false
}

/// The entries of `entries` whose name is pinned, in their order.
pub open spec fn pinned_entries(entries: Seq<ApplicationEntry>, config: Config) -> Seq<ApplicationEntry> {
    entries.filter(|e: ApplicationEntry| config.pinned().contains(e.name@))
}

/// The applications shown in the dock: those found whose name is pinned.
pub fn populate_apps(entries: &Vec<ApplicationEntry>, config: &Config) -> (r: Vec<ApplicationEntry>)
    ensures
        r@ == pinned_entries(entries@, *config),
{
    let mut shown: Vec<ApplicationEntry> = Vec::new();
    let mut i: usize = 0;
    assert(entries@.take(0) =~= Seq::<ApplicationEntry>::empty());
    while i < entries.len()
        invariant
            i <= entries@.len(),
            shown@ == pinned_entries(entries@.take(i as int), *config),
        decreases entries@.len() - i,
    {
        let e = &entries[i];
        proof {
            reveal_with_fuel(Seq::<_>::filter, 1);
            assert(entries@.take(i + 1).drop_last() =~= entries@.take(i as int));
        }
        if contains_name(&config.apps, e.name.as_str()) {
            shown.push(e.clone());
        }
        i += 1;
    }
    assert(entries@.take(entries@.len() as int) =~= entries@);
    shown
}

} // verus!
