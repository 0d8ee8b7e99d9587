//! The launcher's window: showing and hiding it, the keys it handles
//! itself, the titles of its pages and the counter of the items shown
//! beside the search bar.

use vstd::prelude::*;
use crate::launcher::selection::Key;
use crate::text::{
    char_vec, decimal, lowercase, push_decimal, string_of, to_lowercase, to_uppercase, uppercase,
};

verus! {

/// What the window does when its visibility is toggled.
#[derive(Debug, Clone, Copy, PartialEq, Eq, Structural)]
pub enum ToggleAction {
    /// The window is shown.
    Present,
    /// The window is hidden, and its query and selection are cleared.
    HideAndReset,
}

/// The visibility after a toggle, and what the window does for it: a hidden
/// window is shown; a shown one is hidden and reset.
pub fn toggle_visibility(visible: bool) -> (r: (bool, ToggleAction))
    ensures
        r.0 == !visible,
        r.1 == if visible { ToggleAction::HideAndReset } else { ToggleAction::Present },
{
    let target = !visible;
    if target {
        (target, ToggleAction::Present)
    } else {
        (target, ToggleAction::HideAndReset)
    }
}

/// The counter's label and whether it is visible, for `count` items shown:
/// the count in decimal, visible when there is at least one item.
pub fn counter_label(count: u64) -> (r: (String, bool))
    ensures
        r.0@ == decimal(count as nat),
        r.1 == (count > 0),
{
    let mut label = String::new();
    push_decimal(&mut label, count);
    assert(label@ =~= decimal(count as nat));
    (label, count > 0)
}


/// What the window does with a key press before the search bar sees it.
#[derive(Debug, Clone, Copy, PartialEq, Eq, Structural)]
pub enum RootKeyAction {
    /// The key is stopped and nothing else happens.
    Swallow,
    /// The item below the selected one is selected.
    SelectBelow,
    /// The selected item's action runs; the window is hidden when it ran.
    InvokeAction,
    /// The window's visibility is toggled.
    ToggleVisibility,
    /// The key goes on to the search bar.
    Proceed,
}

/// The window's own handling of a key: `Left` and `Tab` are stopped, `Down`
/// selects the item below, `Return` runs the selected item's action,
/// `Escape` toggles the window, and every other key goes on.
pub fn root_key_action(key: Key) -> (r: RootKeyAction)
    ensures
        r == match key {
            Key::Left | Key::Tab => RootKeyAction::Swallow,
            Key::Down => RootKeyAction::SelectBelow,
            Key::Return => RootKeyAction::InvokeAction,
            Key::Escape => RootKeyAction::ToggleVisibility,
            _ => RootKeyAction::Proceed,
        },
{
    match key {
        Key::Left => RootKeyAction::Swallow,
        Key::Down => RootKeyAction::SelectBelow,
        Key::Tab => RootKeyAction::Swallow,
        Key::Return => RootKeyAction::InvokeAction,
        Key::Escape => RootKeyAction::ToggleVisibility,
        _ => RootKeyAction::Proceed,
    }
}

/// `s` with its first character in upper case and the rest in lower case.
pub open spec fn capitalized(s: Seq<char>) -> Seq<char> {
    if s.len() == 0 {
        Seq::empty()
    } else {
        uppercase(s[0]) + lowercase(s.drop_first())
    }
}

/// The title of a provider's page: its name, capitalized.
pub fn capitalize_unicode(s: &str) -> (r: String)
    ensures
        r@ == capitalized(s@),
{
    let v = char_vec(s);
    if v.len() == 0 {
        return String::new();
    }
    let first = to_uppercase(v[0]);
    let rest = string_of(&v, 1, v.len());
    assert(rest@ =~= s@.drop_first());
    let lower = to_lowercase(rest.as_str());
    first.concat(lower.as_str())
}

} // verus!
