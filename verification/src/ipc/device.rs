//! Hyprland's input devices, as `hyprctl devices` lists them.

use vstd::prelude::*;

verus! {

/// A keyboard.
pub struct Keyboard {
    pub name: String,
    /// Whether it is the main keyboard.
    pub main: bool,
    /// The keymap that it uses now.
    pub active_keymap: String,
}

/// The input devices.
pub struct Devices {
    pub keyboards: Vec<Keyboard>,
}

/// The active keymap of the first main keyboard, if there is one.
pub open spec fn main_keymap_of(keyboards: Seq<Keyboard>) -> Option<Seq<char>>
    decreases keyboards.len(),
{
    if keyboards.len() == 0 {
        None
    } else if keyboards[0].main {
        Some(keyboards[0].active_keymap@)
    } else {
        main_keymap_of(keyboards.drop_first())
    }
}

impl Devices {
    /// The active keymap of the first main keyboard: the layout that the
    /// panel shows at start.
    pub fn main_keymap(&self) -> (r: Option<String>)
        ensures
            match r {
                Some(k) => main_keymap_of(self.keyboards@) == Some(k@),
                None => main_keymap_of(self.keyboards@) is None,
            },
    {
        let mut i: usize = 0;
        assert(self.keyboards@.skip(0) =~= self.keyboards@);
        while i < self.keyboards.len()
            invariant
                i <= self.keyboards@.len(),
                main_keymap_of(self.keyboards@.skip(i as int)) == main_keymap_of(self.keyboards@),
            decreases self.keyboards@.len() - i,
        {
            assert(self.keyboards@.skip(i as int).drop_first() =~= self.keyboards@.skip(i + 1));
            if self.keyboards[i].main {
                return Some(self.keyboards[i].active_keymap.clone());
            }
            i += 1;
        }
        None
    }
}

} // verus!
