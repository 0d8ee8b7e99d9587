//! Settings of the panel's clock.

use vstd::prelude::*;

verus! {

/// Settings of the panel's clock.
pub struct ClockConfig {
    /// The `strftime` format of the time shown.
    pub format: String,
}

impl Default for ClockConfig {
    fn default() -> (r: Self)
        ensures
            r.format@ == Seq::<char>::empty(),
    {
        ClockConfig { format: String::new() }
    }
}

/// The format that a configuration file without one gets: hours and minutes.
pub fn default_format() -> (r: String)
    ensures
        r@ == "%H:%M"@,
{
    "%H:%M".to_owned()
}

} // verus!
