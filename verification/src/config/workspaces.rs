//! Settings of the panel's workspace indicator: the numerals it writes
//! workspace numbers in.

use vstd::prelude::*;

verus! {

/// The numeral system that workspace numbers are written in.
#[derive(Debug, Clone, Copy, PartialEq, Eq, Structural)]
pub enum NumeralSystem {
    Arabic,
    Japanese,
    Chinese,
    Roman,
    Egyptian,
    Rods,
}

impl Default for NumeralSystem {
    fn default() -> (r: Self)
        ensures
            r == NumeralSystem::Arabic,
    {
        NumeralSystem::Arabic
    }
}

/// The variant of the numeral system.
#[derive(Debug, Clone, Copy, PartialEq, Eq, Structural)]
pub enum NumeralVariant {
    Traditional,
    Financial,
    Alt,
    DigitOnly,
    ShortNotation,
    Alpha,
    OptionalFillZero,
    Hieratic,
    HorizontalRods,
}

impl Default for NumeralVariant {
    fn default() -> (r: Self)
        ensures
            r == NumeralVariant::Traditional,
    {
        NumeralVariant::Traditional
    }
}

/// Settings of the workspace indicator.
#[derive(Debug, Clone, Copy)]
pub struct WorkspacesConfig {
    pub numeral_system: NumeralSystem,
    pub numeral_variant: NumeralVariant,
}

impl Default for WorkspacesConfig {
    fn default() -> (r: Self)
        ensures
            r.numeral_system == NumeralSystem::Arabic,
            r.numeral_variant == NumeralVariant::Traditional,
    {
        WorkspacesConfig { numeral_system: NumeralSystem::default(), numeral_variant: NumeralVariant::default() }
    }
}

} // verus!
