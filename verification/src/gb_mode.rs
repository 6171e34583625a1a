use vstd::prelude::*;

verus! {

/// The hardware model a cartridge runs on.
#[derive(Debug, Clone, Copy, PartialEq, Eq, Structural)]
pub enum GbMode {
    Dmg,
    Cgb,
}

impl Default for GbMode {
    /// Gameboy Color is the default
    fn default() -> (r: GbMode)
        ensures
            r == GbMode::Cgb,
    {
        GbMode::Cgb
    }
}

} // verus!
