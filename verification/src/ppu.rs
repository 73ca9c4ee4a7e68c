//! The picture processing unit, as far as the processor's side of the
//! system needs it: a component that takes its turn on the bus.

use vstd::prelude::*;

verus! {

/// The picture processing unit. It keeps no state of its own yet; what it
/// shows it reads from the bus when the system lends it.
#[derive(Clone, Copy, Debug, PartialEq, Eq, Structural)]
pub struct PPU {}

impl PPU {
    pub fn new() -> (ppu: PPU)
        ensures
            ppu == (PPU {  }),
    {
        PPU {  }
    }
}

} // verus!
