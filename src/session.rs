//! Session-level selection state.
use vstd::prelude::*;

verus! {

/// The mixer strip that has focus: an instrument by its index, a bus by its
/// number (1 to 8), or the master bus.
#[derive(Debug, Clone, Copy, PartialEq, Eq, Structural)]
pub enum MixerSelection {
    Instrument(usize),
    Bus(u8),
    Master,
}

impl Default for MixerSelection {
    fn default() -> (r: MixerSelection)
        ensures
            r == MixerSelection::Instrument(0),
    {
        MixerSelection::Instrument(0)
    }
}

} // verus!
