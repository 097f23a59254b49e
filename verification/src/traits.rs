//! Shared vocabulary of the display drivers.
use vstd::prelude::*;

verus! {

/// Which waveform look-up table a refresh uses.
#[derive(Clone, Copy, Debug, PartialEq, Eq, Structural)]
pub enum RefreshLut {
    /// Full refresh: slow, but clears ghosting.
    Full,
    /// Quick refresh: faster, may leave ghosting.
    Quick,
}

/// A command of a display controller, sent as a one-byte address.
pub trait Command: Copy {
    /// The address byte of this command.
    spec fn spec_address(self) -> u8;

    /// Returns the address byte of this command.
    fn address(self) -> (a: u8)
        ensures
            a == self.spec_address(),
    ;
}

/// A raw address byte is a command too: the one with that address.
impl Command for u8 {
    open spec fn spec_address(self) -> u8 {
        self
    }

    fn address(self) -> (a: u8) {
        self
    }
}

} // verus!
