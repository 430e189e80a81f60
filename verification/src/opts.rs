//! Runtime options of the emulator.

use vstd::prelude::*;

verus! {

/// Options that the program was started with.
#[derive(Clone, Copy, Debug, PartialEq, Eq, Structural)]
pub struct RuntimeOpts {
    /// Print debugging information, such as each message of the protocol.
    pub debug_protocol: bool,
    /// Do not open a window.
    pub headless: bool,
}

} // verus!
