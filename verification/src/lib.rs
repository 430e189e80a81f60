//! Protocol core of an EtherDream laser DAC emulator.
//!
//! The crate holds the parts of the emulator that are independent of sockets,
//! threads and windows: the wire formats, the point decoder, the bounded
//! two-stage point pipeline and the per-client session state machine. Every
//! function carries a contract that Verus proves; the byte-order primitives of
//! the `byteorder` crate are the only code taken on trust.

pub mod opts;
pub mod wire;
pub mod error;
pub mod protocol;
pub mod dac;
pub mod pipeline;
