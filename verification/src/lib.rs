//! Driver model for a SERCOM serial block operated as an SPI master.
//!
//! The crate covers the parts of the driver whose misbehaviour is silent on
//! real silicon: the closed table of legal pad routings, the baud-rate
//! derivation, the reset/configure/enable bring-up sequence with its
//! synchronization waits, and the polled full-duplex byte transfer protocol
//! with overrun detection. Registers are modelled field by field; the raw
//! volatile accessors of a concrete part are collaborators outside this
//! crate.

use vstd::prelude::*;

pub mod baud;
pub mod master;
pub mod pads;
pub mod regs;
pub mod routing;

verus! {

/// Receive-side failure reported by the transfer protocol.
#[derive(Debug, PartialEq, Eq, Structural)]
pub enum Error {
    /// The previous received byte was not read out before the next one
    /// arrived; data was lost. The condition is sticky and is reported,
    /// not cleared, by the transfer primitives.
    Overrun,
}

/// Why a non-suspending transfer poll returned without a result: a
/// definite error, or the normal would-block outcome that asks the
/// caller to poll again and is no failure at all.
#[derive(Debug, PartialEq, Eq, Structural)]
pub enum PollError {
    /// A definite transfer error.
    Other(Error),
    /// The operation would need to block to complete; poll again.
    WouldBlock,
}

} // verus!
