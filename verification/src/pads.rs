//! Pin handles and the optional pad slots.
//!
//! A pin handle is produced by the pin-multiplexing subsystem (a
//! collaborator outside this crate) already restricted to one functional
//! pad of one SERCOM instance. Handles are move-only: once a pin is given
//! to a pad mapping it cannot serve a second purpose.

use vstd::prelude::*;

verus! {

/// A physical pin, already multiplexed onto functional pad `pad` of
/// SERCOM instance `sercom`. Pads are the block's four signal slots,
/// numbered 0 up to 3.
#[derive(Debug, PartialEq, Eq, Structural)]
pub struct Pin {
    /// The SERCOM instance this pin is wired to.
    pub sercom: u8,
    /// The functional pad the pin is multiplexed onto.
    pub pad: u8,
}

/// Stand-in for an absent pin in an optional pad slot.
#[derive(Debug, PartialEq, Eq, Structural)]
pub struct NoneT;

/// Value of the receiver-enable bit that a data-in slot asks for: 1 when
/// a pin occupies the slot, 0 when it is empty.
pub trait SPIMasterRXEN {
    /// The receiver-enable bit this slot asks for.
    spec fn rxen_spec() -> u8;

    /// Executable form of `rxen_spec`.
    fn rxen() -> (r: u8)
        ensures
            r == Self::rxen_spec(),
    ;
}

impl SPIMasterRXEN for NoneT {
    open spec fn rxen_spec() -> u8 {
        0
    }

    fn rxen() -> u8 {
        0
    }
}

impl SPIMasterRXEN for Pin {
    open spec fn rxen_spec() -> u8 {
        1
    }

    fn rxen() -> u8 {
        1
    }
}

/// Value of the hardware chip-select enable that a chip-select slot asks
/// for: 1 when a pin occupies the slot, 0 when chip select stays under
/// software control.
pub trait SPIMasterMSSEN {
    /// The chip-select enable this slot asks for.
    spec fn mssen_spec() -> u8;

    /// Executable form of `mssen_spec`.
    fn mssen() -> (r: u8)
        ensures
            r == Self::mssen_spec(),
    ;
}

impl SPIMasterMSSEN for NoneT {
    open spec fn mssen_spec() -> u8 {
        0
    }

    fn mssen() -> u8 {
        0
    }
}

impl SPIMasterMSSEN for Pin {
    open spec fn mssen_spec() -> u8 {
        1
    }

    fn mssen() -> u8 {
        1
    }
}

} // verus!
