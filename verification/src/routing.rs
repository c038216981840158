//! The closed routing table: which pad assignments an SPI master may use,
//! and the data-in-offset / data-out-offset register field pair that
//! realizes each of them.
//!
//! The silicon supports exactly four (data-in, data-out, clock) pad
//! combinations without hardware chip select and two with it; every other
//! tuple is illegal and must never reach the registers. A pad mapping
//! value can therefore only be obtained from a constructor that matches
//! the tuple against the table.

use vstd::prelude::*;

use crate::pads::NoneT;
use crate::pads::Pin;
use crate::pads::SPIMasterMSSEN;
use crate::pads::SPIMasterRXEN;

verus! {

/// Whether (data-in on `miso`, data-out on `mosi`, clock on `sck`) is one
/// of the four routings the block supports without hardware chip select.
pub open spec fn duplex_legal(miso: u8, mosi: u8, sck: u8) -> bool {
    sck == 1 && ((miso == 0 && mosi == 3) || (miso == 2 && mosi == 0) || (miso == 2 && mosi == 3)
        || (miso == 3 && mosi == 0))
}

/// The (data-in-offset, data-out-offset) field pair for a legal routing
/// without hardware chip select.
pub open spec fn duplex_fields(miso: u8, mosi: u8, sck: u8) -> (u8, u8)
    recommends
        duplex_legal(miso, mosi, sck),
{
    if miso == 0 && mosi == 3 {
        (0u8, 2u8)
    } else if miso == 2 && mosi == 0 {
        (2u8, 0u8)
    } else if miso == 2 && mosi == 3 {
        (2u8, 2u8)
    } else {
        (3u8, 0u8)
    }
}

/// Whether (data-in on `miso`, data-out on `mosi`, clock on `sck`,
/// chip select on `cs`) is one of the two routings the block supports
/// with hardware chip select: the clock is fixed to pad 1 and the chip
/// select to pad 2.
pub open spec fn hwcs_legal(miso: u8, mosi: u8, sck: u8, cs: u8) -> bool {
    sck == 1 && cs == 2 && ((miso == 0 && mosi == 3) || (miso == 3 && mosi == 0))
}

/// The (data-in-offset, data-out-offset) field pair for a legal routing
/// with hardware chip select.
pub open spec fn hwcs_fields(miso: u8, mosi: u8, sck: u8, cs: u8) -> (u8, u8)
    recommends
        hwcs_legal(miso, mosi, sck, cs),
{
    if miso == 0 && mosi == 3 {
        (0u8, 2u8)
    } else {
        (3u8, 0u8)
    }
}

/// A pad mapping that knows the data-in-offset / data-out-offset field
/// pair programming it takes.
pub trait DipoDopo {
    /// The mapping was built through a legal conversion: all pins belong
    /// to one instance and the pad tuple stands in the routing table.
    spec fn wf(&self) -> bool;

    /// The register field pair of this mapping.
    spec fn dipo_dopo_spec(&self) -> (u8, u8);

    /// Both offsets of a legal mapping fit the two-bit register fields.
    proof fn lemma_dipo_dopo_in_range(&self)
        requires
            self.wf(),
        ensures
            self.dipo_dopo_spec().0 <= 3,
            self.dipo_dopo_spec().1 <= 3,
    ;

    /// Read the field pair out of the mapping.
    fn dipo_dopo(&self) -> (r: (u8, u8))
        requires
            self.wf(),
        ensures
            r == self.dipo_dopo_spec(),
    ;
}

/// A pad mapping usable by the SPI master: its pin roles, the instance
/// they belong to, and the way to dissolve it back into pins.
pub trait SPIMasterPadout: DipoDopo + Sized {
    /// The data-in slot; `NoneT` would mean a transmit-only mapping.
    type MISO: SPIMasterRXEN;

    /// The data-out slot.
    type MOSI;

    /// The clock slot.
    type SCK;

    /// The chip-select slot; `NoneT` means software-controlled chip
    /// select.
    type CS: SPIMasterMSSEN;

    /// The SERCOM instance every pin of this mapping belongs to.
    spec fn sercom_id_spec(&self) -> u8;

    /// The pins held, as `free` will hand them back.
    spec fn pins_spec(&self) -> (Self::MISO, Self::MOSI, Self::SCK, Self::CS);

    /// Dissolve the mapping and hand the pin handles back.
    fn free(self) -> (r: (Self::MISO, Self::MOSI, Self::SCK, Self::CS))
        ensures
            r == self.pins_spec(),
    ;
}

/// A legal full-duplex pad mapping without hardware chip select. The only
/// way to obtain one is `Padout::new`, which admits exactly the four
/// tuples of the routing table; holding a value is proof that a legal
/// routing was matched.
pub struct Padout {
    miso: Pin,
    mosi: Pin,
    sck: Pin,
}

impl Padout {
    /// The pin in the data-in role.
    pub closed spec fn miso_spec(&self) -> Pin {
        self.miso
    }

    /// The pin in the data-out role.
    pub closed spec fn mosi_spec(&self) -> Pin {
        self.mosi
    }

    /// The pin in the clock role.
    pub closed spec fn sck_spec(&self) -> Pin {
        self.sck
    }

    /// Match a pin tuple against the routing table. Accepts exactly the
    /// tuples whose pins all belong to one instance and whose pads form
    /// one of the four legal combinations; every other tuple is rejected.
    pub fn new(miso: Pin, mosi: Pin, sck: Pin) -> (r: Option<Padout>)
        ensures
            r is Some <==> (mosi.sercom == miso.sercom && sck.sercom == miso.sercom
                && duplex_legal(miso.pad, mosi.pad, sck.pad)),
            r matches Some(p) ==> p.miso_spec() == miso && p.mosi_spec() == mosi
                && p.sck_spec() == sck,
            r matches Some(p) ==> p.wf() && p.dipo_dopo_spec() == duplex_fields(
                miso.pad,
                mosi.pad,
                sck.pad,
            ),
    {
        let legal = mosi.sercom == miso.sercom && sck.sercom == miso.sercom && sck.pad == 1 && (
        (miso.pad == 0 && mosi.pad == 3) || (miso.pad == 2 && mosi.pad == 0) || (miso.pad == 2
            && mosi.pad == 3) || (miso.pad == 3 && mosi.pad == 0));
        if legal {
            Some(Padout { miso, mosi, sck })
        } else {
            None
        }
    }
}

impl DipoDopo for Padout {
    open spec fn wf(&self) -> bool {
        self.mosi_spec().sercom == self.miso_spec().sercom && self.sck_spec().sercom
            == self.miso_spec().sercom && duplex_legal(
            self.miso_spec().pad,
            self.mosi_spec().pad,
            self.sck_spec().pad,
        )
    }

    open spec fn dipo_dopo_spec(&self) -> (u8, u8) {
        duplex_fields(self.miso_spec().pad, self.mosi_spec().pad, self.sck_spec().pad)
    }

    proof fn lemma_dipo_dopo_in_range(&self) {
    }

    fn dipo_dopo(&self) -> (u8, u8) {
        if self.miso.pad == 0 && self.mosi.pad == 3 {
            (0, 2)
        } else if self.miso.pad == 2 && self.mosi.pad == 0 {
            (2, 0)
        } else if self.miso.pad == 2 && self.mosi.pad == 3 {
            (2, 2)
        } else {
            (3, 0)
        }
    }
}

impl SPIMasterPadout for Padout {
    type MISO = Pin;

    type MOSI = Pin;

    type SCK = Pin;

    type CS = NoneT;

    open spec fn sercom_id_spec(&self) -> u8 {
        self.miso_spec().sercom
    }

    open spec fn pins_spec(&self) -> (Pin, Pin, Pin, NoneT) {
        (self.miso_spec(), self.mosi_spec(), self.sck_spec(), NoneT)
    }

    fn free(self) -> (Pin, Pin, Pin, NoneT) {
        (self.miso, self.mosi, self.sck, NoneT)
    }
}

/// A legal full-duplex pad mapping with hardware-driven chip select. The
/// only way to obtain one is `HwcsPadout::new`, which admits exactly the
/// two tuples of the routing table.
pub struct HwcsPadout {
    miso: Pin,
    mosi: Pin,
    sck: Pin,
    cs: Pin,
}

impl HwcsPadout {
    /// The pin in the data-in role.
    pub closed spec fn miso_spec(&self) -> Pin {
        self.miso
    }

    /// The pin in the data-out role.
    pub closed spec fn mosi_spec(&self) -> Pin {
        self.mosi
    }

    /// The pin in the clock role.
    pub closed spec fn sck_spec(&self) -> Pin {
        self.sck
    }

    /// The pin in the chip-select role.
    pub closed spec fn cs_spec(&self) -> Pin {
        self.cs
    }

    /// Match a pin tuple against the routing table. Accepts exactly the
    /// tuples whose pins all belong to one instance, whose clock sits on
    /// pad 1 and chip select on pad 2, and whose data pads form one of
    /// the two legal combinations; every other tuple is rejected.
    pub fn new(miso: Pin, mosi: Pin, sck: Pin, cs: Pin) -> (r: Option<HwcsPadout>)
        ensures
            r is Some <==> (mosi.sercom == miso.sercom && sck.sercom == miso.sercom && cs.sercom
                == miso.sercom && hwcs_legal(miso.pad, mosi.pad, sck.pad, cs.pad)),
            r matches Some(p) ==> p.miso_spec() == miso && p.mosi_spec() == mosi && p.sck_spec()
                == sck && p.cs_spec() == cs,
            r matches Some(p) ==> p.wf() && p.dipo_dopo_spec() == hwcs_fields(
                miso.pad,
                mosi.pad,
                sck.pad,
                cs.pad,
            ),
    {
        let legal = mosi.sercom == miso.sercom && sck.sercom == miso.sercom && cs.sercom
            == miso.sercom && sck.pad == 1 && cs.pad == 2 && ((miso.pad == 0 && mosi.pad == 3) || (
        miso.pad == 3 && mosi.pad == 0));
        if legal {
            Some(HwcsPadout { miso, mosi, sck, cs })
        } else {
            None
        }
    }
}

impl DipoDopo for HwcsPadout {
    open spec fn wf(&self) -> bool {
        self.mosi_spec().sercom == self.miso_spec().sercom && self.sck_spec().sercom
            == self.miso_spec().sercom && self.cs_spec().sercom == self.miso_spec().sercom
            && hwcs_legal(
            self.miso_spec().pad,
            self.mosi_spec().pad,
            self.sck_spec().pad,
            self.cs_spec().pad,
        )
    }

    open spec fn dipo_dopo_spec(&self) -> (u8, u8) {
        hwcs_fields(self.miso_spec().pad, self.mosi_spec().pad, self.sck_spec().pad, self.cs_spec().pad)
    }

    proof fn lemma_dipo_dopo_in_range(&self) {
    }

    fn dipo_dopo(&self) -> (u8, u8) {
        if self.miso.pad == 0 && self.mosi.pad == 3 {
            (0, 2)
        } else {
            (3, 0)
        }
    }
}

impl SPIMasterPadout for HwcsPadout {
    type MISO = Pin;

    type MOSI = Pin;

    type SCK = Pin;

    type CS = Pin;

    open spec fn sercom_id_spec(&self) -> u8 {
        self.miso_spec().sercom
    }

    open spec fn pins_spec(&self) -> (Pin, Pin, Pin, Pin) {
        (self.miso_spec(), self.mosi_spec(), self.sck_spec(), self.cs_spec())
    }

    fn free(self) -> (Pin, Pin, Pin, Pin) {
        (self.miso, self.mosi, self.sck, self.cs)
    }
}

} // verus!
