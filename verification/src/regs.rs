//! Field-level model of one SERCOM SPI register block, of the shared
//! bus-clock gate registers, and of the synchronization latency between a
//! control write and the moment it takes effect.
//!
//! The model is deliberately passive: a method changes exactly what the
//! documented write side effect changes. Flags that the peripheral raises
//! asynchronously (data register empty, receive complete, overrun) are
//! raised by the environment around the driver — on silicon by the wire,
//! in validation by a harness. Every control-path write is appended to an
//! event log so that sequencing rules (disable before reprogramming the
//! baud divider, re-enable after) are visible facts, not folklore.

use vstd::prelude::*;

verus! {

/// Clock polarity: level of the clock line while idle.
#[derive(Clone, Copy, Debug, PartialEq, Eq, Structural)]
pub enum Polarity {
    IdleLow,
    IdleHigh,
}

/// Clock phase: which clock edge samples the data line.
#[derive(Clone, Copy, Debug, PartialEq, Eq, Structural)]
pub enum Phase {
    CaptureOnFirstTransition,
    CaptureOnSecondTransition,
}

/// SPI transfer mode: polarity and phase. Programmed once at bring-up
/// and left in place across baud-rate changes, which re-applies it
/// implicitly.
#[derive(Clone, Copy, Debug, PartialEq, Eq, Structural)]
pub struct Mode {
    pub polarity: Polarity,
    pub phase: Phase,
}

/// One control-path register write, as the log records it.
#[derive(Clone, Copy, Debug, PartialEq, Eq, Structural)]
pub enum CtrlEvent {
    /// Software reset was issued.
    ResetIssued,
    /// The mode field was set to master operation.
    MasterModeSelected,
    /// Character size and receiver enable were programmed.
    FrameConfigured,
    /// The baud register was written with the given value.
    BaudWritten(u8),
    /// Polarity, phase, pad offsets and bit order were programmed.
    ShapeConfigured,
    /// The enable bit was written with the given value.
    EnableWritten(bool),
}

/// Control register A: reset, mode select, clock shape, pad routing
/// offsets, bit order and the enable bit.
#[derive(Clone, Copy, Debug, PartialEq, Eq, Structural)]
pub struct Ctrla {
    /// Instance enable bit.
    pub enable: bool,
    /// Mode-select field holds the master-operation value.
    pub master: bool,
    /// Clock polarity bit: set means idle-high.
    pub cpol: bool,
    /// Clock phase bit: set means capture on the second transition.
    pub cpha: bool,
    /// Data-in pad offset field, two bits wide.
    pub dipo: u8,
    /// Data-out pad offset field, two bits wide.
    pub dopo: u8,
    /// Bit-order bit: cleared means most-significant bit first.
    pub lsb_first: bool,
}

/// Control register B: character size and receiver enable.
#[derive(Clone, Copy, Debug, PartialEq, Eq, Structural)]
pub struct Ctrlb {
    /// Character-size field; 0 selects 8-bit transfers.
    pub chsize: u8,
    /// Receiver-enable bit.
    pub rxen: bool,
}

/// Every register field of one SPI block, plus the two synchronization
/// countdowns that stand for the in-flight status of a reset or enable
/// write. A countdown above zero is the synchronization-busy flag held
/// high; each poll of the flag lets one unit of hardware time pass.
#[derive(Clone, Copy, Debug, PartialEq, Eq, Structural)]
pub struct Regs {
    pub ctrla: Ctrla,
    pub ctrlb: Ctrlb,
    /// Baud register, 8 bits.
    pub baud: u8,
    /// Status register overrun-condition bit; sticky, read-only here.
    pub bufovf: bool,
    /// Interrupt flag: data register empty.
    pub dre: bool,
    /// Interrupt flag: receive complete.
    pub rxc: bool,
    /// Data register, 8 bits; shared by transmit and receive.
    pub data: u8,
    /// Remaining polls until the reset write has taken effect.
    pub swrst_sync: u32,
    /// Remaining polls until the last enable write has taken effect.
    pub enable_sync: u32,
}

impl Regs {
    /// Register values right after a software reset, with the reset
    /// synchronization still `latency` polls from settling.
    pub open spec fn reset_state(latency: u32) -> Regs {
        Regs {
            ctrla: Ctrla {
                enable: false,
                master: false,
                cpol: false,
                cpha: false,
                dipo: 0,
                dopo: 0,
                lsb_first: false,
            },
            ctrlb: Ctrlb { chsize: 0, rxen: false },
            baud: 0,
            bufovf: false,
            dre: false,
            rxc: false,
            data: 0,
            swrst_sync: latency,
            enable_sync: 0,
        }
    }

    /// Build the post-reset register values, with the reset
    /// synchronization `latency` polls from settling.
    pub fn reset(latency: u32) -> (r: Regs)
        ensures
            r == Regs::reset_state(latency),
    {
        Regs {
            ctrla: Ctrla {
                enable: false,
                master: false,
                cpol: false,
                cpha: false,
                dipo: 0,
                dopo: 0,
                lsb_first: false,
            },
            ctrlb: Ctrlb { chsize: 0, rxen: false },
            baud: 0,
            bufovf: false,
            dre: false,
            rxc: false,
            data: 0,
            swrst_sync: latency,
            enable_sync: 0,
        }
    }

    /// These registers with the reset countdown replaced.
    pub open spec fn with_swrst_sync(self, n: u32) -> Regs {
        Regs { swrst_sync: n, ..self }
    }

    /// These registers with the enable countdown replaced.
    pub open spec fn with_enable_sync(self, n: u32) -> Regs {
        Regs { enable_sync: n, ..self }
    }

    /// Effect of selecting master operation in control register A.
    pub open spec fn with_master_mode(self) -> Regs {
        Regs { ctrla: Ctrla { master: true, ..self.ctrla }, ..self }
    }

    /// Effect of programming 8-bit characters and the receiver-enable bit.
    pub open spec fn with_frame(self, rxen: bool) -> Regs {
        Regs { ctrlb: Ctrlb { chsize: 0, rxen }, ..self }
    }

    /// Effect of writing the baud register.
    pub open spec fn with_baud(self, b: u8) -> Regs {
        Regs { baud: b, ..self }
    }

    /// Effect of programming polarity, phase, the two pad offsets and
    /// most-significant-bit-first order.
    pub open spec fn with_shape(self, mode: Mode, dipo: u8, dopo: u8) -> Regs {
        Regs {
            ctrla: Ctrla {
                cpol: mode.polarity is IdleHigh,
                cpha: mode.phase is CaptureOnSecondTransition,
                dipo,
                dopo,
                lsb_first: false,
                ..self.ctrla
            },
            ..self
        }
    }

    /// Effect of writing the enable bit.
    pub open spec fn with_enable(self, on: bool) -> Regs {
        Regs { ctrla: Ctrla { enable: on, ..self.ctrla }, ..self }
    }

    /// Hardware side effect of reading the data register: the
    /// receive-complete flag clears.
    pub open spec fn after_data_read(self) -> Regs {
        Regs { rxc: false, ..self }
    }

    /// Hardware side effect of writing the data register: the byte sits in
    /// the register and data-register-empty clears until the transmitter
    /// has taken it.
    pub open spec fn after_data_write(self, byte: u8) -> Regs {
        Regs { data: byte, dre: false, ..self }
    }

    /// Environment action: the wire delivered `byte`; receive complete.
    pub open spec fn after_receive(self, byte: u8) -> Regs {
        Regs { data: byte, rxc: true, ..self }
    }

    /// Environment action: the transmitter took the pending byte.
    pub open spec fn after_transmitter_ready(self) -> Regs {
        Regs { dre: true, ..self }
    }

    /// Environment action: a byte arrived before the previous one was
    /// read out; the sticky overrun condition is raised.
    pub open spec fn after_overrun(self) -> Regs {
        Regs { bufovf: true, ..self }
    }
}

/// One SPI register block: its registers, the latency (in polls) that
/// every synchronized write takes to settle, and the log of control-path
/// writes performed on it.
pub struct Spim {
    /// How many polls a reset or enable write needs before its
    /// synchronization-busy flag clears. A property of the silicon and of
    /// the clock setup; constant for the life of the block.
    pub sync_latency: u32,
    /// The register fields.
    pub regs: Regs,
    /// Control-path writes, oldest first.
    pub log: Vec<CtrlEvent>,
}

impl Spim {
    /// A power-on register block that settles synchronized writes after
    /// `sync_latency` polls.
    pub fn new(sync_latency: u32) -> (r: Spim)
        ensures
            r.sync_latency == sync_latency,
            r.regs == Regs::reset_state(0),
            r.log@ == Seq::<CtrlEvent>::empty(),
    {
        Spim { sync_latency, regs: Regs::reset(0), log: Vec::new() }
    }

    /// Issue a software reset: every register returns to its reset value
    /// and the reset synchronization starts counting down.
    pub fn issue_swrst(&mut self)
        ensures
            final(self).regs == Regs::reset_state(old(self).sync_latency),
            final(self).log@ == old(self).log@.push(CtrlEvent::ResetIssued),
            final(self).sync_latency == old(self).sync_latency,
    {
        self.regs = Regs::reset(self.sync_latency);
        self.log.push(CtrlEvent::ResetIssued);
    }

    /// Poll the reset synchronization-busy flag (it mirrors the reset bit
    /// itself). Returns whether the reset is still settling; a poll that
    /// finds it busy lets one unit of hardware time pass.
    pub fn poll_reset_busy(&mut self) -> (r: bool)
        ensures
            r == (old(self).regs.swrst_sync > 0),
            r ==> final(self).regs == old(self).regs.with_swrst_sync(
                (old(self).regs.swrst_sync - 1) as u32,
            ),
            !r ==> final(self).regs == old(self).regs,
            final(self).log == old(self).log,
            final(self).sync_latency == old(self).sync_latency,
    {
        if self.regs.swrst_sync > 0 {
            self.regs.swrst_sync = self.regs.swrst_sync - 1;
            true
        } else {
            false
        }
    }

    /// Poll the enable synchronization-busy flag. Returns whether the last
    /// enable write is still settling; a poll that finds it busy lets one
    /// unit of hardware time pass.
    pub fn poll_enable_busy(&mut self) -> (r: bool)
        ensures
            r == (old(self).regs.enable_sync > 0),
            r ==> final(self).regs == old(self).regs.with_enable_sync(
                (old(self).regs.enable_sync - 1) as u32,
            ),
            !r ==> final(self).regs == old(self).regs,
            final(self).log == old(self).log,
            final(self).sync_latency == old(self).sync_latency,
    {
        if self.regs.enable_sync > 0 {
            self.regs.enable_sync = self.regs.enable_sync - 1;
            true
        } else {
            false
        }
    }

    /// Spin until the reset synchronization-busy flag clears. Unbounded in
    /// the register model's bound parameter, yet sure to settle: hardware
    /// guarantees the flag eventually clears, which the model renders as a
    /// finite countdown.
    pub fn wait_reset_sync(&mut self)
        ensures
            final(self).regs == old(self).regs.with_swrst_sync(0),
            final(self).log == old(self).log,
            final(self).sync_latency == old(self).sync_latency,
    {
        loop
            invariant
                self.sync_latency == old(self).sync_latency,
                self.log == old(self).log,
                self.regs == old(self).regs.with_swrst_sync(self.regs.swrst_sync),
            ensures
                self.regs.swrst_sync == 0,
            decreases self.regs.swrst_sync,
        {
            if !self.poll_reset_busy() {
                break;
            }
        }
    }

    /// Spin until the enable synchronization-busy flag clears; the
    /// pre-condition for depending on any further control write.
    pub fn wait_enable_sync(&mut self)
        ensures
            final(self).regs == old(self).regs.with_enable_sync(0),
            final(self).log == old(self).log,
            final(self).sync_latency == old(self).sync_latency,
    {
        loop
            invariant
                self.sync_latency == old(self).sync_latency,
                self.log == old(self).log,
                self.regs == old(self).regs.with_enable_sync(self.regs.enable_sync),
            ensures
                self.regs.enable_sync == 0,
            decreases self.regs.enable_sync,
        {
            if !self.poll_enable_busy() {
                break;
            }
        }
    }

    /// Select master operation in the mode field of control register A.
    pub fn select_master_mode(&mut self)
        ensures
            final(self).regs == old(self).regs.with_master_mode(),
            final(self).log@ == old(self).log@.push(CtrlEvent::MasterModeSelected),
            final(self).sync_latency == old(self).sync_latency,
    {
        self.regs.ctrla.master = true;
        self.log.push(CtrlEvent::MasterModeSelected);
    }

    /// Program 8-bit character size and the receiver-enable bit in
    /// control register B.
    pub fn configure_frame(&mut self, rxen: bool)
        ensures
            final(self).regs == old(self).regs.with_frame(rxen),
            final(self).log@ == old(self).log@.push(CtrlEvent::FrameConfigured),
            final(self).sync_latency == old(self).sync_latency,
    {
        self.regs.ctrlb.chsize = 0;
        self.regs.ctrlb.rxen = rxen;
        self.log.push(CtrlEvent::FrameConfigured);
    }

    /// Write the baud register.
    pub fn write_baud(&mut self, b: u8)
        ensures
            final(self).regs == old(self).regs.with_baud(b),
            final(self).log@ == old(self).log@.push(CtrlEvent::BaudWritten(b)),
            final(self).sync_latency == old(self).sync_latency,
    {
        self.regs.baud = b;
        self.log.push(CtrlEvent::BaudWritten(b));
    }

    /// Program clock polarity and phase, the data-in and data-out pad
    /// offsets, and most-significant-bit-first order. The offsets must fit
    /// the two-bit register fields.
    pub fn configure_shape(&mut self, mode: Mode, dipo: u8, dopo: u8)
        requires
            dipo <= 3,
            dopo <= 3,
        ensures
            final(self).regs == old(self).regs.with_shape(mode, dipo, dopo),
            final(self).log@ == old(self).log@.push(CtrlEvent::ShapeConfigured),
            final(self).sync_latency == old(self).sync_latency,
    {
        self.regs.ctrla.cpol = match mode.polarity {
            Polarity::IdleLow => false,
            Polarity::IdleHigh => true,
        };
        self.regs.ctrla.cpha = match mode.phase {
            Phase::CaptureOnFirstTransition => false,
            Phase::CaptureOnSecondTransition => true,
        };
        self.regs.ctrla.dipo = dipo;
        self.regs.ctrla.dopo = dopo;
        self.regs.ctrla.lsb_first = false;
        self.log.push(CtrlEvent::ShapeConfigured);
    }

    /// Write the enable bit; the enable synchronization starts counting
    /// down.
    pub fn write_enable(&mut self, on: bool)
        ensures
            final(self).regs == old(self).regs.with_enable(on).with_enable_sync(
                old(self).sync_latency,
            ),
            final(self).log@ == old(self).log@.push(CtrlEvent::EnableWritten(on)),
            final(self).sync_latency == old(self).sync_latency,
    {
        self.regs.ctrla.enable = on;
        self.regs.enable_sync = self.sync_latency;
        self.log.push(CtrlEvent::EnableWritten(on));
    }

    /// Read the data register; the hardware clears receive-complete as a
    /// side effect.
    pub fn read_data(&mut self) -> (r: u8)
        ensures
            r == old(self).regs.data,
            final(self).regs == old(self).regs.after_data_read(),
            final(self).log == old(self).log,
            final(self).sync_latency == old(self).sync_latency,
    {
        let b = self.regs.data;
        self.regs.rxc = false;
        b
    }

    /// Write the data register; transmission begins and data-register-empty
    /// clears as a side effect.
    pub fn write_data(&mut self, byte: u8)
        ensures
            final(self).regs == old(self).regs.after_data_write(byte),
            final(self).log == old(self).log,
            final(self).sync_latency == old(self).sync_latency,
    {
        self.regs.data = byte;
        self.regs.dre = false;
    }
}

/// One physical SERCOM block: its identity among the instances of the
/// part and its register block. Move-only: whoever holds the value is the
/// single owner of those registers.
pub struct Sercom {
    /// Instance number, 0 up to 7.
    pub id: u8,
    /// The instance's register block, viewed in SPI master mode.
    pub spim: Spim,
}

/// The system's peripheral access-control registers: one bus-clock gate
/// bit per peripheral, spread over three mask registers. Shared across
/// all instances, so initialization touches exactly its own bit.
#[derive(Clone, Copy, Debug, PartialEq, Eq, Structural)]
pub struct Mclk {
    pub apbamask: u32,
    pub apbbmask: u32,
    pub apbdmask: u32,
}

/// Gate bit of instance `id` inside the first mask register; 0 when the
/// instance is gated elsewhere.
pub open spec fn apba_gate(id: u8) -> u32 {
    if id == 0 {
        0x1
    } else if id == 1 {
        0x2
    } else {
        0
    }
}

/// Gate bit of instance `id` inside the second mask register.
pub open spec fn apbb_gate(id: u8) -> u32 {
    if id == 2 {
        0x1
    } else if id == 3 {
        0x2
    } else {
        0
    }
}

/// Gate bit of instance `id` inside the third mask register.
pub open spec fn apbd_gate(id: u8) -> u32 {
    if id == 4 {
        0x1
    } else if id == 5 {
        0x2
    } else if id == 6 {
        0x4
    } else if id == 7 {
        0x8
    } else {
        0
    }
}

proof fn lemma_or_zero(x: u32)
    ensures
        x | 0u32 == x,
{
    assert(x | 0u32 == x) by (bit_vector);
}

impl Mclk {
    /// Ungate the bus clock of instance `id` with a read-modify-write that
    /// sets exactly that instance's bit and leaves every other bit of the
    /// shared registers as it was.
    pub fn enable_gate(&mut self, id: u8)
        requires
            id < 8,
        ensures
            final(self).apbamask == old(self).apbamask | apba_gate(id),
            final(self).apbbmask == old(self).apbbmask | apbb_gate(id),
            final(self).apbdmask == old(self).apbdmask | apbd_gate(id),
    {
        proof {
            lemma_or_zero(self.apbamask);
            lemma_or_zero(self.apbbmask);
            lemma_or_zero(self.apbdmask);
        }
        if id < 2 {
            let bit: u32 = if id == 0 { 0x1 } else { 0x2 };
            self.apbamask = self.apbamask | bit;
        } else if id < 4 {
            let bit: u32 = if id == 2 { 0x1 } else { 0x2 };
            self.apbbmask = self.apbbmask | bit;
        } else {
            let bit: u32 = if id == 4 {
                0x1
            } else if id == 5 {
                0x2
            } else if id == 6 {
                0x4
            } else {
                0x8
            };
            self.apbdmask = self.apbdmask | bit;
        }
    }
}

} // verus!
