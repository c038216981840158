//! The SPI master peripheral instance: bring-up, baud-rate changes,
//! teardown and the polled full-duplex transfer protocol.
//!
//! An instance owns one SERCOM register block together with a legal pad
//! mapping; move semantics make it the block's single owner. Bring-up
//! follows the hardware's sequence — gate the bus clock, reset, select
//! master operation, program frame, baud and shape, enable — and polls
//! the synchronization-busy flags wherever a write needs to settle
//! before the next one may depend on it.

use vstd::prelude::*;

use crate::Error;
use crate::PollError;
use crate::baud::baud_value;
use crate::baud::calculate_baud;
use crate::regs::CtrlEvent;
use crate::regs::Mclk;
use crate::regs::Mode;
use crate::regs::Regs;
use crate::regs::Sercom;
use crate::regs::Spim;
use crate::regs::apba_gate;
use crate::regs::apbb_gate;
use crate::regs::apbd_gate;
use crate::routing::SPIMasterPadout;
use crate::pads::SPIMasterRXEN;

verus! {

/// Register state right after a completed bring-up: reset values, then
/// master mode, frame, baud, shape and the enable bit, all settled.
pub open spec fn bring_up_regs(mode: Mode, rxen: bool, dipo: u8, dopo: u8, baud: u8) -> Regs {
    Regs::reset_state(0).with_master_mode().with_frame(rxen).with_baud(baud).with_shape(
        mode,
        dipo,
        dopo,
    ).with_enable(true).with_enable_sync(0)
}

/// The control writes a bring-up performs, in order.
pub open spec fn bring_up_events(baud: u8) -> Seq<CtrlEvent> {
    seq![
        CtrlEvent::ResetIssued,
        CtrlEvent::MasterModeSelected,
        CtrlEvent::FrameConfigured,
        CtrlEvent::BaudWritten(baud),
        CtrlEvent::ShapeConfigured,
        CtrlEvent::EnableWritten(true),
    ]
}

/// The control writes a baud-rate change performs, in order: disable,
/// reprogram, re-enable.
pub open spec fn rebaud_events(baud: u8) -> Seq<CtrlEvent> {
    seq![
        CtrlEvent::EnableWritten(false),
        CtrlEvent::BaudWritten(baud),
        CtrlEvent::EnableWritten(true),
    ]
}

/// A SERCOM instance brought up as an SPI master over a legal pad
/// mapping. While the value exists it is the sole owner of its register
/// block; `free` gives the mapping and the block back, with no reset
/// performed.
pub struct SPIMasterv2<P: SPIMasterPadout> {
    padout: P,
    sercom: Sercom,
}

impl<P: SPIMasterPadout> SPIMasterv2<P> {
    /// The pad mapping held.
    pub closed spec fn padout_spec(&self) -> P {
        self.padout
    }

    /// The instance number of the owned SERCOM block.
    pub closed spec fn sercom_id(&self) -> u8 {
        self.sercom.id
    }

    /// The owned register block.
    pub closed spec fn spim_spec(&self) -> Spim {
        self.sercom.spim
    }

    /// The mapping is legal and belongs to the owned instance.
    pub open spec fn wf(&self) -> bool {
        self.padout_spec().wf() && self.padout_spec().sercom_id_spec() == self.sercom_id()
    }

    /// Power up and configure `sercom` as an SPI master at (approximately)
    /// `freq` hertz, fed by an input clock of `clock_freq` hertz, in the
    /// given transfer mode, routed as `padout` dictates.
    ///
    /// The bus-clock gate write touches exactly this instance's bit of the
    /// shared access-control registers. Every synchronization wait is an
    /// unbounded poll of a flag hardware guarantees to clear.
    pub fn new(clock_freq: u32, freq: u32, mode: Mode, sercom: Sercom, mclk: &mut Mclk, padout: P) -> (r:
        SPIMasterv2<P>)
        requires
            freq > 0,
            sercom.id < 8,
            padout.wf(),
            padout.sercom_id_spec() == sercom.id,
        ensures
            r.wf(),
            r.padout_spec() == padout,
            r.sercom_id() == sercom.id,
            r.spim_spec().sync_latency == sercom.spim.sync_latency,
            r.spim_spec().regs == bring_up_regs(
                mode,
                P::MISO::rxen_spec() == 1,
                padout.dipo_dopo_spec().0,
                padout.dipo_dopo_spec().1,
                baud_value(clock_freq, freq),
            ),
            r.spim_spec().log@ == sercom.spim.log@ + bring_up_events(baud_value(clock_freq, freq)),
            final(mclk).apbamask == old(mclk).apbamask | apba_gate(sercom.id),
            final(mclk).apbbmask == old(mclk).apbbmask | apbb_gate(sercom.id),
            final(mclk).apbdmask == old(mclk).apbdmask | apbd_gate(sercom.id),
    {
        let ghost in_log = sercom.spim.log@;
        let mut sercom = sercom;

        // Power up the peripheral's bus clock in the shared gate register.
        mclk.enable_gate(sercom.id);

        // Reset the block and wait until the reset has settled.
        sercom.spim.issue_swrst();
        sercom.spim.wait_reset_sync();

        // Select master operation; wait before depending on further writes.
        sercom.spim.select_master_mode();
        sercom.spim.wait_enable_sync();

        // 8-bit characters; the receiver runs whenever a data-in pin is
        // mapped.
        let rxen = P::MISO::rxen();
        sercom.spim.configure_frame(rxen == 1);

        // Program the clock divider.
        let baud = calculate_baud(freq, clock_freq);
        sercom.spim.write_baud(baud);

        // Clock shape, pad routing offsets, most-significant bit first.
        proof {
            padout.lemma_dipo_dopo_in_range();
        }
        let dd = padout.dipo_dopo();
        sercom.spim.configure_shape(mode, dd.0, dd.1);

        // Enable and wait for the enable write to settle.
        sercom.spim.write_enable(true);
        sercom.spim.wait_enable_sync();

        proof {
            assert(sercom.spim.log@ =~= in_log + bring_up_events(baud_value(clock_freq, freq)));
        }
        SPIMasterv2 { padout, sercom }
    }

    /// Shared view of the register block.
    pub fn spi(&self) -> (r: &Spim)
        ensures
            *r == self.spim_spec(),
    {
        &self.sercom.spim
    }

    /// Shared view of the register block, from exclusive access to the
    /// instance.
    pub fn spi_mut(&mut self) -> (r: &Spim)
        ensures
            *r == final(self).spim_spec(),
            *final(self) == *old(self),
    {
        &self.sercom.spim
    }

    /// Disable the instance and wait for the write to settle.
    fn disable(&mut self)
        ensures
            final(self).padout_spec() == old(self).padout_spec(),
            final(self).sercom_id() == old(self).sercom_id(),
            final(self).spim_spec().sync_latency == old(self).spim_spec().sync_latency,
            final(self).spim_spec().regs == old(self).spim_spec().regs.with_enable(
                false,
            ).with_enable_sync(0),
            final(self).spim_spec().log@ == old(self).spim_spec().log@.push(
                CtrlEvent::EnableWritten(false),
            ),
    {
        self.sercom.spim.write_enable(false);
        self.sercom.spim.wait_enable_sync();
    }

    /// Enable the instance and wait for the write to settle.
    fn enable(&mut self)
        ensures
            final(self).padout_spec() == old(self).padout_spec(),
            final(self).sercom_id() == old(self).sercom_id(),
            final(self).spim_spec().sync_latency == old(self).spim_spec().sync_latency,
            final(self).spim_spec().regs == old(self).spim_spec().regs.with_enable(
                true,
            ).with_enable_sync(0),
            final(self).spim_spec().log@ == old(self).spim_spec().log@.push(
                CtrlEvent::EnableWritten(true),
            ),
    {
        self.sercom.spim.write_enable(true);
        self.sercom.spim.wait_enable_sync();
    }

    /// Change the transfer rate: disable the instance, reprogram the baud
    /// register, re-enable. Polarity, phase and routing stay programmed
    /// throughout, so the mode is re-applied implicitly.
    pub fn set_baud(&mut self, freq: u32, clock_freq: u32)
        requires
            freq > 0,
        ensures
            final(self).padout_spec() == old(self).padout_spec(),
            final(self).sercom_id() == old(self).sercom_id(),
            final(self).spim_spec().sync_latency == old(self).spim_spec().sync_latency,
            final(self).spim_spec().regs == old(self).spim_spec().regs.with_baud(
                baud_value(clock_freq, freq),
            ).with_enable(true).with_enable_sync(0),
            final(self).spim_spec().log@ == old(self).spim_spec().log@ + rebaud_events(
                baud_value(clock_freq, freq),
            ),
    {
        let ghost in_log = self.sercom.spim.log@;
        self.disable();
        let baud = calculate_baud(freq, clock_freq);
        self.sercom.spim.write_baud(baud);
        self.enable();
        proof {
            assert(self.sercom.spim.log@ =~= in_log + rebaud_events(baud_value(clock_freq, freq)));
        }
    }

    /// Tear the instance down and yield the pad mapping and the SERCOM
    /// block. No de-initialization is performed; resetting is the
    /// caller's choice.
    pub fn free(self) -> (r: (P, Sercom))
        ensures
            r.0 == self.padout_spec(),
            r.1.id == self.sercom_id(),
            r.1.spim == self.spim_spec(),
    {
        (self.padout, self.sercom)
    }

    /// Poll for a received byte.
    ///
    /// If the sticky overrun condition is set, reports `Error::Overrun`
    /// without consuming data and without clearing the condition —
    /// clearing it is the caller's contract, not this primitive's. If a
    /// byte is complete, returns it; reading the data register clears the
    /// receive-complete flag as a hardware side effect. Otherwise would
    /// block, and no register changes beyond the reads needed to check
    /// the flags.
    pub fn read(&mut self) -> (r: Result<u8, PollError>)
        ensures
            final(self).padout_spec() == old(self).padout_spec(),
            final(self).sercom_id() == old(self).sercom_id(),
            final(self).spim_spec().sync_latency == old(self).spim_spec().sync_latency,
            final(self).spim_spec().log == old(self).spim_spec().log,
            (match r {
                Ok(b) => !old(self).spim_spec().regs.bufovf && old(self).spim_spec().regs.rxc && b
                    == old(self).spim_spec().regs.data && final(self).spim_spec().regs == old(self).spim_spec().regs.after_data_read(),
                Err(PollError::Other(e)) => e == Error::Overrun && old(self).spim_spec().regs.bufovf
                    && final(self).spim_spec().regs == old(self).spim_spec().regs,
                Err(PollError::WouldBlock) => !old(self).spim_spec().regs.bufovf && !old(self).spim_spec().regs.rxc && final(self).spim_spec().regs == old(self).spim_spec().regs,
            }),
    {
        if self.sercom.spim.regs.bufovf {
            return Err(PollError::Other(Error::Overrun));
        }
        if self.sercom.spim.regs.rxc {
            Ok(self.sercom.spim.read_data())
        } else {
            Err(PollError::WouldBlock)
        }
    }

    /// Poll-write one byte.
    ///
    /// If the data register is empty the byte is written — transmission
    /// starts as a hardware side effect — and the call succeeds.
    /// Otherwise would block, and no register changes beyond the read
    /// needed to check the flag.
    pub fn send(&mut self, byte: u8) -> (r: Result<(), PollError>)
        ensures
            final(self).padout_spec() == old(self).padout_spec(),
            final(self).sercom_id() == old(self).sercom_id(),
            final(self).spim_spec().sync_latency == old(self).spim_spec().sync_latency,
            final(self).spim_spec().log == old(self).spim_spec().log,
            (match r {
                Ok(_) => old(self).spim_spec().regs.dre && final(self).spim_spec().regs == old(self).spim_spec().regs.after_data_write(byte),
                Err(PollError::WouldBlock) => !old(self).spim_spec().regs.dre && final(self).spim_spec().regs == old(self).spim_spec().regs,
                Err(PollError::Other(_)) => false,
            }),
    {
        if self.sercom.spim.regs.dre {
            self.sercom.spim.write_data(byte);
            Ok(())
        } else {
            Err(PollError::WouldBlock)
        }
    }

    /// Environment action, for validation harnesses standing in for the
    /// wire: a received byte completed; it sits in the data register and
    /// the receive-complete flag rises.
    pub fn hw_receive_complete(&mut self, byte: u8)
        ensures
            final(self).padout_spec() == old(self).padout_spec(),
            final(self).sercom_id() == old(self).sercom_id(),
            final(self).spim_spec().sync_latency == old(self).spim_spec().sync_latency,
            final(self).spim_spec().log == old(self).spim_spec().log,
            final(self).spim_spec().regs == old(self).spim_spec().regs.after_receive(byte),
    {
        self.sercom.spim.regs.data = byte;
        self.sercom.spim.regs.rxc = true;
    }

    /// Environment action, for validation harnesses standing in for the
    /// transmitter: the pending byte was taken and the data register is
    /// empty again.
    pub fn hw_data_register_empty(&mut self)
        ensures
            final(self).padout_spec() == old(self).padout_spec(),
            final(self).sercom_id() == old(self).sercom_id(),
            final(self).spim_spec().sync_latency == old(self).spim_spec().sync_latency,
            final(self).spim_spec().log == old(self).spim_spec().log,
            final(self).spim_spec().regs == old(self).spim_spec().regs.after_transmitter_ready(),
    {
        self.sercom.spim.regs.dre = true;
    }

    /// Environment action, for validation harnesses standing in for the
    /// receiver: a byte arrived before the previous one was read out; the
    /// sticky overrun condition rises.
    pub fn hw_force_overrun(&mut self)
        ensures
            final(self).padout_spec() == old(self).padout_spec(),
            final(self).sercom_id() == old(self).sercom_id(),
            final(self).spim_spec().sync_latency == old(self).spim_spec().sync_latency,
            final(self).spim_spec().log == old(self).spim_spec().log,
            final(self).spim_spec().regs == old(self).spim_spec().regs.after_overrun(),
    {
        self.sercom.spim.regs.bufovf = true;
    }
}

/// Loop-back round-trip law: after a successful `send` of any byte, the
/// data register holds exactly that byte, so a wire that echoes the
/// transmitted byte and raises receive-complete puts the channel in a
/// state where `read` is obliged to return `Ok` of the same byte —
/// byte-for-byte, for every byte value.
pub proof fn lemma_loopback_round_trip(r: Regs, b: u8)
    requires
        r.dre,
        !r.bufovf,
    ensures
        ({
            let sent = r.after_data_write(b);
            let echoed = sent.after_receive(sent.data);
            !echoed.bufovf && echoed.rxc && echoed.data == b
        }),
{
}

} // verus!
