use sercom_spi::Error;
use sercom_spi::PollError;
use sercom_spi::master::SPIMasterv2;
use sercom_spi::pads::Pin;
use sercom_spi::regs::CtrlEvent;
use sercom_spi::regs::Mclk;
use sercom_spi::regs::Mode;
use sercom_spi::regs::Phase;
use sercom_spi::regs::Polarity;
use sercom_spi::regs::Sercom;
use sercom_spi::regs::Spim;
use sercom_spi::routing::Padout;

fn mk_master(id: u8, mode: Mode, latency: u32) -> (SPIMasterv2<Padout>, Mclk) {
    let padout = Padout::new(
        Pin { sercom: id, pad: 0 },
        Pin { sercom: id, pad: 3 },
        Pin { sercom: id, pad: 1 },
    )
    .unwrap();
    let sercom = Sercom { id, spim: Spim::new(latency) };
    let mut mclk = Mclk { apbamask: 0, apbbmask: 0, apbdmask: 0 };
    let m = SPIMasterv2::new(48_000_000, 1_000_000, mode, sercom, &mut mclk, padout);
    (m, mclk)
}

fn mode00() -> Mode {
    Mode { polarity: Polarity::IdleLow, phase: Phase::CaptureOnFirstTransition }
}

#[test]
fn bring_up_programs_every_field() {
    let (m, mclk) = mk_master(0, mode00(), 3);
    let spim = m.spi();
    assert!(spim.regs.ctrla.enable);
    assert!(spim.regs.ctrla.master);
    assert!(!spim.regs.ctrla.cpol);
    assert!(!spim.regs.ctrla.cpha);
    assert_eq!(spim.regs.ctrla.dipo, 0);
    assert_eq!(spim.regs.ctrla.dopo, 2);
    assert!(!spim.regs.ctrla.lsb_first);
    assert_eq!(spim.regs.ctrlb.chsize, 0);
    assert!(spim.regs.ctrlb.rxen);
    assert_eq!(spim.regs.baud, 23);
    assert_eq!(spim.regs.swrst_sync, 0);
    assert_eq!(spim.regs.enable_sync, 0);
    assert_eq!(mclk.apbamask, 0x1);
    assert_eq!(mclk.apbbmask, 0);
    assert_eq!(mclk.apbdmask, 0);
    assert_eq!(
        spim.log,
        vec![
            CtrlEvent::ResetIssued,
            CtrlEvent::MasterModeSelected,
            CtrlEvent::FrameConfigured,
            CtrlEvent::BaudWritten(23),
            CtrlEvent::ShapeConfigured,
            CtrlEvent::EnableWritten(true),
        ]
    );
}

#[test]
fn bring_up_applies_the_mode_bits() {
    let mode = Mode { polarity: Polarity::IdleHigh, phase: Phase::CaptureOnSecondTransition };
    let (m, _mclk) = mk_master(1, mode, 1);
    assert!(m.spi().regs.ctrla.cpol);
    assert!(m.spi().regs.ctrla.cpha);
}

#[test]
fn gate_write_touches_only_its_own_bit() {
    let mut mclk = Mclk { apbamask: 0x8000_0010, apbbmask: 0x4, apbdmask: 0xF0 };
    mclk.enable_gate(3);
    assert_eq!(mclk.apbamask, 0x8000_0010);
    assert_eq!(mclk.apbbmask, 0x4 | 0x2);
    assert_eq!(mclk.apbdmask, 0xF0);
    mclk.enable_gate(7);
    assert_eq!(mclk.apbdmask, 0xF0 | 0x8);
}

#[test]
fn loopback_round_trips_every_byte_value() {
    let (mut m, _mclk) = mk_master(2, mode00(), 2);
    for b in 0..=255u8 {
        // The harness stands in for the wire: transmitter ready, then the
        // transmitted byte echoed back with receive-complete.
        m.hw_data_register_empty();
        assert_eq!(m.send(b), Ok(()));
        let echoed = m.spi().regs.data;
        m.hw_receive_complete(echoed);
        assert_eq!(m.read(), Ok(b));
    }
}

#[test]
fn overrun_is_reported_and_consumes_nothing() {
    let (mut m, _mclk) = mk_master(4, mode00(), 0);
    m.hw_receive_complete(0xAB);
    m.hw_force_overrun();
    let before = m.spi().regs;
    assert_eq!(m.read(), Err(PollError::Other(Error::Overrun)));
    // The byte is still pending and the sticky condition still raised.
    let after = m.spi().regs;
    assert_eq!(before, after);
    assert!(after.bufovf);
    assert!(after.rxc);
    assert_eq!(after.data, 0xAB);
}

#[test]
fn both_primitives_would_block_without_flags() {
    let (mut m, _mclk) = mk_master(5, mode00(), 1);
    let before = m.spi().regs;
    let log_len = m.spi().log.len();
    assert_eq!(m.read(), Err(PollError::WouldBlock));
    assert_eq!(m.send(0x55), Err(PollError::WouldBlock));
    assert_eq!(m.spi().regs, before);
    assert_eq!(m.spi().log.len(), log_len);
}

#[test]
fn reading_clears_receive_complete() {
    let (mut m, _mclk) = mk_master(6, mode00(), 1);
    m.hw_receive_complete(0x5A);
    assert_eq!(m.read(), Ok(0x5A));
    assert!(!m.spi().regs.rxc);
    assert_eq!(m.read(), Err(PollError::WouldBlock));
}

#[test]
fn baud_change_disables_programs_and_reenables_in_order() {
    let (mut m, _mclk) = mk_master(0, mode00(), 4);
    let n = m.spi().log.len();
    assert_eq!(m.spi().log[n - 1], CtrlEvent::EnableWritten(true));
    m.set_baud(2_000_000, 48_000_000);
    let log = &m.spi().log;
    // Enable transitions in order: set (from bring-up), then clear,
    // program, set.
    assert_eq!(
        &log[n..],
        &[
            CtrlEvent::EnableWritten(false),
            CtrlEvent::BaudWritten(11),
            CtrlEvent::EnableWritten(true),
        ]
    );
    assert_eq!(m.spi().regs.baud, 11);
    assert!(m.spi().regs.ctrla.enable);
    assert_eq!(m.spi().regs.enable_sync, 0);
}

#[test]
fn free_yields_the_parts_untouched() {
    let (mut m, _mclk) = mk_master(7, mode00(), 1);
    m.set_baud(4_000_000, 48_000_000);
    let (padout, sercom) = m.free();
    assert_eq!(sercom.id, 7);
    // No de-initialization: the block is still enabled and configured.
    assert!(sercom.spim.regs.ctrla.enable);
    assert_eq!(sercom.spim.regs.baud, 5);
    let (miso, mosi, sck, _cs) = sercom_spi::routing::SPIMasterPadout::free(padout);
    assert_eq!(miso, Pin { sercom: 7, pad: 0 });
    assert_eq!(mosi, Pin { sercom: 7, pad: 3 });
    assert_eq!(sck, Pin { sercom: 7, pad: 1 });
}

#[test]
fn spi_accessors_expose_the_same_block() {
    let (mut m, _mclk) = mk_master(3, mode00(), 1);
    let baud = m.spi().regs.baud;
    assert_eq!(m.spi_mut().regs.baud, baud);
}
