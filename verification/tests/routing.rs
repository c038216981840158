use sercom_spi::pads::NoneT;
use sercom_spi::pads::Pin;
use sercom_spi::pads::SPIMasterMSSEN;
use sercom_spi::pads::SPIMasterRXEN;
use sercom_spi::routing::DipoDopo;
use sercom_spi::routing::HwcsPadout;
use sercom_spi::routing::Padout;
use sercom_spi::routing::SPIMasterPadout;

fn duplex_expected(miso: u8, mosi: u8, sck: u8) -> Option<(u8, u8)> {
    match (miso, mosi, sck) {
        (0, 3, 1) => Some((0, 2)),
        (2, 0, 1) => Some((2, 0)),
        (2, 3, 1) => Some((2, 2)),
        (3, 0, 1) => Some((3, 0)),
        _ => None,
    }
}

#[test]
fn duplex_table_is_exhaustive() {
    let mut accepted = 0;
    for miso in 0..4u8 {
        for mosi in 0..4u8 {
            for sck in 0..4u8 {
                let p = Padout::new(
                    Pin { sercom: 0, pad: miso },
                    Pin { sercom: 0, pad: mosi },
                    Pin { sercom: 0, pad: sck },
                );
                match duplex_expected(miso, mosi, sck) {
                    Some(pair) => {
                        let padout = p.expect("legal tuple must be accepted");
                        assert_eq!(padout.dipo_dopo(), pair);
                        accepted += 1;
                    }
                    None => assert!(p.is_none(), "illegal tuple accepted"),
                }
            }
        }
    }
    assert_eq!(accepted, 4);
}

fn hwcs_expected(miso: u8, mosi: u8, sck: u8, cs: u8) -> Option<(u8, u8)> {
    match (miso, mosi, sck, cs) {
        (0, 3, 1, 2) => Some((0, 2)),
        (3, 0, 1, 2) => Some((3, 0)),
        _ => None,
    }
}

#[test]
fn hwcs_table_is_exhaustive() {
    let mut accepted = 0;
    for miso in 0..4u8 {
        for mosi in 0..4u8 {
            for sck in 0..4u8 {
                for cs in 0..4u8 {
                    let p = HwcsPadout::new(
                        Pin { sercom: 3, pad: miso },
                        Pin { sercom: 3, pad: mosi },
                        Pin { sercom: 3, pad: sck },
                        Pin { sercom: 3, pad: cs },
                    );
                    match hwcs_expected(miso, mosi, sck, cs) {
                        Some(pair) => {
                            let padout = p.expect("legal tuple must be accepted");
                            assert_eq!(padout.dipo_dopo(), pair);
                            accepted += 1;
                        }
                        None => assert!(p.is_none(), "illegal tuple accepted"),
                    }
                }
            }
        }
    }
    assert_eq!(accepted, 2);
}

#[test]
fn pins_of_another_instance_are_rejected() {
    let p = Padout::new(
        Pin { sercom: 1, pad: 0 },
        Pin { sercom: 0, pad: 3 },
        Pin { sercom: 0, pad: 1 },
    );
    assert!(p.is_none());
    let h = HwcsPadout::new(
        Pin { sercom: 0, pad: 0 },
        Pin { sercom: 0, pad: 3 },
        Pin { sercom: 0, pad: 1 },
        Pin { sercom: 2, pad: 2 },
    );
    assert!(h.is_none());
}

#[test]
fn free_hands_the_pins_back() {
    let p = Padout::new(
        Pin { sercom: 5, pad: 2 },
        Pin { sercom: 5, pad: 3 },
        Pin { sercom: 5, pad: 1 },
    )
    .unwrap();
    let (miso, mosi, sck, cs) = p.free();
    assert_eq!(miso, Pin { sercom: 5, pad: 2 });
    assert_eq!(mosi, Pin { sercom: 5, pad: 3 });
    assert_eq!(sck, Pin { sercom: 5, pad: 1 });
    assert_eq!(cs, NoneT);

    let h = HwcsPadout::new(
        Pin { sercom: 4, pad: 3 },
        Pin { sercom: 4, pad: 0 },
        Pin { sercom: 4, pad: 1 },
        Pin { sercom: 4, pad: 2 },
    )
    .unwrap();
    let (miso, mosi, sck, cs) = h.free();
    assert_eq!(miso, Pin { sercom: 4, pad: 3 });
    assert_eq!(mosi, Pin { sercom: 4, pad: 0 });
    assert_eq!(sck, Pin { sercom: 4, pad: 1 });
    assert_eq!(cs, Pin { sercom: 4, pad: 2 });
}

#[test]
fn slot_occupancy_bits() {
    assert_eq!(<Pin as SPIMasterRXEN>::rxen(), 1);
    assert_eq!(<NoneT as SPIMasterRXEN>::rxen(), 0);
    assert_eq!(<Pin as SPIMasterMSSEN>::mssen(), 1);
    assert_eq!(<NoneT as SPIMasterMSSEN>::mssen(), 0);
}
