use sercom_spi::baud::calculate_baud;

#[test]
fn reference_rate_is_deterministic() {
    // 48 MHz input clock, 1 MHz target: divider 48 / 2 - 1.
    assert_eq!(calculate_baud(1_000_000, 48_000_000), 23);
    assert_eq!(calculate_baud(1_000_000, 48_000_000), 23);
}

#[test]
fn exact_values() {
    assert_eq!(calculate_baud(2_000_000, 48_000_000), 11);
    assert_eq!(calculate_baud(12_000_000, 48_000_000), 1);
    assert_eq!(calculate_baud(24_000_000, 48_000_000), 0);
    assert_eq!(calculate_baud(115_200, 48_000_000), 207);
}

#[test]
fn target_above_half_the_clock_clamps_at_zero() {
    // The divider would go below zero; it must clamp, not wrap.
    assert_eq!(calculate_baud(25_000_000, 48_000_000), 0);
    assert_eq!(calculate_baud(48_000_000, 48_000_000), 0);
    assert_eq!(calculate_baud(u32::MAX, 48_000_000), 0);
}

#[test]
fn very_slow_target_clamps_at_the_register_maximum() {
    assert_eq!(calculate_baud(1, u32::MAX), 255);
    assert_eq!(calculate_baud(1_000, 48_000_000), 255);
}
