//! Baud-rate derivation for the SPI master clock generator.
//!
//! The register value is the divider `f_clock / (2 * f_target) - 1`,
//! clamped into the 8-bit range: a target above half the input clock
//! saturates at 0 (fastest rate the block can make), an overly slow
//! target saturates at 255.

use vstd::prelude::*;

verus! {

/// The 8-bit baud register value for input clock `clock` and target
/// transfer rate `freq`, both in hertz.
pub open spec fn baud_value(clock: u32, freq: u32) -> u8
    recommends
        freq > 0,
{
    let q = clock as int / (2 * freq as int);
    if q <= 0 {
        0
    } else if q - 1 > 255 {
        255
    } else {
        (q - 1) as u8
    }
}

/// Derive the baud register value. Pure: re-invoked on every
/// (re)configuration rather than stored.
pub fn calculate_baud(freq: u32, clock: u32) -> (r: u8)
    requires
        freq > 0,
    ensures
        r == baud_value(clock, freq),
{
    let q: u64 = (clock as u64) / (2 * (freq as u64));
    if q == 0 {
        0
    } else if q > 256 {
        255
    } else {
        (q - 1) as u8
    }
}

/// A target rate above half the input clock saturates the divider at 0;
/// the value clamps instead of wrapping below zero.
pub proof fn lemma_baud_clamps_low(clock: u32, freq: u32)
    requires
        freq > 0,
        2 * (freq as int) > clock as int,
    ensures
        baud_value(clock, freq) == 0,
{
    vstd::arithmetic::div_mod::lemma_basic_div(clock as int, 2 * freq as int);
}

} // verus!
