//! The low-frequency clock that the radio's scheduler runs on.

use vstd::prelude::*;

verus! {

/// The accuracy that the scheduler may assume of the clock, in parts per
/// million.
pub const LFCLK_ACCURACY_PPM: u16 = 500;

/// How the scheduler sets up the low-frequency clock.
#[derive(Clone, Copy, PartialEq, Eq, Structural, Debug)]
pub struct LfclkConfig {
    /// The oscillator.
    pub source: u8,
    /// How often the oscillator is calibrated, in quarter seconds.
    pub rc_ctiv: u8,
    /// How many calibrations a steady temperature may skip.
    pub rc_temp_ctiv: u8,
    /// The accuracy to assume, in parts per million.
    pub accuracy_ppm: u16,
    /// Whether to go on before the clock runs.
    pub skip_wait_lfclk_started: bool,
}

/// The clock set-up from the scheduler's own numbers for the oscillator and its
/// calibration, of which the low byte is taken, and for whether to wait, where
/// 0 means to wait.
pub fn lfclk_config(source: u32, rc_ctiv: u32, rc_temp_ctiv: u32, skip_wait: u32) -> (config:
    LfclkConfig)
    ensures
        config.source == source % 256,
        config.rc_ctiv == rc_ctiv % 256,
        config.rc_temp_ctiv == rc_temp_ctiv % 256,
        config.accuracy_ppm == LFCLK_ACCURACY_PPM,
        config.accuracy_ppm == 500,
        config.skip_wait_lfclk_started <==> skip_wait != 0,
{
    proof {
        assert(source as u8 == source % 256) by (bit_vector);
        assert(rc_ctiv as u8 == rc_ctiv % 256) by (bit_vector);
        assert(rc_temp_ctiv as u8 == rc_temp_ctiv % 256) by (bit_vector);
    }
    LfclkConfig {
        source: source as u8,
        rc_ctiv: rc_ctiv as u8,
        rc_temp_ctiv: rc_temp_ctiv as u8,
        accuracy_ppm: LFCLK_ACCURACY_PPM,
        skip_wait_lfclk_started: skip_wait != 0,
    }
}

} // verus!
