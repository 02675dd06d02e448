//! The knob, the pointers and the battery gauge of the left half.

use crate::ticks::duration_from_secs;
use crate::ticks::TICK_HZ;
use vstd::prelude::*;

verus! {

/// The device number of this half's trackpad.
pub const PAD_DEVICE_ID: u8 = 0;

/// Seconds between two samples of the battery voltage.
pub const BATTERY_POLL_SECS: u64 = 12;

/// The gauge's reading of a full cell, before the divider.
pub const FULL_CHARGE: u32 = 4755;

/// How the knob's edges become turns.
#[derive(Clone, Copy, PartialEq, Eq, Structural, Debug)]
pub struct EncoderConfig {
    /// Edges per turn event.
    pub resolution: u8,
    /// Whether the directions are swapped.
    pub reverse: bool,
    /// The knob's number in the key map.
    pub id: u8,
}

/// This half's knob.
pub fn encoder_config() -> (config: EncoderConfig)
    ensures
        config == (EncoderConfig { resolution: 4, reverse: false, id: 0 }),
{
    EncoderConfig { resolution: 4, reverse: false, id: 0 }
}

/// How the motion of one pointing device is read before it becomes a report.
#[derive(Clone, Copy, PartialEq, Eq, Structural, Debug)]
pub struct PointingProcessorConfig {
    /// The device; 255 stands for every device.
    pub device_id: u8,
    /// Whether the X axis is inverted.
    pub invert_x: bool,
    /// Whether the Y axis is inverted.
    pub invert_y: bool,
    /// Whether the axes are swapped.
    pub swap_xy: bool,
}

/// `rmk::input_device::pointing::PointingProcessorConfig::default`: every
/// device, with its axes as they are.
#[verifier::external_body]
fn stock_pointing_config() -> (config: PointingProcessorConfig)
    ensures
        config == (PointingProcessorConfig {
            device_id: 255,
            invert_x: false,
            invert_y: false,
            swap_xy: false,
        }),
{
    let stock = rmk::input_device::pointing::PointingProcessorConfig::default();
    PointingProcessorConfig {
        device_id: stock.device_id,
        invert_x: stock.invert_x,
        invert_y: stock.invert_y,
        swap_xy: stock.swap_xy,
    }
}

/// The processor of one pointing device, which takes the axes as they come.
pub fn pointing_config(device_id: u8) -> (config: PointingProcessorConfig)
    ensures
        config == (PointingProcessorConfig {
            device_id,
            invert_x: false,
            invert_y: false,
            swap_xy: false,
        }),
{
    PointingProcessorConfig { device_id, ..stock_pointing_config() }
}

/// What a slot of the voltage sampler is for.
#[derive(Clone, Copy, PartialEq, Eq, Structural, Debug)]
pub enum AnalogEventType {
    /// A stick with the given number of axes.
    Joystick(u8),
    /// The battery.
    Battery,
}

/// What the voltage sampler reads, and how often.
#[derive(Clone, Copy, Debug)]
pub struct AdcConfig {
    /// What each slot is for.
    pub events: [AnalogEventType; 1],
    /// The device number that each slot reports under.
    pub event_device_ids: [u8; 1],
    /// Ticks between two samples.
    pub polling_interval_ticks: u64,
    /// Ticks between two samples while nothing moves, if they differ.
    pub light_sleep_ticks: Option<u64>,
}

/// The voltage sampler: a single slot, for the battery.
pub fn adc_config() -> (config: AdcConfig)
    ensures
        config.events@[0] == AnalogEventType::Battery,
        config.event_device_ids@[0] == 0,
        config.polling_interval_ticks == BATTERY_POLL_SECS * TICK_HZ,
        config.polling_interval_ticks == 12 * 32_768,
        config.light_sleep_ticks is None,
{
    AdcConfig {
        events: [AnalogEventType::Battery],
        event_device_ids: [0],
        polling_interval_ticks: duration_from_secs(BATTERY_POLL_SECS),
        light_sleep_ticks: None,
    }
}

/// The divider between the cell and the voltage sampler.
#[derive(Clone, Copy, PartialEq, Eq, Structural, Debug)]
pub struct BatteryDivider {
    /// The resistance over which the voltage is measured.
    pub measured: u32,
    /// The resistance of the whole divider.
    pub total: u32,
}

impl BatteryDivider {
    /// What a sample stands for before the divider.
    pub open spec fn before_divider(self, sample: u16) -> int {
        sample * self.total / self.measured as int
    }

    /// The sample above which the gauge shows a full cell.
    pub open spec fn full_sample(self) -> int {
        FULL_CHARGE * self.measured / self.total as int
    }
}

/// The divider as the battery gauge is told. The total is set so that an aged
/// cell, which stops at 4.15 V, still reads full.
pub fn battery_divider() -> (divider: BatteryDivider)
    ensures
        divider == (BatteryDivider { measured: 2000, total: 2840 }),
{
    BatteryDivider { measured: 2000, total: 2840 }
}

/// A sample reads full exactly when what it stands for before the divider
/// reaches [`FULL_CHARGE`].
pub proof fn law_full_charge(divider: BatteryDivider, sample: u16)
    requires
        divider == (BatteryDivider { measured: 2000, total: 2840 }),
    ensures
        divider.before_divider(sample) >= FULL_CHARGE <==> sample > divider.full_sample(),
        divider.before_divider(sample) >= FULL_CHARGE <==> sample * 2840 / 2000 >= 4755,
        sample > divider.full_sample() <==> sample >= 3349,
{
}

} // verus!
