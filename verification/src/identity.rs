//! What the keyboard tells the host about itself, and where it keeps its
//! settings.

use crate::layout::on_this_half;
use crate::wiring::Pin;
use vstd::prelude::*;

verus! {

/// Bytes in a sector of the microcontroller's flash.
pub const FLASH_SECTOR: usize = 4096;

/// Bytes of the microcontroller's flash.
pub const FLASH_SIZE: usize = 0x10_0000;

/// How the keyboard presents itself over USB and Bluetooth.
#[derive(Clone, Copy, Debug)]
pub struct DeviceConfig {
    /// The vendor number.
    pub vid: u16,
    /// The product number.
    pub pid: u16,
    /// The maker's name.
    pub manufacturer: &'static str,
    /// The product's name.
    pub product_name: &'static str,
    /// The serial number.
    pub serial_number: &'static str,
}

/// `rmk::config::DeviceConfig::default`: the framework's own numbers and names,
/// and as the serial number the marker of the configurator protocol with the
/// framework's version.
#[verifier::external_body]
fn stock_device_config() -> (config: DeviceConfig)
    ensures
        config.vid == 0x4c4b,
        config.pid == 0x4643,
        config.manufacturer@ == "RMK"@,
        config.product_name@ == "RMK Keyboard"@,
        config.serial_number@ == "vial:f64c2b3c;rmk:0.9.0"@,
{
    let stock = rmk::config::DeviceConfig::default();
    DeviceConfig {
        vid: stock.vid,
        pid: stock.pid,
        manufacturer: stock.manufacturer,
        product_name: stock.product_name,
        serial_number: stock.serial_number,
    }
}

/// The keyboard's identity: its own numbers and names, and the framework's
/// serial number.
pub fn device_config() -> (config: DeviceConfig)
    ensures
        config.vid == 0x1313,
        config.pid == 0x1208,
        config.manufacturer@ == "ZT"@,
        config.product_name@ == "Keypoint"@,
        config.serial_number@ == "vial:f64c2b3c;rmk:0.9.0"@,
{
    DeviceConfig {
        vid: 0x1313,
        pid: 0x1208,
        manufacturer: "ZT",
        product_name: "Keypoint",
        ..stock_device_config()
    }
}

/// What the Vial configurator is told.
#[derive(Clone, Copy, Debug)]
pub struct VialConfig<'a> {
    /// The keyboard's number in Vial.
    pub vial_keyboard_id: &'a [u8],
    /// The keyboard's packed definition.
    pub vial_keyboard_def: &'a [u8],
    /// Row and column of the keys that together unlock the keyboard.
    pub unlock_keys: &'a [(u8, u8)],
    /// Whether the keyboard is always unlocked.
    pub insecure: bool,
}

/// `rmk::config::VialConfig::new`: the three parts as given, on a keyboard that
/// has to be unlocked.
#[verifier::external_body]
fn new_vial_config<'a>(
    vial_keyboard_id: &'a [u8],
    vial_keyboard_def: &'a [u8],
    unlock_keys: &'a [(u8, u8)],
) -> (config: VialConfig<'a>)
    ensures
        config.vial_keyboard_id@ == vial_keyboard_id@,
        config.vial_keyboard_def@ == vial_keyboard_def@,
        config.unlock_keys@ == unlock_keys@,
        !config.insecure,
{
    let made = rmk::config::VialConfig::new(vial_keyboard_id, vial_keyboard_def, unlock_keys);
    VialConfig {
        vial_keyboard_id: made.vial_keyboard_id,
        vial_keyboard_def: made.vial_keyboard_def,
        unlock_keys: made.unlock_keys,
        insecure: made.insecure,
    }
}

/// The Vial set-up of a keyboard with the given number and definition. The keys
/// that unlock it are the first key of the first row and the second of the
/// second: two keys of this half, so that it unlocks without the other.
pub fn vial_config<'a>(vial_keyboard_id: &'a [u8], vial_keyboard_def: &'a [u8]) -> (config:
    VialConfig<'a>)
    ensures
        config.vial_keyboard_id@ == vial_keyboard_id@,
        config.vial_keyboard_def@ == vial_keyboard_def@,
        config.unlock_keys@ == seq![(0u8, 0u8), (1u8, 1u8)],
        forall|i: int|
            0 <= i < config.unlock_keys@.len() ==> on_this_half(
                ((#[trigger] config.unlock_keys@[i]).0 as int, config.unlock_keys@[i].1 as int),
            ),
        !config.insecure,
{
    let unlock_keys: &'static [(u8, u8)] = &[(0, 0), (1, 1)];
    assert(unlock_keys@ =~= seq![(0u8, 0u8), (1u8, 1u8)]);
    new_vial_config(vial_keyboard_id, vial_keyboard_def, unlock_keys)
}

/// Where the settings are kept in flash.
#[derive(Clone, Copy, PartialEq, Eq, Structural, Debug)]
pub struct StorageConfig {
    /// The first byte; 0 stands for the end of flash.
    pub start_addr: usize,
    /// The sectors in use.
    pub num_sectors: u8,
    /// Whether to drop everything stored.
    pub clear_storage: bool,
    /// Whether to drop the stored key map.
    pub clear_layout: bool,
}

impl StorageConfig {
    /// The byte behind the last one in use.
    pub open spec fn end_addr(self) -> int {
        self.start_addr + self.num_sectors * FLASH_SECTOR
    }
}

/// `rmk::config::StorageConfig::default`: two sectors at the end of flash, and
/// nothing dropped.
#[verifier::external_body]
fn stock_storage_config() -> (config: StorageConfig)
    ensures
        config == (StorageConfig {
            start_addr: 0,
            num_sectors: 2,
            clear_storage: false,
            clear_layout: false,
        }),
{
    let stock = rmk::config::StorageConfig::default();
    StorageConfig {
        start_addr: stock.start_addr,
        num_sectors: stock.num_sectors,
        clear_storage: stock.clear_storage,
        clear_layout: stock.clear_layout,
    }
}

/// Six sectors from 640 KiB on, and nothing dropped. The settings lie on whole
/// sectors, on at least the two that the store needs, and within the flash.
pub fn storage_config() -> (config: StorageConfig)
    ensures
        config == (StorageConfig {
            start_addr: 0xa_0000,
            num_sectors: 6,
            clear_storage: false,
            clear_layout: false,
        }),
        config.start_addr % FLASH_SECTOR == 0,
        config.num_sectors >= 2,
        config.end_addr() <= FLASH_SIZE,
        config.end_addr() == 0xa_6000,
{
    StorageConfig { start_addr: 0xa_0000, num_sectors: 6, ..stock_storage_config() }
}

/// The settings reach over whole sectors of 4096 bytes, one after another.
pub proof fn law_each_sector_adds_its_bytes(config: StorageConfig)
    ensures
        config.end_addr() - config.start_addr == 4096 * config.num_sectors,
{
}

/// How the charger is watched.
#[derive(Clone, Copy, PartialEq, Eq, Structural, Debug)]
pub struct BleBatteryConfig {
    /// The pin that tells whether the cell is charging.
    pub charge_state_pin: Option<Pin>,
    /// Whether that pin is low while charging.
    pub charge_state_low_active: bool,
    /// The pin of the charging indicator.
    pub charge_led_pin: Option<Pin>,
    /// Whether that indicator lights when its pin is low.
    pub charge_led_low_active: bool,
}

/// The charger is not watched: neither pin is wired.
pub fn ble_battery_config() -> (config: BleBatteryConfig)
    ensures
        config == (BleBatteryConfig {
            charge_state_pin: None,
            charge_state_low_active: true,
            charge_led_pin: None,
            charge_led_low_active: false,
        }),
{
    BleBatteryConfig {
        charge_state_pin: None,
        charge_state_low_active: true,
        charge_led_pin: None,
        charge_led_low_active: false,
    }
}

/// The keyboard's settings for the firmware framework.
pub struct RmkConfig<'a> {
    /// The keyboard's identity.
    pub device_config: DeviceConfig,
    /// What the Vial configurator is told.
    pub vial_config: VialConfig<'a>,
    /// How the charger is watched.
    pub ble_battery_config: BleBatteryConfig,
    /// Where the settings are kept.
    pub storage_config: StorageConfig,
}

/// The keyboard's settings, for a given Vial number and definition.
pub fn rmk_config<'a>(vial_keyboard_id: &'a [u8], vial_keyboard_def: &'a [u8]) -> (config:
    RmkConfig<'a>)
    ensures
        config.device_config.vid == 0x1313,
        config.device_config.pid == 0x1208,
        config.device_config.manufacturer@ == "ZT"@,
        config.device_config.product_name@ == "Keypoint"@,
        config.device_config.serial_number@ == "vial:f64c2b3c;rmk:0.9.0"@,
        config.vial_config.vial_keyboard_id@ == vial_keyboard_id@,
        config.vial_config.vial_keyboard_def@ == vial_keyboard_def@,
        config.vial_config.unlock_keys@ == seq![(0u8, 0u8), (1u8, 1u8)],
        !config.vial_config.insecure,
        config.ble_battery_config == (BleBatteryConfig {
            charge_state_pin: None,
            charge_state_low_active: true,
            charge_led_pin: None,
            charge_led_low_active: false,
        }),
        config.storage_config == (StorageConfig {
            start_addr: 0xa_0000,
            num_sectors: 6,
            clear_storage: false,
            clear_layout: false,
        }),
{
    RmkConfig {
        device_config: device_config(),
        vial_config: vial_config(vial_keyboard_id, vial_keyboard_def),
        ble_battery_config: ble_battery_config(),
        storage_config: storage_config(),
    }
}

} // verus!
