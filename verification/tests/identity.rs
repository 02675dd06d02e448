use keypoint_central::identity::{
    ble_battery_config, device_config, rmk_config, storage_config, vial_config, BleBatteryConfig,
};

#[test]
fn device_has_its_own_names_and_the_stock_serial() {
    let d = device_config();
    assert_eq!(d.vid, 0x1313);
    assert_eq!(d.pid, 0x1208);
    assert_eq!(d.manufacturer, "ZT");
    assert_eq!(d.product_name, "Keypoint");
    assert_eq!(d.serial_number, "vial:f64c2b3c;rmk:0.9.0");
    assert_eq!(d.serial_number, rmk::config::RMK_BUILD_INFO);
}

#[test]
fn vial_takes_number_and_definition_as_given() {
    let id = [1u8, 2, 3];
    let def = [9u8; 4];
    let v = vial_config(&id, &def);
    assert_eq!(v.vial_keyboard_id, id);
    assert_eq!(v.vial_keyboard_def, def);
    assert_eq!(v.unlock_keys, [(0, 0), (1, 1)]);
    assert!(!v.insecure);
}

#[test]
fn settings_lie_in_six_sectors() {
    let s = storage_config();
    assert_eq!(s.start_addr, 0xa0000);
    assert_eq!(s.num_sectors, 6);
    assert!(!s.clear_storage);
    assert!(!s.clear_layout);
    assert_eq!(s.start_addr % 4096, 0);
}

#[test]
fn charger_is_not_watched() {
    assert_eq!(
        ble_battery_config(),
        BleBatteryConfig {
            charge_state_pin: None,
            charge_state_low_active: true,
            charge_led_pin: None,
            charge_led_low_active: false,
        }
    );
}

#[test]
fn settings_are_put_together() {
    let id = [7u8];
    let def = [8u8, 8];
    let c = rmk_config(&id, &def);
    assert_eq!(c.device_config.product_name, "Keypoint");
    assert_eq!(c.vial_config.vial_keyboard_id, id);
    assert_eq!(c.vial_config.vial_keyboard_def, def);
    assert_eq!(c.ble_battery_config, ble_battery_config());
    assert_eq!(c.storage_config, storage_config());
}
