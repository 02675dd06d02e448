use keypoint_central::behavior::{
    auto_mouse_layers, behavior_config, with_tapping_term, MOUSE_LAYER, MOUSE_LAYER_CAPACITY,
    NUM_LAYERS,
};
use rmk::types::morse::{MorseMode, MorseProfile};

#[test]
fn behavior_sets_tapping_term_and_flow_tap() {
    let b = behavior_config(0, 1);
    assert!(b.enable_flow_tap);
    assert_eq!(b.default_profile, 0xc1f5_004b);
    let profile = MorseProfile::from(b.default_profile);
    assert_eq!(profile.hold_timeout_ms(), Some(75));
    assert_eq!(profile.gap_timeout_ms(), Some(250));
    assert_eq!(profile.unilateral_tap(), Some(false));
    assert_eq!(profile.mode(), Some(MorseMode::Normal));
    assert_eq!(profile.enable_flow_tap(), None);
    assert_eq!(profile.quick_tap_timeout_ms(), None);
}

#[test]
fn tapping_term_leaves_other_settings_alone() {
    let profile = MorseProfile::new(
        Some(true),
        Some(MorseMode::PermissiveHold),
        Some(8191),
        Some(321),
    )
    .with_quick_tap_timeout_ms(Some(17))
    .with_enable_flow_tap(Some(false));
    let changed = MorseProfile::from(with_tapping_term(u64::from(profile)));
    assert_eq!(changed.hold_timeout_ms(), Some(75));
    assert_eq!(changed.gap_timeout_ms(), Some(321));
    assert_eq!(changed.unilateral_tap(), Some(true));
    assert_eq!(changed.mode(), Some(MorseMode::PermissiveHold));
    assert_eq!(changed.quick_tap_timeout_ms(), Some(17));
    assert_eq!(changed.enable_flow_tap(), Some(false));
}

#[test]
fn tapping_term_fills_an_empty_profile_and_a_full_one() {
    assert_eq!(with_tapping_term(0), 75);
    assert_eq!(with_tapping_term(u64::MAX), 0xffff_ffff_ffff_e04b);
}

#[test]
fn each_pointer_has_its_window_on_the_mouse_layer() {
    let layers = auto_mouse_layers(3, 9);
    let pad = layers.get(0).unwrap();
    assert_eq!(pad.device_id, Some(3));
    assert_eq!(pad.target_layer, 4);
    assert_eq!(pad.timeout_ticks, 16_384);
    assert_eq!(pad.threshold, 1);
    assert!(!pad.deactivate_on_key);
    assert!(pad.extra_mouse_keys.is_empty());
    assert!(!pad.reset_timeout_on_key);
    let nub = layers.get(1).unwrap();
    assert_eq!(nub.device_id, Some(9));
    assert_eq!(nub.target_layer, 4);
    assert_eq!(nub.timeout_ticks, 32_768);
    assert_eq!(nub.threshold, 1);
    assert!(!nub.deactivate_on_key);
    assert!(nub.extra_mouse_keys.is_empty());
    assert!(!nub.reset_timeout_on_key);
    assert!(layers.get(2).is_none());
    assert!(layers.get(usize::MAX).is_none());
}

#[test]
fn mouse_layer_is_in_the_key_map() {
    assert_eq!(MOUSE_LAYER, 4);
    assert!(MOUSE_LAYER < NUM_LAYERS);
}

#[test]
fn mouse_layer_entries_fit_the_framework() {
    assert!(rmk::types::constants::AUTO_MOUSE_LAYER_MAX_NUM >= MOUSE_LAYER_CAPACITY);
}
