use keypoint_central::clock::{lfclk_config, LfclkConfig};
use keypoint_central::layout::peripheral_matrix;
use keypoint_central::panel::{panel_config, PanelRot};
use keypoint_central::schedule::{run_order, Runner};
use keypoint_central::sensing::{
    adc_config, battery_divider, encoder_config, pointing_config, AnalogEventType, EncoderConfig,
    PAD_DEVICE_ID,
};
use keypoint_central::ticks::TICK_HZ;
use keypoint_central::wiring::{wiring, Pin};

#[test]
fn clock_takes_the_recommended_calibration() {
    assert_eq!(
        lfclk_config(0, 16, 2, 0),
        LfclkConfig {
            source: 0,
            rc_ctiv: 16,
            rc_temp_ctiv: 2,
            accuracy_ppm: 500,
            skip_wait_lfclk_started: false,
        }
    );
}

#[test]
fn clock_numbers_are_cut_to_a_byte() {
    let c = lfclk_config(0x101, 0x1ff, 0xffff_ff00, 0x100);
    assert_eq!((c.source, c.rc_ctiv, c.rc_temp_ctiv), (1, 255, 0));
    assert!(c.skip_wait_lfclk_started);
}

#[test]
fn halves_tile_the_key_map() {
    let m = peripheral_matrix();
    assert_eq!((m.rows, m.cols, m.row_offset, m.col_offset), (6, 8, 6, 0));
    let mut owners = [[0u8; 8]; 12];
    for row in 0..6usize {
        for col in 0..8usize {
            owners[row][col] += 1;
            owners[row + m.row_offset as usize][col + m.col_offset as usize] += 1;
        }
    }
    assert!(owners.iter().flatten().all(|n| *n == 1));
}

#[test]
fn panel_is_portrait_and_throttled() {
    let p = panel_config();
    assert_eq!(p.rotation, PanelRot::R270);
    assert_eq!(p.min_render_interval_ticks, 4_916);
}

#[test]
fn ticks_match_the_clock() {
    assert_eq!(TICK_HZ, embassy_time::TICK_HZ);
    assert_eq!(embassy_time::Duration::from_millis(150).as_ticks(), 4_916);
    assert_eq!(embassy_time::Duration::from_millis(0).as_ticks(), 0);
    assert_eq!(embassy_time::Duration::from_millis(1).as_ticks(), 33);
}

#[test]
fn sampler_reads_the_battery_every_twelve_seconds() {
    let a = adc_config();
    assert_eq!(a.events, [AnalogEventType::Battery]);
    assert_eq!(a.event_device_ids, [0]);
    assert_eq!(a.polling_interval_ticks, 393_216);
    assert_eq!(a.light_sleep_ticks, None);
}

#[test]
fn gauge_reads_full_from_3349_on() {
    let d = battery_divider();
    assert_eq!((d.measured, d.total), (2000, 2840));
    for sample in 0..=u16::MAX {
        let before = u32::from(sample) * d.total / d.measured;
        assert_eq!(before >= 4755, sample >= 3349);
        assert_eq!(before >= 4755, u32::from(sample) > 4755 * d.measured / d.total);
    }
}

#[test]
fn knob_turns_on_every_fourth_edge() {
    assert_eq!(
        encoder_config(),
        EncoderConfig {
            resolution: 4,
            reverse: false,
            id: 0,
        }
    );
}

#[test]
fn pointers_keep_their_axes() {
    for id in [PAD_DEVICE_ID, 1, 254] {
        let p = pointing_config(id);
        assert_eq!(p.device_id, id);
        assert!(!p.invert_x && !p.invert_y && !p.swap_xy);
    }
    assert_eq!(PAD_DEVICE_ID, 0);
}

#[test]
fn every_task_starts_once_and_devices_come_first() {
    let order = run_order();
    for (i, a) in order.iter().enumerate() {
        for b in &order[i + 1..] {
            assert_ne!(a, b);
        }
    }
    let at = |runner: Runner| order.iter().position(|r| *r == runner).unwrap();
    assert_eq!(at(Runner::Matrix), 0);
    assert_eq!(at(Runner::WatchdogRunner), 17);
    for processor in [
        Runner::PadProcessor,
        Runner::TpProcessor,
        Runner::ScrollController,
        Runner::AutoMouse,
        Runner::SpeedController,
    ] {
        assert!(at(Runner::A320) < at(processor));
    }
}

#[test]
fn no_pin_is_wired_twice_and_spares_are_free() {
    let w = wiring();
    let mut pins: Vec<Pin> = Vec::new();
    pins.extend(w.rows);
    pins.extend(w.cols);
    pins.extend([
        w.battery,
        w.encoder_a,
        w.encoder_b,
        w.pad_sda,
        w.pad_scl,
        w.pad_motion,
        w.panel_sck,
        w.panel_mosi,
        w.panel_cs,
        w.link_led,
    ]);
    assert_eq!(pins.len(), 24);
    for (i, a) in pins.iter().enumerate() {
        assert!(!pins[i + 1..].contains(a));
    }
    assert!(!pins.contains(&Pin { port: 1, number: 9 }));
    assert!(!pins.contains(&Pin { port: 0, number: 10 }));
    assert_eq!(w.battery, Pin { port: 0, number: 3 });
    assert_eq!(w.link_led, Pin { port: 0, number: 7 });
    assert_eq!(w.rows[3], Pin { port: 1, number: 8 });
    assert_eq!(w.cols[5], Pin { port: 1, number: 0 });
}
