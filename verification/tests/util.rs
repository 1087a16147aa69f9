use rusty_lights::audio::pcm::{decode_s16le, sample_from_le_bytes};
use rusty_lights::config::{resolve_config, ConfigLocation, LedConfig};
use rusty_lights::util::{gamma_correct, reorder_leds, reorder_rgb, ColorOrder, GAMMA_LUT};
use rusty_lights::wled::{apply_wled_config, color_order_from_wled};
use rusty_lights::audio::BackendKind;
use rusty_lights::Rgb;

#[test]
fn test_reorder_grb() {
    let mut data = [1, 2, 3, 4, 5, 6];
    reorder_rgb(&mut data, "GRB");
    assert_eq!(data, [2, 1, 3, 5, 4, 6]);
}

#[test]
fn test_reorder_bgr() {
    let mut data = [1, 2, 3];
    reorder_rgb(&mut data, "BGR");
    assert_eq!(data, [3, 2, 1]);
}

#[test]
fn test_gamma_lut() {
    assert_eq!(GAMMA_LUT[0], 0);
    assert_eq!(GAMMA_LUT[255], 255);
    // Mid values should be lower due to gamma
    assert!(GAMMA_LUT[128] < 128);
}

#[test]
fn gamma_correct_uses_table() {
    assert_eq!(gamma_correct(128), 56);
    assert_eq!(gamma_correct(240), 223);
    assert_eq!(gamma_correct(254), 253);
    for v in 0..=255u8 {
        assert!(gamma_correct(v) <= v);
        let expected = (255.0 * (v as f64 / 255.0).powf(2.2)).round() as u8;
        assert_eq!(gamma_correct(v), expected);
    }
}

#[test]
fn reorder_all_orders_and_partial_triple() {
    let cases: [(&str, [u8; 3]); 6] = [
        ("RGB", [1, 2, 3]),
        ("GRB", [2, 1, 3]),
        ("BGR", [3, 2, 1]),
        ("RBG", [1, 3, 2]),
        ("BRG", [3, 1, 2]),
        ("GBR", [2, 3, 1]),
    ];
    for (name, expected) in cases {
        let mut data = [1u8, 2, 3, 8, 9];
        reorder_rgb(&mut data, name);
        assert_eq!(&data[..3], &expected);
        assert_eq!(&data[3..], &[8, 9]);
    }
}

#[test]
fn reorder_is_case_insensitive_and_ignores_unknown() {
    let mut data = [1u8, 2, 3];
    reorder_rgb(&mut data, "brg");
    assert_eq!(data, [3, 1, 2]);
    let mut data = [1u8, 2, 3];
    reorder_rgb(&mut data, "XYZ");
    assert_eq!(data, [1, 2, 3]);
    let mut data = [1u8, 2, 3];
    reorder_rgb(&mut data, "GRBX");
    assert_eq!(data, [1, 2, 3]);
}

#[test]
fn reorder_then_inverse_restores() {
    let mut data = [1u8, 2, 3, 4, 5, 6];
    reorder_rgb(&mut data, "BRG");
    reorder_rgb(&mut data, "GBR");
    assert_eq!(data, [1, 2, 3, 4, 5, 6]);
}

#[test]
fn reorder_leds_by_name() {
    let mut leds = [Rgb::new(1, 2, 3), Rgb::new(4, 5, 6)];
    reorder_leds(&mut leds, "grb");
    assert_eq!(leds, [Rgb::new(2, 1, 3), Rgb::new(5, 4, 6)]);
}

#[test]
fn color_order_names() {
    assert_eq!(ColorOrder::from_name("gbr"), Some(ColorOrder::Gbr));
    assert_eq!(ColorOrder::from_exact_name("gbr"), None);
    assert_eq!(ColorOrder::Brg.name(), "BRG");
}

#[test]
fn wled_order_codes() {
    assert_eq!(color_order_from_wled(0), "GRB");
    assert_eq!(color_order_from_wled(1), "RGB");
    assert_eq!(color_order_from_wled(2), "BRG");
    assert_eq!(color_order_from_wled(3), "RBG");
    assert_eq!(color_order_from_wled(4), "BGR");
    assert_eq!(color_order_from_wled(5), "GBR");
    assert_eq!(color_order_from_wled(6), "GRB");
    assert_eq!(color_order_from_wled(0x21), "RGB");
}

#[test]
fn wled_fills_only_unset_fields() {
    let mut cfg = LedConfig::default();
    assert!(apply_wled_config(&mut cfg, Some(144), Some(4)));
    assert_eq!(cfg.count, Some(144));
    assert_eq!(cfg.rgb_order.as_deref(), Some("BGR"));
    assert!(!apply_wled_config(&mut cfg, Some(10), Some(1)));
    assert_eq!(cfg.count, Some(144));
    assert_eq!(cfg.order(), "BGR");

    let mut cfg = LedConfig { count: None, rgb_order: Some("RGB".to_string()) };
    assert!(!apply_wled_config(&mut cfg, None, None));
    assert_eq!(cfg.led_count(), 300);
    assert!(apply_wled_config(&mut cfg, None, Some(2)) == false);
    assert_eq!(cfg.order(), "RGB");
}

#[test]
fn led_config_defaults() {
    let cfg = LedConfig::default();
    assert_eq!(cfg.led_count(), 300);
    assert_eq!(cfg.order(), "GRB");
}

#[test]
fn config_location_chain() {
    assert_eq!(resolve_config(true, true), ConfigLocation::CommandLine);
    assert_eq!(resolve_config(false, true), ConfigLocation::System);
    assert_eq!(resolve_config(false, false), ConfigLocation::Local);
}

#[test]
fn pcm_decoding() {
    assert_eq!(sample_from_le_bytes(0x34, 0x12), 0x1234);
    assert_eq!(sample_from_le_bytes(0xFF, 0xFF), -1);
    assert_eq!(sample_from_le_bytes(0x00, 0x80), i16::MIN);
    // Two stereo frames and a partial one.
    let bytes = [1u8, 0, 2, 0, 3, 0, 0xFE, 0xFF, 9, 9, 9];
    assert_eq!(decode_s16le(&bytes, bytes.len(), 2), vec![1, 2, 3, -2]);
    assert_eq!(decode_s16le(&bytes, 3, 1), vec![1]);
}

#[test]
fn backends_are_chosen_by_name_in_any_case() {
    assert_eq!(BackendKind::from_name("fifo"), Some(BackendKind::Fifo));
    assert_eq!(BackendKind::from_name("PipeWire"), Some(BackendKind::PipeWire));
    assert_eq!(BackendKind::from_name("ALSA"), Some(BackendKind::Alsa));
    assert_eq!(BackendKind::from_name("Auto"), Some(BackendKind::Auto));
    assert_eq!(BackendKind::from_name("jack"), None);
    assert_eq!(BackendKind::from_name(""), None);
    assert_eq!(BackendKind::Fifo.name(), "fifo");
}
