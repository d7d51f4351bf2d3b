use simplebluetooth::bt::{DeviceKind, RadioState};
use simplebluetooth::clock::Span;
use simplebluetooth::labels::{
    bar_fill, bar_level, choose_fill, cod_label, kind_label, radio_label, radio_label_colored,
    rssi_text_with_age, Rgb, Rgba,
};

fn span(millis: u64) -> Span {
    Span { nanos: millis * 1_000_000 }
}

#[test]
fn major_classes_have_names() {
    assert_eq!(cod_label(0x0100), "Computer");
    assert_eq!(cod_label(0x0200), "Phone");
    assert_eq!(cod_label(0x0300), "LAN/Access Point");
    assert_eq!(cod_label(0x0400), "Audio/Video");
    assert_eq!(cod_label(0x0500), "Peripheral (Mouse/KB)");
    assert_eq!(cod_label(0x0600), "Imaging (Printer)");
    assert_eq!(cod_label(0x0700), "Wearable");
    assert_eq!(cod_label(0x0800), "Toy");
    assert_eq!(cod_label(0x0900), "Health");
}

#[test]
fn other_major_classes_are_uncategorized() {
    assert_eq!(cod_label(0), "Uncategorized");
    assert_eq!(cod_label(0x0A00), "Uncategorized");
    assert_eq!(cod_label(0x1F00), "Uncategorized");
}

#[test]
fn only_the_major_class_counts() {
    assert_eq!(cod_label(0x0024_0404), "Audio/Video");
    assert_eq!(cod_label(0xFFFF_E4FF), "Audio/Video");
    assert_eq!(cod_label(0x0000_2100), cod_label(0x0000_0100));
}

#[test]
fn device_families_have_names() {
    assert_eq!(kind_label(DeviceKind::Classic), "Classic");
    assert_eq!(kind_label(DeviceKind::Ble), "BLE");
}

#[test]
fn radio_states_have_names_and_colours() {
    let dark = |r: u8, g: u8, b: u8| Rgb { r, g, b };
    assert_eq!(radio_label_colored(RadioState::On, true), ("ON", dark(120, 220, 140)));
    assert_eq!(radio_label_colored(RadioState::On, false), ("ON", dark(30, 130, 60)));
    assert_eq!(radio_label_colored(RadioState::Off, true), ("OFF", dark(240, 130, 130)));
    assert_eq!(radio_label_colored(RadioState::Off, false), ("OFF", dark(180, 40, 40)));
    assert_eq!(radio_label_colored(RadioState::Disabled, true), ("無効", dark(240, 130, 130)));
    assert_eq!(radio_label_colored(RadioState::Absent, false), ("無し", dark(180, 40, 40)));
    assert_eq!(radio_label_colored(RadioState::Unknown, true), ("?", dark(200, 200, 200)));
    assert_eq!(radio_label_colored(RadioState::Unknown, false), ("?", dark(80, 80, 80)));
}

#[test]
fn plain_radio_names_agree_with_coloured_ones() {
    for r in [
        RadioState::On,
        RadioState::Off,
        RadioState::Disabled,
        RadioState::Absent,
        RadioState::Unknown,
    ] {
        assert_eq!(radio_label(r), radio_label_colored(r, true).0);
    }
}

#[test]
fn missing_signal_is_shown_as_dashes() {
    assert_eq!(rssi_text_with_age(None, None), "-- dBm");
    assert_eq!(rssi_text_with_age(None, Some(span(60_000))), "-- dBm");
}

#[test]
fn recent_signal_is_shown_without_age() {
    assert_eq!(rssi_text_with_age(Some(-62), None), "-62 dBm");
    assert_eq!(rssi_text_with_age(Some(-62), Some(span(0))), "-62 dBm");
    assert_eq!(rssi_text_with_age(Some(-62), Some(span(4_999))), "-62 dBm");
}

#[test]
fn old_signal_is_shown_with_age() {
    assert_eq!(rssi_text_with_age(Some(-62), Some(span(5_000))), "-62 dBm (5s 前)");
    assert_eq!(rssi_text_with_age(Some(-62), Some(span(125_999))), "-62 dBm (125s 前)");
}

#[test]
fn extreme_signal_strengths_are_written_in_full() {
    assert_eq!(rssi_text_with_age(Some(i32::MIN), None), "-2147483648 dBm");
    assert_eq!(rssi_text_with_age(Some(i32::MAX), None), "2147483647 dBm");
    assert_eq!(rssi_text_with_age(Some(0), None), "0 dBm");
}

#[test]
fn bar_is_empty_at_minus_100_and_full_at_0() {
    assert_eq!(bar_level(i32::MIN), 0);
    assert_eq!(bar_level(-100), 0);
    assert_eq!(bar_level(-99), 1);
    assert_eq!(bar_level(-50), 50);
    assert_eq!(bar_level(-1), 99);
    assert_eq!(bar_level(0), 100);
    assert_eq!(bar_level(i32::MAX), 100);
}

#[test]
fn stronger_signal_has_fuller_bar() {
    for v in -130..10 {
        assert!(bar_level(v) <= bar_level(v + 1));
    }
}

#[test]
fn bar_follows_the_ratio_of_the_signal() {
    for v in -150..20 {
        let ratio = ((v as f32 + 100.0) / 100.0).clamp(0.0, 1.0);
        assert_eq!(bar_level(v) as f32 / 100.0, ratio);
    }
}

#[test]
fn fresh_bar_keeps_its_colour() {
    let c = Rgb { r: 200, g: 60, b: 60 };
    assert_eq!(bar_fill(c, false), Rgba { r: 200, g: 60, b: 60, a: 255 });
}

#[test]
fn old_bar_is_translucent() {
    let c = Rgb { r: 210, g: 180, b: 40 };
    let dim = bar_fill(c, true);
    let expected = egui::Color32::from_rgba_unmultiplied(210, 180, 40, 100);
    assert_eq!([dim.r, dim.g, dim.b, dim.a], expected.to_array());
    assert_eq!(dim.a, 100);
    assert!(dim.r < 210 && dim.g < 180 && dim.b < 40);
}

#[test]
fn translucent_black_stays_black_and_grey_stays_grey() {
    assert_eq!(bar_fill(Rgb { r: 0, g: 0, b: 0 }, true), Rgba { r: 0, g: 0, b: 0, a: 100 });
    let grey = bar_fill(Rgb { r: 128, g: 128, b: 128 }, true);
    assert!(grey.r == grey.g && grey.g == grey.b);
}

#[test]
fn small_channels_are_scaled_by_the_opacity() {
    let dim = bar_fill(Rgb { r: 10, g: 5, b: 1 }, true);
    assert_eq!(dim, Rgba { r: 4, g: 2, b: 0, a: 100 });
    for v in 0..=10u8 {
        for a in 0..=255u8 {
            let c = egui::Color32::from_rgba_unmultiplied(v, v, v, a).to_array();
            let scaled = (2 * v as u32 * a as u32 + 255) / 510;
            assert_eq!(c[0] as u32, scaled);
        }
    }
}

#[test]
fn fill_is_chosen_by_age() {
    let c = Rgb { r: 1, g: 2, b: 3 };
    assert_eq!(choose_fill(c, false, [9, 8, 7, 6]), Rgba { r: 1, g: 2, b: 3, a: 255 });
    assert_eq!(choose_fill(c, true, [9, 8, 7, 6]), Rgba { r: 9, g: 8, b: 7, a: 6 });
}
