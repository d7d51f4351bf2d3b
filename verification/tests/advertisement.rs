use simplebluetooth::advertisement::{
    advertisement_event, identify_switchbot, switchbot_ascii, switchbot_code, timespan_ticks,
    Advertisement, DataSection, Received, SAMPLING_INTERVAL_MS,
};
use simplebluetooth::bt::Event;

fn section(data_type: u8, data: &[u8]) -> DataSection {
    DataSection { data_type: Some(data_type), data: Some(data.to_vec()) }
}

fn older(payload: &[u8]) -> DataSection {
    let mut data = vec![0x3D, 0xFD];
    data.extend_from_slice(payload);
    section(0x16, &data)
}

fn newer(payload: &[u8]) -> DataSection {
    let mut data = vec![0xD2, 0xFC];
    data.extend_from_slice(payload);
    section(0x16, &data)
}

fn hub3() -> DataSection {
    older(&[0, 0, 0, 0x00, 0x10, 0xB9, 0x40])
}

fn lock_ultra() -> DataSection {
    older(&[0, 0, 0, 0x01, 0x10, 0xA5, 0xB8])
}

fn model(sections: Vec<DataSection>) -> Option<String> {
    identify_switchbot(&sections)
}

#[test]
fn letters_name_models() {
    assert_eq!(switchbot_ascii(b'H'), Some("SwitchBot Bot"));
    assert_eq!(switchbot_ascii(b'T'), Some("SwitchBot Meter"));
    assert_eq!(switchbot_ascii(b'i'), Some("SwitchBot Meter Plus"));
    assert_eq!(switchbot_ascii(b'{'), Some("SwitchBot Curtain 3"));
    for (letters, name) in [
        (b"wW", "SwitchBot Meter Pro"),
        (b"cC", "SwitchBot Curtain"),
        (b"dD", "SwitchBot Contact"),
        (b"sS", "SwitchBot Motion"),
        (b"rR", "SwitchBot Light Strip"),
        (b"jJ", "SwitchBot Plug Mini (JP)"),
        (b"gG", "SwitchBot Plug Mini"),
        (b"uU", "SwitchBot Color Bulb"),
        (b"eE", "SwitchBot Humidifier"),
        (b"yY", "SwitchBot Keypad"),
        (b"vV", "SwitchBot Hub 2"),
        (b"oO", "SwitchBot Lock"),
        (b"lL", "SwitchBot Blind Tilt"),
    ] {
        assert_eq!(switchbot_ascii(letters[0]), Some(name));
        assert_eq!(switchbot_ascii(letters[1]), Some(name));
    }
}

#[test]
fn other_letters_name_nothing() {
    for letter in [b'h', b't', b'I', b'a', b'Z', b'0', 0, 0x7F, 0xC8] {
        assert_eq!(switchbot_ascii(letter), None);
    }
}

#[test]
fn codes_name_models() {
    for first in [0u8, 1] {
        assert_eq!(switchbot_code(first, 0x10, 0xB9, 0x40), Some("SwitchBot Hub 3"));
        assert_eq!(switchbot_code(first, 0x10, 0xA5, 0xB8), Some("SwitchBot Lock Ultra"));
        assert_eq!(switchbot_code(first, 0x11, 0x03, 0x78), Some("SwitchBot Keypad Vision"));
        assert_eq!(switchbot_code(first, 0x11, 0x51, 0x98), Some("SwitchBot Keypad Vision Pro"));
    }
}

#[test]
fn other_codes_name_nothing() {
    assert_eq!(switchbot_code(2, 0x10, 0xB9, 0x40), None);
    assert_eq!(switchbot_code(0, 0x10, 0xB9, 0x41), None);
    assert_eq!(switchbot_code(0, 0x11, 0xB9, 0x40), None);
}

#[test]
fn model_is_found_by_letter_under_both_services() {
    assert_eq!(model(vec![older(b"H")]), Some("SwitchBot Bot".to_string()));
    assert_eq!(model(vec![newer(b"T\x00")]), Some("SwitchBot Meter".to_string()));
}

#[test]
fn highest_bit_of_the_letter_does_not_count() {
    assert_eq!(model(vec![older(&[b'H' | 0x80])]), Some("SwitchBot Bot".to_string()));
}

#[test]
fn model_is_found_by_code() {
    assert_eq!(model(vec![hub3()]), Some("SwitchBot Hub 3".to_string()));
    assert_eq!(model(vec![lock_ultra()]), Some("SwitchBot Lock Ultra".to_string()));
}

#[test]
fn short_code_is_no_code() {
    assert_eq!(model(vec![older(&[0, 0, 0, 0x00, 0x10, 0xB9])]), None);
}

#[test]
fn letter_wins_over_code_of_the_same_section() {
    let both = older(&[b'H', 0, 0, 0x00, 0x10, 0xB9, 0x40]);
    assert_eq!(model(vec![both]), Some("SwitchBot Bot".to_string()));
}

#[test]
fn last_code_counts_but_first_letter_ends_the_search() {
    assert_eq!(model(vec![hub3(), lock_ultra()]), Some("SwitchBot Lock Ultra".to_string()));
    assert_eq!(
        model(vec![hub3(), older(b"H"), older(b"T"), lock_ultra()]),
        Some("SwitchBot Bot".to_string())
    );
    assert_eq!(model(vec![hub3(), older(&[1])]), Some("SwitchBot Hub 3".to_string()));
}

#[test]
fn other_sections_do_not_matter() {
    assert_eq!(model(vec![]), None);
    assert_eq!(model(vec![section(0x09, &[0x3D, 0xFD, b'H'])]), None);
    assert_eq!(model(vec![section(0x16, &[0xFD, 0x3D, b'H'])]), None);
    assert_eq!(model(vec![section(0x16, &[0x3D, 0xFD])]), None);
    assert_eq!(model(vec![section(0x16, &[0x3D])]), None);
    assert_eq!(model(vec![DataSection { data_type: Some(0x16), data: None }]), None);
    let untyped = DataSection { data_type: None, data: Some(vec![0x3D, 0xFD, b'H']) };
    assert_eq!(model(vec![untyped, hub3()]), Some("SwitchBot Hub 3".to_string()));
}

#[test]
fn advertisement_becomes_a_sighting() {
    let e = advertisement_event(Received {
        address: Some(0xAABB),
        rssi: Some(-70),
        advertisement: Some(Advertisement {
            local_name: Some("WoHand".to_string()),
            companies: vec![Some(0x0969), Some(0x004C)],
            sections: vec![older(b"H")],
        }),
    });
    match e {
        Some(Event::NearbyBleSeen { address, rssi, name, mfr_company, model_hint }) => {
            assert_eq!(address, 0xAABB);
            assert_eq!(rssi, -70);
            assert_eq!(name, Some("WoHand".to_string()));
            assert_eq!(mfr_company, Some(0x0969));
            assert_eq!(model_hint, Some("SwitchBot Bot".to_string()));
        }
        _ => panic!("no sighting"),
    }
}

#[test]
fn out_of_range_advertisement_is_dropped() {
    let received = Received { address: Some(1), rssi: Some(-127), advertisement: None };
    assert!(advertisement_event(received).is_none());
    let received = Received { address: Some(1), rssi: Some(-126), advertisement: None };
    assert!(advertisement_event(received).is_some());
}

#[test]
fn unreadable_parts_of_an_advertisement_are_missing() {
    let received = Received { address: None, rssi: None, advertisement: None };
    assert!(matches!(
        advertisement_event(received),
        Some(Event::NearbyBleSeen {
            address: 0,
            rssi: 0,
            name: None,
            mfr_company: None,
            model_hint: None,
        })
    ));
    let received = Received {
        address: Some(1),
        rssi: Some(-50),
        advertisement: Some(Advertisement {
            local_name: Some(String::new()),
            companies: vec![None, Some(7)],
            sections: vec![],
        }),
    };
    assert!(matches!(
        advertisement_event(received),
        Some(Event::NearbyBleSeen { name: None, mfr_company: None, model_hint: None, .. })
    ));
}

#[test]
fn sampling_interval_is_five_million_ticks() {
    assert_eq!(timespan_ticks(SAMPLING_INTERVAL_MS), 5_000_000);
    assert_eq!(timespan_ticks(-1), -10_000);
}
