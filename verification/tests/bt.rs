use simplebluetooth::bt::{
    added_event, aqs_filter, classify, extract_bt_radio_state, is_valid_rssi, lookup_bool,
    lookup_i32, lookup_string, removed_event, requested_properties, updated_event, DeviceKind,
    Event, Notice, Property, RadioKind, RadioPower, RadioReading, RadioState, PROP_ADDRESS,
    PROP_CONNECTED, PROP_SIGNAL,
};

fn number(key: &str, v: i32) -> Property {
    Property { key: key.to_string(), int32: Some(v), boolean: None, text: None }
}

fn truth(key: &str, v: bool) -> Property {
    Property { key: key.to_string(), int32: None, boolean: Some(v), text: None }
}

fn text(key: &str, v: &str) -> Property {
    Property { key: key.to_string(), int32: None, boolean: None, text: Some(v.to_string()) }
}

fn radio(kind: RadioKind, power: RadioPower) -> RadioReading {
    RadioReading { kind: Some(kind), power: Some(power) }
}

#[test]
fn family_goes_by_prefix() {
    assert_eq!(classify("BluetoothLE#BluetoothLE00:11"), DeviceKind::Ble);
    assert_eq!(classify("BluetoothLE"), DeviceKind::Ble);
    assert_eq!(classify("Bluetooth#Bluetooth00:11"), DeviceKind::Classic);
    assert_eq!(classify("bluetoothle#"), DeviceKind::Classic);
    assert_eq!(classify("xBluetoothLE"), DeviceKind::Classic);
    assert_eq!(classify(""), DeviceKind::Classic);
}

#[test]
fn sentinels_are_no_signal_strengths() {
    assert!(!is_valid_rssi(0));
    assert!(!is_valid_rssi(-127));
    assert!(!is_valid_rssi(5));
    assert!(!is_valid_rssi(-128));
    assert!(is_valid_rssi(-1));
    assert!(is_valid_rssi(-126));
    assert!(is_valid_rssi(-60));
}

#[test]
fn properties_are_looked_up_by_key() {
    let props = vec![number("a", 1), truth("b", true), text("c", "x"), number("a", 2)];
    assert_eq!(lookup_i32(&props, "a"), Some(1));
    assert_eq!(lookup_bool(&props, "b"), Some(true));
    assert_eq!(lookup_string(&props, "c"), Some("x".to_string()));
    assert_eq!(lookup_i32(&props, "d"), None);
    assert_eq!(lookup_bool(&props, "a"), None);
    assert_eq!(lookup_string(&props, "A"), None);
}

#[test]
fn added_device_is_reported_in_full() {
    let e = added_event(Notice {
        id: Some("BluetoothLE#1".to_string()),
        name: Some("マウス".to_string()),
        props: Some(vec![
            number(PROP_SIGNAL, -60),
            truth(PROP_CONNECTED, true),
            text(PROP_ADDRESS, "aa:bb:cc:dd:ee:ff"),
        ]),
    });
    match e {
        Event::Added { id, name, kind, connected, rssi, address } => {
            assert_eq!(id, "BluetoothLE#1");
            assert_eq!(name, "マウス");
            assert_eq!(kind, DeviceKind::Ble);
            assert!(connected);
            assert_eq!(rssi, Some(-60));
            assert_eq!(address, "aa:bb:cc:dd:ee:ff");
        }
        _ => panic!("not an addition"),
    }
}

#[test]
fn unreadable_parts_of_an_addition_have_defaults() {
    match added_event(Notice { id: None, name: None, props: None }) {
        Event::Added { id, name, kind, connected, rssi, address } => {
            assert_eq!(id, "");
            assert_eq!(name, "");
            assert_eq!(kind, DeviceKind::Classic);
            assert!(!connected);
            assert_eq!(rssi, None);
            assert_eq!(address, "");
        }
        _ => panic!("not an addition"),
    }
}

#[test]
fn unmeasured_signal_is_not_reported() {
    for v in [0, -127, 3] {
        let notice = || Notice {
            id: Some("x".to_string()),
            name: None,
            props: Some(vec![number(PROP_SIGNAL, v)]),
        };
        assert!(matches!(added_event(notice()), Event::Added { rssi: None, .. }));
        assert!(matches!(updated_event(notice()), Event::Updated { rssi: None, .. }));
    }
}

#[test]
fn update_reports_only_what_it_says() {
    let e = updated_event(Notice {
        id: Some("x".to_string()),
        name: None,
        props: Some(vec![truth(PROP_CONNECTED, false)]),
    });
    match e {
        Event::Updated { id, connected, rssi } => {
            assert_eq!(id, "x");
            assert_eq!(connected, Some(false));
            assert_eq!(rssi, None);
        }
        _ => panic!("not an update"),
    }
    let e = updated_event(Notice { id: None, name: None, props: None });
    match e {
        Event::Updated { id, connected, rssi } => {
            assert_eq!(id, "");
            assert_eq!(connected, None);
            assert_eq!(rssi, None);
        }
        _ => panic!("not an update"),
    }
}

#[test]
fn removal_names_the_device() {
    assert!(matches!(removed_event(Some("x".to_string())), Event::Removed(id) if id == "x"));
    assert!(matches!(removed_event(None), Event::Removed(id) if id.is_empty()));
}

#[test]
fn query_asks_for_paired_devices_of_both_families() {
    assert_eq!(
        aqs_filter(),
        "(System.Devices.Aep.ProtocolId:=\"{e0cbf06c-cd8b-4647-bb8a-263b43f0f974}\" OR \
         System.Devices.Aep.ProtocolId:=\"{bb7bb05e-5972-42b5-94fc-76eaa7084d49}\") AND \
         System.Devices.Aep.IsPaired:=System.StructuredQueryType.Boolean#True"
    );
}

#[test]
fn watcher_is_asked_for_three_properties() {
    assert_eq!(
        requested_properties(),
        vec![
            "System.Devices.Aep.SignalStrength".to_string(),
            "System.Devices.Aep.IsConnected".to_string(),
            "System.Devices.Aep.DeviceAddress".to_string(),
        ]
    );
}

#[test]
fn first_bluetooth_radio_counts() {
    let radios = vec![
        radio(RadioKind::Other, RadioPower::On),
        radio(RadioKind::Bluetooth, RadioPower::Off),
        radio(RadioKind::Bluetooth, RadioPower::On),
    ];
    assert_eq!(extract_bt_radio_state(&radios), RadioState::Off);
}

#[test]
fn each_power_has_its_state() {
    let state = |p: RadioPower| extract_bt_radio_state(&vec![radio(RadioKind::Bluetooth, p)]);
    assert_eq!(state(RadioPower::On), RadioState::On);
    assert_eq!(state(RadioPower::Off), RadioState::Off);
    assert_eq!(state(RadioPower::Disabled), RadioState::Disabled);
    assert_eq!(state(RadioPower::Other), RadioState::Unknown);
    let unreadable = RadioReading { kind: Some(RadioKind::Bluetooth), power: None };
    assert_eq!(extract_bt_radio_state(&vec![unreadable]), RadioState::Unknown);
}

#[test]
fn without_bluetooth_the_radio_is_absent() {
    assert_eq!(extract_bt_radio_state(&vec![]), RadioState::Absent);
    let radios = vec![
        radio(RadioKind::Other, RadioPower::On),
        RadioReading { kind: None, power: Some(RadioPower::On) },
    ];
    assert_eq!(extract_bt_radio_state(&radios), RadioState::Absent);
}
