use simplebluetooth::bt::{Command, DeviceKind, Event, RadioState};
use simplebluetooth::clock::{Moment, Span};
use simplebluetooth::config::Config;
use simplebluetooth::devices::{Device, PairedRow};
use simplebluetooth::labels::Rgb;
use simplebluetooth::nearby::{Emphasis, NearbyRow};
use simplebluetooth::theme::ThemeChoice;
use simplebluetooth::ui::{App, PairedList, ViewMode};

fn at(millis: u64) -> Moment {
    Moment { nanos: millis * 1_000_000 }
}

fn app() -> App {
    App::new(Config::default(), at(0))
}

fn added(id: &str, name: &str, kind: DeviceKind, connected: bool, rssi: Option<i32>) -> Event {
    Event::Added {
        id: id.to_string(),
        name: name.to_string(),
        kind,
        connected,
        rssi,
        address: "aa:bb:cc:dd:ee:ff".to_string(),
    }
}

fn ble(id: &str) -> Event {
    added(id, id, DeviceKind::Ble, false, Some(-60))
}

fn updated(id: &str, connected: Option<bool>, rssi: Option<i32>) -> Event {
    Event::Updated { id: id.to_string(), connected, rssi }
}

fn seen(address: u64, rssi: i16) -> Event {
    Event::NearbyBleSeen { address, rssi, name: None, mfr_company: None, model_hint: None }
}

fn found(address: u64, name: &str, connected: bool, paired: bool) -> Event {
    Event::ClassicFound {
        address,
        name: name.to_string(),
        class_of_device: 0x0404,
        connected,
        paired,
        remembered: false,
    }
}

fn rows(app: &App, now: Moment) -> Vec<PairedRow> {
    match app.paired_list(now) {
        PairedList::Rows(rows) => rows,
        PairedList::Empty(_) => vec![],
    }
}

fn ids(app: &App, now: Moment) -> Vec<String> {
    rows(app, now).into_iter().map(|r| r.id).collect()
}

fn nearby(app: &App) -> Vec<NearbyRow> {
    app.nearby_list().rows
}

fn status(app: &App) -> String {
    app.top_bar(true).status
}

#[test]
fn screen_starts_empty() {
    let a = app();
    assert_eq!(a.view_mode(), ViewMode::Paired);
    assert!(!a.show_classic());
    assert!(a.main_enabled());
    assert_eq!(a.config(), Config { theme: ThemeChoice::System });
    let bar = a.top_bar(true);
    assert_eq!(bar.theme, "OS 準拠");
    assert_eq!(bar.radio, "?");
    assert_eq!(bar.radio_colour, Rgb { r: 200, g: 200, b: 200 });
    assert_eq!(bar.status, "読込中... 0");
    assert!(ids(&a, at(0)).is_empty());
    assert!(matches!(a.paired_list(at(0)), PairedList::Rows(_)));
    assert_eq!(
        a.nearby_list().message,
        Some("近くの BLE 広告はまだ観測されていません...")
    );
    assert_eq!(
        a.classic_list().message,
        Some("(まだ結果がありません。上のボタンで Inquiry を発行してください)")
    );
}

#[test]
fn added_device_is_listed() {
    let mut a = app();
    a.drain_events(vec![added("x", "Mouse", DeviceKind::Ble, true, Some(-60))], at(100));
    let rows = rows(&a, at(100));
    assert_eq!(rows.len(), 1);
    assert_eq!(rows[0].id, "x");
    assert_eq!(rows[0].kind, "BLE");
    assert_eq!(rows[0].rssi_text, "-60 dBm");
    assert_eq!(rows[0].rssi, Some(-60));
    assert!(!rows[0].dim);
    assert_eq!(rows[0].state, "接続中");
    assert_eq!(rows[0].name, "Mouse");
    assert_eq!(status(&a), "読込中... 1");
}

#[test]
fn device_added_twice_is_listed_once_as_it_came_last() {
    let mut a = app();
    a.drain_events(
        vec![
            added("x", "Old", DeviceKind::Ble, true, Some(-60)),
            added("x", "New", DeviceKind::Ble, false, None),
        ],
        at(100),
    );
    let rows = rows(&a, at(100));
    assert_eq!(rows.len(), 1);
    assert_eq!(rows[0].name, "New");
    assert_eq!(rows[0].state, "切断");
    assert_eq!(rows[0].rssi_text, "-- dBm");
    assert!(rows[0].dim);
}

#[test]
fn update_changes_only_what_it_tells() {
    let mut a = app();
    a.drain_events(vec![ble("x"), ble("y")], at(0));
    a.drain_events(vec![updated("x", Some(true), None)], at(6_000));
    let all = rows(&a, at(6_000));
    assert_eq!(all[0].id, "x");
    assert_eq!(all[0].state, "接続中");
    assert_eq!(all[0].rssi_text, "-60 dBm (6s 前)");
    assert_eq!(all[1].state, "切断");
    a.drain_events(vec![updated("x", None, Some(-40))], at(7_000));
    let all = rows(&a, at(7_000));
    assert_eq!(all[0].state, "接続中");
    assert_eq!(all[0].rssi_text, "-40 dBm");
    assert_eq!(all[1].rssi_text, "-60 dBm (7s 前)");
}

#[test]
fn update_of_unknown_device_changes_nothing() {
    let mut a = app();
    a.drain_events(vec![updated("x", Some(true), Some(-40))], at(0));
    assert!(ids(&a, at(0)).is_empty());
    assert_eq!(status(&a), "読込中... 0");
}

#[test]
fn removed_device_is_gone() {
    let mut a = app();
    let removals = vec![Event::Removed("x".to_string()), Event::Removed("z".to_string())];
    a.drain_events(vec![ble("x"), ble("y")], at(0));
    a.drain_events(removals, at(0));
    assert_eq!(ids(&a, at(0)), vec!["y".to_string()]);
}

#[test]
fn signal_fades_after_fifteen_seconds() {
    let mut a = app();
    a.drain_events(vec![ble("x")], at(0));
    assert!(!rows(&a, at(14_999))[0].dim);
    assert!(!rows(&a, at(15_000))[0].dim);
    assert!(rows(&a, at(15_001))[0].dim);
}

#[test]
fn signal_age_needs_a_signal() {
    let mut d = Device {
        id: "x".to_string(),
        name: "x".to_string(),
        kind: DeviceKind::Ble,
        connected: false,
        rssi: Some(-60),
        last_rssi_at: Some(at(1_000)),
        address: String::new(),
    };
    assert_eq!(d.signal_age(at(3_000)), Some(Span { nanos: 2_000_000_000 }));
    assert!(d.signal_is_fresh(at(3_000)));
    assert!(d.signal_is_fresh(at(16_000)));
    assert!(!d.signal_is_fresh(Moment { nanos: 16_000_000_001 }));
    d.last_rssi_at = None;
    assert_eq!(d.signal_age(at(3_000)), None);
    assert!(!d.signal_is_fresh(at(3_000)));
}

#[test]
fn list_is_complete_once_nothing_is_added_any_more() {
    let mut a = app();
    a.drain_events(vec![ble("x")], at(1_000));
    a.drain_events(vec![], at(3_499));
    assert_eq!(status(&a), "読込中... 1");
    a.drain_events(vec![], at(3_500));
    assert_eq!(status(&a), "1 台");
}

#[test]
fn list_is_complete_at_the_latest_after_four_seconds() {
    let mut a = app();
    a.drain_events(vec![], at(3_999));
    assert_eq!(status(&a), "読込中... 0");
    a.drain_events(vec![ble("x")], at(4_000));
    assert_eq!(status(&a), "1 台");
}

#[test]
fn list_is_complete_when_the_watcher_says_so() {
    let mut a = app();
    a.drain_events(vec![ble("x"), Event::EnumerationComplete], at(100));
    assert_eq!(status(&a), "1 台");
    a.drain_events(vec![ble("y")], at(200));
    assert_eq!(status(&a), "2 台");
}

#[test]
fn complete_list_without_devices_says_so() {
    let mut a = app();
    a.drain_events(vec![Event::EnumerationComplete], at(0));
    match a.paired_list(at(0)) {
        PairedList::Empty(message) => assert_eq!(
            message,
            "ペアリング済み BLE 機器がありません。(Classic 機器は「設定」から表示)"
        ),
        PairedList::Rows(_) => panic!("rows without devices"),
    }
    a.leave_settings(false, true);
    match a.paired_list(at(0)) {
        PairedList::Empty(message) => assert_eq!(message, "ペアリング済み機器がありません。"),
        PairedList::Rows(_) => panic!("rows without devices"),
    }
}

#[test]
fn classic_devices_are_hidden_until_asked_for() {
    let mut a = app();
    a.drain_events(
        vec![
            added("c", "Headset", DeviceKind::Classic, true, Some(-1)),
            Event::EnumerationComplete,
        ],
        at(0),
    );
    assert!(ids(&a, at(0)).is_empty());
    assert_eq!(status(&a), "1 台");
    a.leave_settings(true, true);
    assert!(a.show_classic());
    let rows = rows(&a, at(0));
    assert_eq!(rows.len(), 1);
    assert_eq!(rows[0].kind, "Classic");
}

#[test]
fn paired_devices_are_ordered() {
    let mut a = app();
    a.leave_settings(false, true);
    a.drain_events(
        vec![
            added("c2", "b", DeviceKind::Classic, false, Some(-1)),
            added("c1", "a", DeviceKind::Classic, false, Some(-90)),
            added("c3", "z", DeviceKind::Classic, true, None),
            added("b1", "weak", DeviceKind::Ble, false, Some(-90)),
            added("b2", "none", DeviceKind::Ble, false, None),
            added("b6", "weakest", DeviceKind::Ble, false, Some(i32::MIN)),
            added("b3", "strong", DeviceKind::Ble, false, Some(-40)),
            added("b4", "linked", DeviceKind::Ble, true, Some(-99)),
            added("b5", "also strong", DeviceKind::Ble, false, Some(-40)),
        ],
        at(0),
    );
    assert_eq!(ids(&a, at(0)), vec!["b4", "b5", "b3", "b1", "b6", "b2", "c3", "c1", "c2"]);
    assert_eq!(status(&a), "読込中... 9");
}

#[test]
fn advertisement_reaches_the_paired_device() {
    let mut a = app();
    a.leave_settings(false, true);
    a.drain_events(
        vec![
            added("b", "ble", DeviceKind::Ble, false, None),
            added("c", "classic", DeviceKind::Classic, false, None),
            seen(0xAABB_CCDD_EEFF, -55),
        ],
        at(0),
    );
    let all = rows(&a, at(0));
    assert_eq!(all[0].rssi, Some(-55));
    assert!(!all[0].dim);
    assert_eq!(all[1].rssi, None);
    a.drain_events(vec![seen(0x1234, -30)], at(0));
    assert_eq!(rows(&a, at(0))[0].rssi, Some(-55));
    assert_eq!(nearby(&a).len(), 2);
}

#[test]
fn first_told_facts_about_a_neighbour_stay() {
    let mut a = app();
    let told = |name: Option<&str>, company: Option<u16>, model: Option<&str>| {
        Event::NearbyBleSeen {
            address: 1,
            rssi: -50,
            name: name.map(|s| s.to_string()),
            mfr_company: company,
            model_hint: model.map(|s| s.to_string()),
        }
    };
    a.drain_events(vec![told(None, None, None)], at(0));
    assert_eq!(nearby(&a)[0].label, "(unnamed)");
    assert_eq!(nearby(&a)[0].emphasis, Emphasis::Weak);
    a.drain_events(vec![told(None, Some(0x0969), None), told(None, Some(1), None)], at(0));
    assert_eq!(nearby(&a)[0].label, "Company 0x0969");
    assert_eq!(nearby(&a)[0].emphasis, Emphasis::Weak);
    a.drain_events(vec![told(Some("first"), None, None), told(Some("second"), None, None)], at(0));
    assert_eq!(nearby(&a)[0].label, "first");
    assert_eq!(nearby(&a)[0].emphasis, Emphasis::Name);
    a.drain_events(vec![told(None, None, Some("A")), told(None, None, Some("B"))], at(0));
    assert_eq!(nearby(&a)[0].label, "A");
    assert_eq!(nearby(&a)[0].emphasis, Emphasis::Model);
    assert_eq!(nearby(&a)[0].packets_text, "7");
}

#[test]
fn neighbour_is_shown_with_its_latest_signal() {
    let mut a = app();
    a.drain_events(vec![seen(0x0123_4567_89AB, -80), seen(0x0123_4567_89AB, -70)], at(0));
    let list = a.nearby_list();
    assert_eq!(
        list.heading,
        "BLE 広告を直接受信 (500ms スロットル)。現在 1 台。値は絶対 dBm。"
    );
    assert_eq!(list.message, None);
    assert_eq!(list.rows[0].address, 0x0123_4567_89AB);
    assert_eq!(list.rows[0].address_text, "01:23:45:67:89:AB");
    assert_eq!(list.rows[0].rssi, -70);
    assert_eq!(list.rows[0].rssi_text, "-70 dBm");
    assert_eq!(list.rows[0].packets_text, "2");
}

#[test]
fn neighbours_are_ordered() {
    let mut a = app();
    let named = Event::NearbyBleSeen {
        address: 3,
        rssi: -95,
        name: Some("n".to_string()),
        mfr_company: None,
        model_hint: None,
    };
    let modelled = Event::NearbyBleSeen {
        address: 4,
        rssi: -90,
        name: None,
        mfr_company: None,
        model_hint: Some("m".to_string()),
    };
    a.drain_events(vec![seen(1, -80), seen(2, -40), named, modelled], at(0));
    let order: Vec<u64> = nearby(&a).iter().map(|r| r.address).collect();
    assert_eq!(order, vec![4, 3, 2, 1]);
}

#[test]
fn silent_neighbours_go_after_a_minute() {
    let mut a = app();
    a.drain_events(vec![seen(1, -50)], at(1_000));
    a.drain_events(vec![seen(2, -60)], at(30_000));
    a.drain_events(vec![], at(60_999));
    assert_eq!(nearby(&a).len(), 2);
    a.drain_events(vec![], at(61_000));
    let left = nearby(&a);
    assert_eq!(left.len(), 1);
    assert_eq!(left[0].address, 2);
    a.drain_events(vec![seen(2, -60)], at(200_000));
    assert_eq!(nearby(&a).len(), 1);
}

#[test]
fn nothing_is_dropped_in_the_first_minute() {
    let mut a = app();
    a.drain_events(vec![seen(1, -50)], at(0));
    a.drain_events(vec![], at(59_999));
    assert_eq!(nearby(&a).len(), 1);
}

#[test]
fn rescan_empties_all_lists() {
    let mut a = app();
    a.set_view_mode(ViewMode::Classic);
    a.leave_settings(false, true);
    a.drain_events(
        vec![
            ble("x"),
            seen(1, -50),
            Event::Radio(RadioState::On),
            Event::ClassicInquiryStarted,
            found(1, "a", false, false),
            Event::ClassicInquiryFinished { total: 1 },
            Event::EnumerationComplete,
        ],
        at(100),
    );
    a.drain_events(vec![Event::RescanStarted], at(5_000));
    assert_eq!(status(&a), "読込中... 0");
    assert!(ids(&a, at(5_000)).is_empty());
    assert!(nearby(&a).is_empty());
    let list = a.classic_list();
    assert!(list.rows.is_empty());
    assert_eq!(list.status, "(未実行。ボタンで開始)");
    assert_eq!(a.top_bar(true).radio, "ON");
    assert!(a.show_classic());
    assert_eq!(a.view_mode(), ViewMode::Classic);
    a.drain_events(vec![], at(8_999));
    assert_eq!(status(&a), "読込中... 0");
    a.drain_events(vec![], at(9_000));
    assert_eq!(status(&a), "0 台");
}

#[test]
fn events_in_parts_have_the_same_effect() {
    let mut whole = app();
    let mut parts = app();
    whole.drain_events(vec![ble("x"), updated("x", Some(true), None), seen(1, -50)], at(0));
    parts.drain_events(vec![ble("x")], at(0));
    parts.drain_events(vec![], at(0));
    parts.drain_events(vec![updated("x", Some(true), None), seen(1, -50)], at(0));
    assert_eq!(ids(&whole, at(0)), ids(&parts, at(0)));
    assert_eq!(rows(&whole, at(0))[0].state, rows(&parts, at(0))[0].state);
    assert_eq!(nearby(&whole).len(), nearby(&parts).len());
    assert_eq!(status(&whole), status(&parts));
}

#[test]
fn radio_state_is_shown() {
    let mut a = app();
    a.drain_events(vec![Event::Radio(RadioState::Off)], at(0));
    assert_eq!(a.top_bar(false).radio, "OFF");
    assert_eq!(a.top_bar(false).radio_colour, Rgb { r: 180, g: 40, b: 40 });
}

#[test]
fn classic_search_goes_through_its_states() {
    let mut a = app();
    let idle = a.classic_list();
    assert!(idle.can_start);
    assert_eq!(idle.button, "スキャン開始 (約 8 秒)");
    assert_eq!(idle.status, "(未実行。ボタンで開始)");
    a.drain_events(vec![Event::ClassicInquiryStarted, found(1, "a", false, false)], at(0));
    let running = a.classic_list();
    assert!(!running.can_start);
    assert_eq!(running.button, "スキャン中...(~8秒)");
    assert_eq!(running.status, "スキャン中… (1 台検出)");
    a.drain_events(vec![Event::ClassicInquiryFinished { total: 1 }], at(0));
    let finished = a.classic_list();
    assert!(finished.can_start);
    assert_eq!(finished.button, "スキャン開始 (約 8 秒)");
    assert_eq!(finished.status, "完了: 1 台");
    assert_eq!(finished.rows.len(), 1);
    assert_eq!(finished.message, None);
    a.drain_events(vec![Event::ClassicInquiryStarted], at(0));
    assert!(a.classic_list().rows.is_empty());
}

#[test]
fn clicks_become_commands() {
    let mut a = app();
    assert_eq!(a.rescan_clicked(true), Some(Command::Rescan));
    assert_eq!(a.rescan_clicked(false), None);
    assert_eq!(a.scan_clicked(true), Some(Command::StartClassicInquiry));
    assert_eq!(a.scan_clicked(false), None);
    a.drain_events(vec![Event::ClassicInquiryStarted], at(0));
    assert_eq!(a.scan_clicked(true), None);
    assert_eq!(a.rescan_clicked(true), Some(Command::Rescan));
    a.drain_events(vec![Event::ClassicInquiryFinished { total: 0 }], at(0));
    assert_eq!(a.scan_clicked(true), Some(Command::StartClassicInquiry));
}

#[test]
fn found_devices_are_ordered_and_shown() {
    let mut a = app();
    a.drain_events(
        vec![
            found(1, "paired", false, true),
            found(2, "", false, false),
            found(3, "first", false, false),
            found(4, "second", false, false),
            Event::ClassicFound {
                address: 0xAABB_CCDD_EEFF,
                name: "linked".to_string(),
                class_of_device: 0x0500,
                connected: true,
                paired: true,
                remembered: true,
            },
        ],
        at(0),
    );
    let rows = a.classic_list().rows;
    let names: Vec<&str> = rows.iter().map(|r| r.name.as_str()).collect();
    assert_eq!(names, vec!["linked", "first", "second", "(no name)", "paired"]);
    assert_eq!(rows[0].address_text, "AA:BB:CC:DD:EE:FF");
    assert_eq!(rows[0].class, "Peripheral (Mouse/KB)");
    assert_eq!(rows[0].state, "接続中");
    assert_eq!(rows[0].flags, "paired,remembered,connected");
    assert_eq!(rows[1].class, "Audio/Video");
    assert_eq!(rows[1].state, "未ペア");
    assert_eq!(rows[1].flags, "");
    assert_eq!(rows[4].state, "切断 (ペア済)");
    assert_eq!(rows[4].flags, "paired");
}

#[test]
fn title_bar_is_changed_once_per_theme() {
    let mut a = app();
    assert!(a.title_bar_change(true));
    a.drain_events(vec![Event::RescanStarted], at(70_000));
    assert!(!a.title_bar_change(true));
    assert!(a.title_bar_change(false));
    assert!(!a.title_bar_change(false));
}

#[test]
fn theme_is_kept_only_if_it_changed() {
    let mut a = app();
    assert!(!a.set_theme(ThemeChoice::System));
    assert!(a.set_theme(ThemeChoice::Dark));
    assert_eq!(a.config(), Config { theme: ThemeChoice::Dark });
    assert_eq!(a.top_bar(true).theme, "ダーク");
    assert!(!a.set_theme(ThemeChoice::Dark));
}

#[test]
fn settings_block_the_main_screen_until_they_are_closed() {
    let mut a = app();
    assert!(!a.settings_window(false));
    assert!(!a.settings_window(true));
    a.open_settings();
    assert!(!a.main_enabled());
    assert!(a.settings_window(false));
    a.leave_settings(true, true);
    assert!(!a.main_enabled());
    assert!(!a.settings_window(true));
    assert!(a.main_enabled());
    a.open_settings();
    a.leave_settings(false, true);
    assert!(a.main_enabled());
    assert!(a.show_classic());
}

#[test]
fn click_behind_the_settings_closes_them() {
    let mut a = app();
    a.settings_scrim(true);
    assert!(a.main_enabled());
    a.open_settings();
    a.settings_scrim(false);
    assert!(!a.main_enabled());
    a.settings_scrim(true);
    a.leave_settings(true, true);
    assert!(a.main_enabled());
    assert!(!a.settings_window(false));
    assert!(a.show_classic());
}

#[test]
fn events_leave_the_choices_of_the_user() {
    let mut a = app();
    a.set_view_mode(ViewMode::NearbyBle);
    a.set_theme(ThemeChoice::Light);
    a.open_settings();
    a.drain_events(vec![Event::RescanStarted, ble("x"), seen(1, -50)], at(70_000));
    assert_eq!(a.view_mode(), ViewMode::NearbyBle);
    assert_eq!(a.config().theme, ThemeChoice::Light);
    assert!(!a.main_enabled());
    assert!(!a.show_classic());
}
