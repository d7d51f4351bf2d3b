use simplebluetooth::bt::Event;
use simplebluetooth::effect::Effect;
use simplebluetooth::inquiry::{
    emit_classic, FoundRecord, Inquiry, InquiryReport, InquiryTask, INQUIRY_TIMEOUT_MULTIPLIER,
};

fn record(last: u8, name: &[u16]) -> FoundRecord {
    FoundRecord {
        address: [last, 0xEE, 0xDD, 0xCC, 0xBB, 0xAA],
        name: name.to_vec(),
        class_of_device: 0x0404,
        connected: true,
        authenticated: false,
        remembered: true,
    }
}

fn name_of(units: &[u16]) -> String {
    match emit_classic(&record(0, units)) {
        Event::ClassicFound { name, .. } => name,
        _ => panic!("not a found device"),
    }
}

fn announced(effects: Vec<Effect>) -> Event {
    assert_eq!(effects.len(), 2);
    assert!(matches!(effects[1], Effect::Repaint));
    match effects.into_iter().next() {
        Some(Effect::Send(e)) => e,
        _ => panic!("nothing was sent"),
    }
}

#[test]
fn found_device_becomes_an_event() {
    match emit_classic(&record(0xFF, &[0x41, 0x42, 0, 0x43])) {
        Event::ClassicFound { address, name, class_of_device, connected, paired, remembered } => {
            assert_eq!(address, 0xAABB_CCDD_EEFF);
            assert_eq!(name, "AB");
            assert_eq!(class_of_device, 0x0404);
            assert!(connected);
            assert!(!paired);
            assert!(remembered);
        }
        _ => panic!("not a found device"),
    }
}

#[test]
fn name_ends_at_the_first_zero() {
    assert_eq!(name_of(&[]), "");
    assert_eq!(name_of(&[0, 0x41]), "");
    assert_eq!(name_of(&[0x41]), "A");
}

#[test]
fn name_is_decoded_from_utf16() {
    assert_eq!(name_of(&[0x30DE, 0x30A6, 0x30B9]), "マウス");
    assert_eq!(name_of(&[0xD83D, 0xDE00, 0x21]), "\u{1F600}!");
}

#[test]
fn lone_halves_of_pairs_are_replaced() {
    assert_eq!(name_of(&[0xD83D]), "\u{FFFD}");
    assert_eq!(name_of(&[0xDE00, 0x41]), "\u{FFFD}A");
    assert_eq!(name_of(&[0xD83D, 0x41]), "\u{FFFD}A");
    assert_eq!(name_of(&[0xD83D, 0xD83D, 0xDE00]), "\u{FFFD}\u{1F600}");
    assert_eq!(name_of(&[0xD7FF, 0xE000]), "\u{D7FF}\u{E000}");
}

#[test]
fn search_is_announced_at_the_start() {
    let (search, effects) = Inquiry::start();
    assert_eq!(search, Inquiry { task: InquiryTask::FindFirst, count: 0 });
    assert!(matches!(announced(effects), Event::ClassicInquiryStarted));
}

#[test]
fn search_hands_over_each_device_and_counts_them() {
    let (mut search, _) = Inquiry::start();
    let e = announced(search.step(InquiryReport::Found(record(1, &[0x41]))));
    assert!(matches!(e, Event::ClassicFound { address: 0xAABB_CCDD_EE01, .. }));
    assert_eq!(search, Inquiry { task: InquiryTask::FindNext, count: 1 });
    let e = announced(search.step(InquiryReport::Found(record(2, &[0x42]))));
    assert!(matches!(e, Event::ClassicFound { address: 0xAABB_CCDD_EE02, .. }));
    assert!(search.step(InquiryReport::NoMore).is_empty());
    assert_eq!(search.task, InquiryTask::Close);
    let e = announced(search.step(InquiryReport::Closed));
    assert!(matches!(e, Event::ClassicInquiryFinished { total: 2 }));
    assert_eq!(search.task, InquiryTask::End);
}

#[test]
fn search_without_devices_has_no_handle_to_close() {
    let (mut search, _) = Inquiry::start();
    let e = announced(search.step(InquiryReport::NoMore));
    assert!(matches!(e, Event::ClassicInquiryFinished { total: 0 }));
    assert_eq!(search.task, InquiryTask::End);
}

#[test]
fn unexpected_reports_change_nothing() {
    let (mut search, _) = Inquiry::start();
    assert!(search.step(InquiryReport::Closed).is_empty());
    assert_eq!(search.task, InquiryTask::FindFirst);
    search.step(InquiryReport::NoMore);
    assert!(search.step(InquiryReport::Found(record(1, &[]))).is_empty());
    assert_eq!(search, Inquiry { task: InquiryTask::End, count: 0 });
    let mut full = Inquiry { task: InquiryTask::Close, count: u32::MAX };
    assert!(full.step(InquiryReport::Found(record(1, &[]))).is_empty());
    assert_eq!(full.count, u32::MAX);
}

#[test]
fn search_lasts_six_units() {
    assert_eq!(INQUIRY_TIMEOUT_MULTIPLIER, 6);
}
