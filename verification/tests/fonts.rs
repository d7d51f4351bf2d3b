use simplebluetooth::fonts::{install_font, next_font, FontStep, FONT_NAME};

#[test]
fn font_files_are_tried_in_order() {
    let files = [
        r"C:\Windows\Fonts\YuGothM.ttc",
        r"C:\Windows\Fonts\YuGothR.ttc",
        r"C:\Windows\Fonts\meiryo.ttc",
        r"C:\Windows\Fonts\msgothic.ttc",
    ];
    for (tried, file) in files.iter().enumerate() {
        assert!(matches!(next_font(tried, false), FontStep::Read(path) if path == *file));
    }
    assert!(matches!(next_font(4, false), FontStep::Skip));
    assert!(matches!(next_font(usize::MAX, false), FontStep::Skip));
}

#[test]
fn first_font_that_was_read_is_installed() {
    for tried in 1..=4 {
        assert!(matches!(next_font(tried, true), FontStep::Install));
    }
}

#[test]
fn font_comes_first_for_proportional_and_last_for_monospaced_text() {
    let mut proportional = vec!["a".to_string(), "b".to_string()];
    let mut monospace = vec!["c".to_string()];
    install_font(&mut proportional, &mut monospace);
    assert_eq!(proportional, vec!["jp", "a", "b"]);
    assert_eq!(monospace, vec!["c", "jp"]);
    assert_eq!(FONT_NAME, "jp");
}
