use simplebluetooth::config::{Config, ConfigFile};
use simplebluetooth::theme::{apply, system_prefers_dark, title_bar_attribute, ThemeChoice};

#[test]
fn themes_have_names() {
    assert_eq!(ThemeChoice::System.label(), "OS 準拠");
    assert_eq!(ThemeChoice::Dark.label(), "ダーク");
    assert_eq!(ThemeChoice::Light.label(), "ライト");
}

#[test]
fn default_theme_follows_the_system() {
    assert_eq!(ThemeChoice::default(), ThemeChoice::System);
    assert_eq!(Config::default(), Config { theme: ThemeChoice::System });
}

#[test]
fn only_the_system_theme_follows_the_system() {
    assert!(apply(ThemeChoice::System, true));
    assert!(!apply(ThemeChoice::System, false));
    assert!(apply(ThemeChoice::Dark, false));
    assert!(!apply(ThemeChoice::Light, true));
}

#[test]
fn light_theme_value_zero_means_dark() {
    assert!(system_prefers_dark(Some(0)));
    assert!(!system_prefers_dark(Some(1)));
    assert!(!system_prefers_dark(Some(7)));
    assert!(!system_prefers_dark(None));
}

#[test]
fn title_bar_attribute_is_a_flag() {
    assert_eq!(title_bar_attribute(true), 1);
    assert_eq!(title_bar_attribute(false), 0);
}

#[test]
fn settings_come_from_the_file_or_are_default() {
    let dark = Config { theme: ThemeChoice::Dark };
    assert_eq!(Config::load(ConfigFile::Parsed(dark)), dark);
    assert_eq!(Config::load(ConfigFile::NoPath), Config::default());
    assert_eq!(Config::load(ConfigFile::Unreadable), Config::default());
    assert_eq!(Config::load(ConfigFile::Malformed), Config::default());
}
