//! What the user's actions do, and what becomes of the choices.

use vstd::prelude::*;

use crate::bt::Command;
use crate::config::{Config, ConfigFile};
use crate::cursor::text_views;
use crate::fonts::{install_font, next_font, FontStep};
use crate::found::ClassicScanState;
use crate::theme::{apply, system_prefers_dark, title_bar_attribute, ThemeChoice};
use crate::ui::{App, Screen, ViewMode};

verus! {

/// Whether nothing differs but the settings window and whether Classic devices are shown.
pub open spec fn differ_in_settings(s: Screen, t: Screen) -> bool {
    &&& t.devices == s.devices
    &&& t.nearby == s.nearby
    &&& t.radio == s.radio
    &&& t.enumerated == s.enumerated
    &&& t.last_added_at == s.last_added_at
    &&& t.watcher_started_at == s.watcher_started_at
    &&& t.classic_found == s.classic_found
    &&& t.classic_scan == s.classic_scan
    &&& t.config == s.config
    &&& t.view_mode == s.view_mode
    &&& t.last_dark_applied == s.last_dark_applied
}

/// The settings open by their button, stay open until they are closed, and are closed by the escape
/// key, by their own cross, and by a click behind them. Only they change whether Classic devices are
/// shown.
pub proof fn lemma_settings_open_and_close(
    opened: &mut App,
    asked: &mut App,
    behind: &mut App,
    left: &mut App,
    escape: bool,
    draw: bool,
    clicked: bool,
    open: bool,
    classic: bool,
)
    requires
        call_ensures(App::open_settings, (opened,), ()),
        call_ensures(App::settings_window, (asked, escape), draw),
        call_ensures(App::settings_scrim, (behind, clicked), ()),
        call_ensures(App::leave_settings, (left, open, classic), ()),
    ensures
        final(opened)@.show_settings,
        final(opened)@.show_classic == old(opened)@.show_classic,
        differ_in_settings(old(opened)@, final(opened)@),
        final(asked)@.show_settings == draw,
        draw <==> old(asked)@.show_settings && !escape,
        final(asked)@.show_classic == old(asked)@.show_classic,
        differ_in_settings(old(asked)@, final(asked)@),
        final(behind)@.show_settings <==> old(behind)@.show_settings && !clicked,
        final(behind)@.show_classic == old(behind)@.show_classic,
        differ_in_settings(old(behind)@, final(behind)@),
        final(left)@.show_settings <==> old(left)@.show_settings && open,
        final(left)@.show_classic == classic,
        differ_in_settings(old(left)@, final(left)@),
{
}

/// The main screen reacts exactly while the settings are closed, and what was chosen can be asked
/// for.
pub proof fn lemma_choices_told(app: App, enabled: bool, mode: ViewMode, classic: bool, c: Config)
    requires
        call_ensures(App::main_enabled, (&app,), enabled),
        call_ensures(App::view_mode, (&app,), mode),
        call_ensures(App::show_classic, (&app,), classic),
        call_ensures(App::config, (&app,), c),
    ensures
        enabled <==> !app@.show_settings,
        mode == app@.view_mode,
        classic == app@.show_classic,
        c == app@.config,
{
}

/// A chosen theme is taken over, and is to be applied and kept exactly if it is another one; a chosen
/// list comes to the front. Nothing else changes.
pub proof fn lemma_choices_taken_over(
    a: &mut App,
    theme: ThemeChoice,
    change: bool,
    b: &mut App,
    mode: ViewMode,
)
    requires
        call_ensures(App::set_theme, (a, theme), change),
        call_ensures(App::set_view_mode, (b, mode), ()),
    ensures
        final(a)@.config.theme == theme,
        change <==> old(a)@.config.theme != theme,
        final(a)@ == (Screen { config: final(a)@.config, ..old(a)@ }),
        final(b)@.view_mode == mode,
        final(b)@ == (Screen { view_mode: mode, ..old(b)@ }),
{
}

/// The title bar is to be changed exactly if it was not last set for this background; for two
/// frames on end that is so if their backgrounds differ.
pub proof fn lemma_title_bar(a: &mut App, b: &mut App, dark: bool, change: bool, next: bool, again: bool)
    requires
        call_ensures(App::title_bar_change, (a, dark), change),
        *old(b) == *final(a),
        call_ensures(App::title_bar_change, (b, next), again),
    ensures
        change <==> old(a)@.last_dark_applied != Some(dark),
        again <==> next != dark,
        final(a)@ == (Screen { last_dark_applied: Some(dark), ..old(a)@ }),
{
}

/// A click on a button asks for its command, but a search is not begun while one runs.
pub proof fn lemma_clicks(app: App, clicked: bool, rescan: Option<Command>, scan: Option<Command>)
    requires
        call_ensures(App::rescan_clicked, (&app, clicked), rescan),
        call_ensures(App::scan_clicked, (&app, clicked), scan),
    ensures
        rescan is Some <==> clicked,
        rescan is Some ==> rescan->0 == Command::Rescan,
        scan is Some <==> clicked && app@.classic_scan != ClassicScanState::Running,
        scan is Some ==> scan->0 == Command::StartClassicInquiry,
{
}

/// The themes have names. Dark is dark and light is light, whatever the system prefers; the system's
/// theme is what it prefers, which is dark exactly if its setting could be read and is zero.
pub proof fn lemma_themes(
    choice: ThemeChoice,
    name: &'static str,
    reading: Option<u32>,
    system: bool,
    dark: bool,
    attribute: i32,
)
    requires
        call_ensures(ThemeChoice::label, (choice,), name),
        call_ensures(system_prefers_dark, (reading,), system),
        call_ensures(apply, (choice, system), dark),
        call_ensures(title_bar_attribute, (dark,), attribute),
    ensures
        choice == ThemeChoice::System ==> name@ == "OS 準拠"@,
        choice == ThemeChoice::Dark ==> name@ == "ダーク"@,
        choice == ThemeChoice::Light ==> name@ == "ライト"@,
        system <==> reading is Some && reading->0 == 0,
        choice == ThemeChoice::Dark ==> dark,
        choice == ThemeChoice::Light ==> !dark,
        choice == ThemeChoice::System ==> dark == system,
        attribute == 1 <==> dark,
        attribute == 0 <==> !dark,
{
}

/// The settings of the file are taken as they are; without them the theme is that of the system,
/// which is the default.
pub proof fn lemma_settings_loaded(file: ConfigFile, c: Config, d: Config, t: ThemeChoice)
    requires
        call_ensures(Config::load, (file,), c),
        call_ensures(Config::default, (), d),
        call_ensures(ThemeChoice::default, (), t),
    ensures
        d.theme == ThemeChoice::System,
        t == ThemeChoice::System,
        file is Parsed ==> c.theme == file->Parsed_0.theme,
        !(file is Parsed) ==> c.theme == ThemeChoice::System,
{
}

/// The files for the font are tried in their order until one can be read.
pub proof fn lemma_fonts_tried(tried: usize, read: bool, r: FontStep)
    requires
        call_ensures(next_font, (tried, read), r),
    ensures
        r is Install <==> read,
        r is Skip <==> !read && tried >= 4,
        r is Read && tried == 0 ==> r->Read_0@ == "C:\\Windows\\Fonts\\YuGothM.ttc"@,
        r is Read && tried == 1 ==> r->Read_0@ == "C:\\Windows\\Fonts\\YuGothR.ttc"@,
        r is Read && tried == 2 ==> r->Read_0@ == "C:\\Windows\\Fonts\\meiryo.ttc"@,
        r is Read && tried == 3 ==> r->Read_0@ == "C:\\Windows\\Fonts\\msgothic.ttc"@,
{
}

/// The font goes in front of the proportional ones and behind the monospaced ones, which all stay.
pub proof fn lemma_font_installed(proportional: &mut Vec<String>, monospace: &mut Vec<String>)
    requires
        call_ensures(install_font, (proportional, monospace), ()),
    ensures
        final(proportional)@.len() == old(proportional)@.len() + 1,
        final(proportional)@[0]@ == "jp"@,
        forall|i: int|
            0 <= i < old(proportional)@.len() ==> (#[trigger] old(proportional)@[i])@
                == final(proportional)@[i + 1]@,
        final(monospace)@.len() == old(monospace)@.len() + 1,
        final(monospace)@[old(monospace)@.len() as int]@ == "jp"@,
        forall|i: int|
            0 <= i < old(monospace)@.len() ==> (#[trigger] old(monospace)@[i])@
                == final(monospace)@[i]@,
{
    let p0 = text_views(old(proportional)@);
    let p1 = text_views(final(proportional)@);
    let m0 = text_views(old(monospace)@);
    let m1 = text_views(final(monospace)@);
    assert(p0.len() == old(proportional)@.len() && p1.len() == final(proportional)@.len());
    assert(m0.len() == old(monospace)@.len() && m1.len() == final(monospace)@.len());
    assert(p1[0] == final(proportional)@[0]@);
    assert forall|i: int| 0 <= i < old(proportional)@.len() implies (
    #[trigger] old(proportional)@[i])@ == final(proportional)@[i + 1]@ by {
        assert(p0[i] == old(proportional)@[i]@ && p1[i + 1] == final(proportional)@[i + 1]@);
    }
    let n = old(monospace)@.len() as int;
    assert(m1[n] == final(monospace)@[n]@);
    assert forall|i: int| 0 <= i < old(monospace)@.len() implies (
    #[trigger] old(monospace)@[i])@ == final(monospace)@[i]@ by {
        assert(m0[i] == old(monospace)@[i]@ && m1[i] == final(monospace)@[i]@);
    }
}

} // verus!
