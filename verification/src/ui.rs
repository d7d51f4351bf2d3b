//! What the screen shows, and how events change it.

use vstd::prelude::*;
use vstd::string::*;

use crate::bt::{Command, Event, EventView, RadioState};
use crate::clock::{elapsed, Moment};
use crate::config::Config;
use crate::devices::{
    is_paired_list, is_shown, paired_row_views, Device, DeviceTable, DeviceView, PairedRow,
};
use crate::found::{
    found_row_views, found_rows, found_views, is_found_list, ClassicFound, ClassicFoundView,
    ClassicScanState, FoundRow,
};
use crate::labels::{radio_colour, radio_label_colored, radio_text, Rgb};
use crate::nearby::{
    after_sighting, is_nearby_list, nearby_row_views, unexpired, NearbyRow, NearbyTable,
    NearbyView, Sighting,
};
use crate::text::{decimal, decimal_text};
use crate::theme::{theme_text, ThemeChoice};

verus! {

/// The list of paired devices counts as complete once no device was added for this long, in
/// nanoseconds.
pub const QUIET_AFTER_ADDED: u64 = 2_500_000_000;

/// The list of paired devices counts as complete at the latest this long after the watcher
/// started, in nanoseconds.
pub const ENUMERATION_TIMEOUT: u64 = 4_000_000_000;

/// The three lists.
#[derive(Copy, Clone, Debug, PartialEq, Eq, Structural)]
pub enum ViewMode {
    Paired,
    NearbyBle,
    Classic,
}

/// The state of the screen as values.
pub struct Screen {
    pub config: Config,
    pub devices: Map<Seq<char>, DeviceView>,
    pub nearby: Map<u64, NearbyView>,
    pub radio: RadioState,
    pub enumerated: bool,
    pub last_added_at: Option<Moment>,
    pub watcher_started_at: Moment,
    pub last_dark_applied: Option<bool>,
    pub view_mode: ViewMode,
    pub classic_found: Seq<ClassicFoundView>,
    pub classic_scan: ClassicScanState,
    pub show_classic: bool,
    pub show_settings: bool,
}

/// The screen at the start.
pub open spec fn initial_screen(config: Config, now: Moment) -> Screen {
    Screen {
        config,
        devices: Map::empty(),
        nearby: Map::empty(),
        radio: RadioState::Unknown,
        enumerated: false,
        last_added_at: None,
        watcher_started_at: now,
        last_dark_applied: None,
        view_mode: ViewMode::Paired,
        classic_found: Seq::empty(),
        classic_scan: ClassicScanState::Idle,
        show_classic: false,
        show_settings: false,
    }
}

/// The screen after one event.
pub open spec fn after_event(s: Screen, e: EventView, now: Moment) -> Screen {
    match e {
        EventView::Added { id, name, kind, connected, rssi, address } => Screen {
            devices: s.devices.insert(
                id,
                DeviceView {
                    id,
                    name,
                    kind,
                    connected,
                    rssi,
                    last_rssi_at: if rssi is Some {
                        Some(now)
                    } else {
                        None
                    },
                    address,
                },
            ),
            last_added_at: Some(now),
            ..s
        },
        EventView::Updated { id, connected, rssi } => if s.devices.contains_key(id) {
            Screen {
                devices: s.devices.insert(id, s.devices[id].updated(connected, rssi, now)),
                ..s
            }
        } else {
            s
        },
        EventView::Removed(id) => Screen { devices: s.devices.remove(id), ..s },
        EventView::EnumerationComplete => Screen { enumerated: true, ..s },
        EventView::RescanStarted => Screen {
            devices: Map::empty(),
            nearby: Map::empty(),
            classic_found: Seq::empty(),
            classic_scan: ClassicScanState::Idle,
            enumerated: false,
            last_added_at: None,
            watcher_started_at: now,
            ..s
        },
        EventView::Radio(state) => Screen { radio: state, ..s },
        EventView::ClassicInquiryStarted => Screen {
            classic_scan: ClassicScanState::Running,
            classic_found: Seq::empty(),
            ..s
        },
        EventView::ClassicFound { address, name, class_of_device, connected, paired, remembered } =>
            Screen {
                classic_found: s.classic_found.push(
                    ClassicFoundView {
                        address,
                        name,
                        class_of_device,
                        connected,
                        paired,
                        remembered,
                    },
                ),
                ..s
            },
        EventView::ClassicInquiryFinished { total } => Screen {
            classic_scan: ClassicScanState::Finished(total),
            ..s
        },
        EventView::NearbyBleSeen { address, rssi, name, mfr_company, model_hint } => Screen {
            nearby: s.nearby.insert(
                address,
                after_sighting(
                    if s.nearby.contains_key(address) {
                        Some(s.nearby[address])
                    } else {
                        None
                    },
                    Sighting { address, rssi, name, mfr_company, model_hint },
                    now,
                ),
            ),
            devices: s.devices.map_values(
                |d: DeviceView| d.advertised(address, rssi as i32, now),
            ),
            ..s
        },
    }
}

/// The screen after events, in order.
pub open spec fn after_events(s: Screen, events: Seq<EventView>, now: Moment) -> Screen
    decreases events.len(),
{
    if events.len() == 0 {
        s
    } else {
        after_event(after_events(s, events.drop_last(), now), events.last(), now)
    }
}

/// Whether the list of paired devices counts as complete though nothing said so.
pub open spec fn settled(s: Screen, now: Moment) -> bool {
    ||| (s.last_added_at matches Some(t) && elapsed(now, t) >= QUIET_AFTER_ADDED)
    ||| elapsed(now, s.watcher_started_at) >= ENUMERATION_TIMEOUT
}

/// The screen after time alone has passed: devices nearby that fell silent are dropped, and the
/// list of paired devices may count as complete.
pub open spec fn after_waiting(s: Screen, now: Moment) -> Screen {
    Screen {
        nearby: unexpired(s.nearby, now),
        enumerated: s.enumerated || settled(s, now),
        ..s
    }
}

/// What holds of every screen: devices are found by their own identifiers and addresses, a signal
/// strength comes with the time at which it came in, and a device nearby was heard of.
pub open spec fn sound(s: Screen) -> bool {
    &&& forall|id: Seq<char>| #[trigger]
        s.devices.contains_key(id) ==> s.devices[id].id == id && s.devices[id].stamped()
    &&& forall|a: u64| #[trigger]
        s.nearby.contains_key(a) ==> s.nearby[a].address == a && s.nearby[a].packets >= 1
}

/// Events as values.
pub open spec fn event_views(events: Seq<Event>) -> Seq<EventView> {
    events.map_values(|e: Event| e@)
}

/// The state of the screen.
pub struct App {
    config: Config,
    devices: DeviceTable,
    nearby: NearbyTable,
    radio: RadioState,
    enumerated: bool,
    last_added_at: Option<Moment>,
    watcher_started_at: Moment,
    last_dark_applied: Option<bool>,
    view_mode: ViewMode,
    classic_found: Vec<ClassicFound>,
    classic_scan: ClassicScanState,
    show_classic: bool,
    show_settings: bool,
}

impl View for App {
    type V = Screen;

    closed spec fn view(&self) -> Screen {
        Screen {
            config: self.config,
            devices: self.devices@,
            nearby: self.nearby@,
            radio: self.radio,
            enumerated: self.enumerated,
            last_added_at: self.last_added_at,
            watcher_started_at: self.watcher_started_at,
            last_dark_applied: self.last_dark_applied,
            view_mode: self.view_mode,
            classic_found: found_views(self.classic_found@),
            classic_scan: self.classic_scan,
            show_classic: self.show_classic,
            show_settings: self.show_settings,
        }
    }
}

impl App {
    /// The tables of devices are in order.
    pub closed spec fn wf(self) -> bool {
        self.devices.wf() && self.nearby.wf()
    }

    /// What the tables keep holds of the screen.
    pub proof fn lemma_wf(self)
        requires
            self.wf(),
        ensures
            sound(self@),
    {
        self.devices.lemma_wf();
    }

    /// A screen on which nothing is listed yet. Classic devices are hidden at the start of every
    /// run.
    pub fn new(config: Config, now: Moment) -> (app: App)
        ensures
            app.wf(),
            app@ == initial_screen(config, now),
    {
        let app = App {
            config,
            devices: DeviceTable::new(),
            nearby: NearbyTable::new(),
            radio: RadioState::Unknown,
            enumerated: false,
            last_added_at: None,
            watcher_started_at: now,
            last_dark_applied: None,
            view_mode: ViewMode::Paired,
            classic_found: Vec::new(),
            classic_scan: ClassicScanState::Idle,
            show_classic: false,
            show_settings: false,
        };
        assert(app@.classic_found =~= Seq::empty());
        app
    }

    /// Takes in one event.
    fn handle(&mut self, event: Event, now: Moment)
        requires
            old(self).wf(),
        ensures
            final(self).wf(),
            final(self)@ == after_event(old(self)@, event@, now),
    {
        let ghost before = self@;
        match event {
            Event::Added { id, name, kind, connected, rssi, address } => {
                let last_rssi_at = match rssi {
                    Some(_) => Some(now),
                    None => None,
                };
                self.devices.insert(
                    Device { id, name, kind, connected, rssi, last_rssi_at, address },
                );
                self.last_added_at = Some(now);
            },
            Event::Updated { id, connected, rssi } => {
                self.devices.refresh(&id, connected, rssi, now);
            },
            Event::Removed(id) => {
                self.devices.remove(&id);
            },
            Event::EnumerationComplete => {
                self.enumerated = true;
            },
            Event::RescanStarted => {
                self.devices.clear();
                self.nearby.clear();
                self.classic_found.clear();
                self.classic_scan = ClassicScanState::Idle;
                self.enumerated = false;
                self.last_added_at = None;
                self.watcher_started_at = now;
                assert(self@.classic_found =~= Seq::empty());
            },
            Event::Radio(state) => {
                self.radio = state;
            },
            Event::ClassicInquiryStarted => {
                self.classic_scan = ClassicScanState::Running;
                self.classic_found.clear();
                assert(self@.classic_found =~= Seq::empty());
            },
            Event::ClassicFound { address, name, class_of_device, connected, paired, remembered } =>
            {
                let c = ClassicFound {
                    address,
                    name,
                    class_of_device,
                    connected,
                    paired,
                    remembered,
                };
                let ghost view = c@;
                self.classic_found.push(c);
                assert(self@.classic_found =~= before.classic_found.push(view));
            },
            Event::ClassicInquiryFinished { total } => {
                self.classic_scan = ClassicScanState::Finished(total);
            },
            Event::NearbyBleSeen { address, rssi, name, mfr_company, model_hint } => {
                self.nearby.record(address, rssi, name, mfr_company, model_hint, now);
                self.devices.advertise(address, rssi as i32, now);
            },
        }
    }

    /// Takes in the events that arrived, in order, then lets the time take its effect.
    pub fn drain_events(&mut self, events: Vec<Event>, now: Moment)
        requires
            old(self).wf(),
        ensures
            final(self).wf(),
            final(self)@ == after_waiting(
                after_events(old(self)@, event_views(events@), now),
                now,
            ),
    {
        let ghost before = self@;
        let ghost views = event_views(events@);
        for event in it: events
            invariant
                self.wf(),
                views == event_views(it.seq()),
                self@ == after_events(before, views.take(it.index()), now),
                it.index() == it.seq().len() ==> self@ == after_events(before, views, now),
        {
            let ghost n = it.index();
            assert(views.take(n + 1).drop_last() =~= views.take(n));
            assert(event@ == views[n]);
            self.handle(event, now);
            assert(n + 1 == views.len() ==> views.take(n + 1) =~= views);
        }
        self.nearby.expire(now);
        if !self.enumerated {
            let quiet = match self.last_added_at {
                Some(t) => now.duration_since(t).nanos >= QUIET_AFTER_ADDED,
                None => false,
            };
            let timed_out = now.duration_since(self.watcher_started_at).nanos
                >= ENUMERATION_TIMEOUT;
            if quiet || timed_out {
                self.enumerated = true;
            }
        }
    }
}

/// Whether the title bar has to be changed for a dark or a light background.
pub open spec fn title_bar_due(s: Screen, dark: bool) -> bool {
    s.last_dark_applied != Some(dark)
}

/// The screen once the title bar fits the background.
pub open spec fn title_bar_set(s: Screen, dark: bool) -> Screen {
    Screen { last_dark_applied: Some(dark), ..s }
}

/// What the bar at the top says.
pub struct TopBar {
    pub theme: &'static str,
    pub radio: &'static str,
    pub radio_colour: Rgb,
    pub status: String,
}

/// How many paired devices there are, or how many are there so far.
pub open spec fn status_text(s: Screen) -> Seq<char> {
    if s.enumerated {
        decimal(s.devices.len()) + " 台"@
    } else {
        "読込中... "@ + decimal(s.devices.len())
    }
}

/// The list of paired devices, or what is said in its place.
pub enum PairedList {
    Empty(&'static str),
    Rows(Vec<PairedRow>),
}

/// What is said where there is no paired device to show.
pub open spec fn no_paired_text(show_classic: bool) -> Seq<char> {
    if show_classic {
        "ペアリング済み機器がありません。"@
    } else {
        "ペアリング済み BLE 機器がありません。(Classic 機器は「設定」から表示)"@
    }
}

/// The list of devices nearby, under a heading.
pub struct NearbyList {
    pub heading: String,
    /// What is said where there is no device.
    pub message: Option<&'static str>,
    pub rows: Vec<NearbyRow>,
}

/// The list of found devices, and the state of the search.
pub struct ClassicList {
    /// Whether a search may be started.
    pub can_start: bool,
    pub button: &'static str,
    pub status: String,
    /// What is said where there is no device.
    pub message: Option<&'static str>,
    pub rows: Vec<FoundRow>,
}

/// What the button for the search says.
pub open spec fn scan_button_text(scan: ClassicScanState) -> Seq<char> {
    if scan == ClassicScanState::Running {
        "スキャン中...(~8秒)"@
    } else {
        "スキャン開始 (約 8 秒)"@
    }
}

/// How far the search has come, in words.
pub open spec fn scan_status_text(scan: ClassicScanState, found: nat) -> Seq<char> {
    match scan {
        ClassicScanState::Idle => "(未実行。ボタンで開始)"@,
        ClassicScanState::Running => "スキャン中… ("@ + decimal(found) + " 台検出)"@,
        ClassicScanState::Finished(total) => "完了: "@ + decimal(total as nat) + " 台"@,
    }
}

impl App {
    /// Has the title bar follow the theme: tells whether it has to be changed.
    pub fn title_bar_change(&mut self, dark: bool) -> (change: bool)
        ensures
            change == title_bar_due(old(self)@, dark),
            final(self)@ == title_bar_set(old(self)@, dark),
            old(self).wf() ==> final(self).wf(),
    {
        let change = match self.last_dark_applied {
            Some(d) => d != dark,
            None => true,
        };
        self.last_dark_applied = Some(dark);
        change
    }

    /// Tells whether the main screen reacts: it does not while the settings are open.
    pub fn main_enabled(&self) -> (r: bool)
        ensures
            r == !self@.show_settings,
    {
        !self.show_settings
    }

    /// What the bar at the top says, on a dark or a light background.
    pub fn top_bar(&self, dark: bool) -> (bar: TopBar)
        requires
            self.wf(),
        ensures
            bar.theme@ == theme_text(self@.config.theme),
            bar.radio@ == radio_text(self@.radio),
            bar.radio_colour == radio_colour(self@.radio, dark),
            bar.status@ == status_text(self@),
    {
        let total: usize = self.devices.len();
        let (radio, radio_colour) = radio_label_colored(self.radio, dark);
        let status = if self.enumerated {
            let mut s = decimal_text(total as u64);
            s.append(" 台");
            s
        } else {
            let mut s = "読込中... ".to_owned();
            s.append(decimal_text(total as u64).as_str());
            s
        };
        TopBar { theme: self.config.theme.label(), radio, radio_colour, status }
    }

    /// What the button for a rescan asks of the Bluetooth side.
    pub fn rescan_clicked(&self, clicked: bool) -> (r: Option<Command>)
        ensures
            r == if clicked {
                Some(Command::Rescan)
            } else {
                None
            },
    {
        if clicked {
            Some(Command::Rescan)
        } else {
            None
        }
    }

    /// What the button for the search asks of the Bluetooth side: nothing while a search runs.
    pub fn scan_clicked(&self, clicked: bool) -> (r: Option<Command>)
        ensures
            r == if clicked && self@.classic_scan != ClassicScanState::Running {
                Some(Command::StartClassicInquiry)
            } else {
                None
            },
    {
        if !clicked {
            return None;
        }
        match self.classic_scan {
            ClassicScanState::Running => None,
            _ => Some(Command::StartClassicInquiry),
        }
    }

    /// The settings that are kept between runs.
    pub fn config(&self) -> (c: Config)
        ensures
            c == self@.config,
    {
        self.config
    }

    /// Takes over a theme: tells whether it is another one than before, so that it has to be
    /// applied and kept.
    pub fn set_theme(&mut self, theme: ThemeChoice) -> (change: bool)
        ensures
            change == (old(self)@.config.theme != theme),
            final(self)@ == (Screen { config: Config { theme }, ..old(self)@ }),
            old(self).wf() ==> final(self).wf(),
    {
        let change = self.config.theme != theme;
        self.config = Config { theme };
        change
    }

    /// Which list is in front.
    pub fn view_mode(&self) -> (m: ViewMode)
        ensures
            m == self@.view_mode,
    {
        self.view_mode
    }

    /// Brings a list to the front.
    pub fn set_view_mode(&mut self, mode: ViewMode)
        ensures
            final(self)@ == (Screen { view_mode: mode, ..old(self)@ }),
            old(self).wf() ==> final(self).wf(),
    {
        self.view_mode = mode;
    }

    /// Opens the settings.
    pub fn open_settings(&mut self)
        ensures
            final(self)@ == (Screen { show_settings: true, ..old(self)@ }),
            old(self).wf() ==> final(self).wf(),
    {
        self.show_settings = true;
    }

    /// Tells whether the settings are to be drawn; the escape key closes them.
    pub fn settings_window(&mut self, escape: bool) -> (draw: bool)
        ensures
            draw == (old(self)@.show_settings && !escape),
            final(self)@ == (Screen { show_settings: draw, ..old(self)@ }),
            old(self).wf() ==> final(self).wf(),
    {
        if !self.show_settings {
            return false;
        }
        if escape {
            self.show_settings = false;
            return false;
        }
        true
    }

    /// Takes in whether the sheet behind the settings was clicked, which closes them.
    pub fn settings_scrim(&mut self, clicked: bool)
        ensures
            final(self)@ == (Screen {
                show_settings: old(self)@.show_settings && !clicked,
                ..old(self)@
            }),
            old(self).wf() ==> final(self).wf(),
    {
        if clicked {
            self.show_settings = false;
        }
    }

    /// Takes in how the settings were left: whether they are still open, and whether Classic
    /// devices are to be shown.
    pub fn leave_settings(&mut self, open: bool, show_classic: bool)
        ensures
            final(self)@ == (Screen {
                show_settings: old(self)@.show_settings && open,
                show_classic,
                ..old(self)@
            }),
            old(self).wf() ==> final(self).wf(),
    {
        self.show_classic = show_classic;
        if !open {
            self.show_settings = false;
        }
    }

    /// Whether Classic devices are among the paired devices shown.
    pub fn show_classic(&self) -> (r: bool)
        ensures
            r == self@.show_classic,
    {
        self.show_classic
    }

    /// The list of paired devices.
    pub fn paired_list(&self, now: Moment) -> (list: PairedList)
        requires
            self.wf(),
        ensures
            match list {
                PairedList::Empty(message) => {
                    &&& self@.enumerated
                    &&& forall|id: Seq<char>|
                        !#[trigger] is_shown(self@.devices, self@.show_classic, id)
                    &&& message@ == no_paired_text(self@.show_classic)
                },
                PairedList::Rows(rows) => {
                    &&& is_paired_list(
                        self@.devices,
                        self@.show_classic,
                        now,
                        paired_row_views(rows@),
                    )
                    &&& rows@.len() == 0 ==> !self@.enumerated
                },
            },
    {
        let rows = self.devices.rows(self.show_classic, now);
        if rows.len() == 0 && self.enumerated {
            assert forall|id: Seq<char>| !#[trigger] is_shown(
                self@.devices,
                self@.show_classic,
                id,
            ) by {
                if is_shown(self@.devices, self@.show_classic, id) {
                    let views = paired_row_views(rows@);
                    assert(exists|i: int| 0 <= i < views.len() && (#[trigger] views[i]).id == id);
                }
            }
            if self.show_classic {
                PairedList::Empty("ペアリング済み機器がありません。")
            } else {
                PairedList::Empty(
                    "ペアリング済み BLE 機器がありません。(Classic 機器は「設定」から表示)",
                )
            }
        } else {
            PairedList::Rows(rows)
        }
    }

    /// The list of devices nearby.
    pub fn nearby_list(&self) -> (list: NearbyList)
        requires
            self.wf(),
        ensures
            list.heading@ == "BLE 広告を直接受信 (500ms スロットル)。現在 "@ + decimal(
                self@.nearby.len(),
            ) + " 台。値は絶対 dBm。"@,
            match list.message {
                Some(m) => self@.nearby.len() == 0 && m@
                    == "近くの BLE 広告はまだ観測されていません..."@,
                None => self@.nearby.len() > 0,
            },
            is_nearby_list(self@.nearby, nearby_row_views(list.rows@)),
    {
        let total: usize = self.nearby.len();
        let mut heading = "BLE 広告を直接受信 (500ms スロットル)。現在 ".to_owned();
        heading.append(decimal_text(total as u64).as_str());
        heading.append(" 台。値は絶対 dBm。");
        let message = if total == 0 {
            Some("近くの BLE 広告はまだ観測されていません...")
        } else {
            None
        };
        NearbyList { heading, message, rows: self.nearby.rows() }
    }

    /// The list of found devices.
    pub fn classic_list(&self) -> (list: ClassicList)
        ensures
            list.can_start == (self@.classic_scan != ClassicScanState::Running),
            list.button@ == scan_button_text(self@.classic_scan),
            list.status@ == scan_status_text(self@.classic_scan, self@.classic_found.len()),
            match list.message {
                Some(m) => self@.classic_found.len() == 0 && m@
                    == "(まだ結果がありません。上のボタンで Inquiry を発行してください)"@,
                None => self@.classic_found.len() > 0,
            },
            is_found_list(self@.classic_found, found_row_views(list.rows@)),
    {
        let scanning = match self.classic_scan {
            ClassicScanState::Running => true,
            _ => false,
        };
        let button = if scanning {
            "スキャン中...(~8秒)"
        } else {
            "スキャン開始 (約 8 秒)"
        };
        let status = match self.classic_scan {
            ClassicScanState::Idle => "(未実行。ボタンで開始)".to_owned(),
            ClassicScanState::Running => {
                let mut s = "スキャン中… (".to_owned();
                s.append(decimal_text(self.classic_found.len() as u64).as_str());
                s.append(" 台検出)");
                s
            },
            ClassicScanState::Finished(total) => {
                let mut s = "完了: ".to_owned();
                s.append(decimal_text(total as u64).as_str());
                s.append(" 台");
                s
            },
        };
        let message = if self.classic_found.len() == 0 {
            Some("(まだ結果がありません。上のボタンで Inquiry を発行してください)")
        } else {
            None
        };
        ClassicList {
            can_start: !scanning,
            button,
            status,
            message,
            rows: found_rows(&self.classic_found),
        }
    }
}

} // verus!
