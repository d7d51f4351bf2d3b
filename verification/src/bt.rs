//! What the Bluetooth side reports, and how its readings become events.

use vstd::prelude::*;
use vstd::string::*;

use crate::text::{has_prefix, starts_with};

verus! {

/// Property that holds the signal strength of a paired device.
pub const PROP_SIGNAL: &'static str = "System.Devices.Aep.SignalStrength";

/// Property that tells whether a paired device is connected.
pub const PROP_CONNECTED: &'static str = "System.Devices.Aep.IsConnected";

/// Property that holds the address of a paired device.
pub const PROP_ADDRESS: &'static str = "System.Devices.Aep.DeviceAddress";

/// Protocol identifier of Bluetooth Classic.
pub const PROTOCOL_BT_CLASSIC: &'static str = "{e0cbf06c-cd8b-4647-bb8a-263b43f0f974}";

/// Protocol identifier of Bluetooth Low Energy.
pub const PROTOCOL_BT_LE: &'static str = "{bb7bb05e-5972-42b5-94fc-76eaa7084d49}";

/// The two families of Bluetooth devices.
#[derive(Copy, Clone, Debug, PartialEq, Eq, Structural)]
pub enum DeviceKind {
    Classic,
    Ble,
}

/// State of the Bluetooth radio of this machine.
#[derive(Copy, Clone, Debug, PartialEq, Eq, Structural)]
pub enum RadioState {
    On,
    Off,
    Disabled,
    Unknown,
    Absent,
}

/// What the Bluetooth side tells the screen.
#[derive(Debug)]
#[allow(inconsistent_fields)]
pub enum Event {
    /// A paired device is there.
    Added {
        id: String,
        name: String,
        kind: DeviceKind,
        connected: bool,
        rssi: Option<i32>,
        address: String,
    },
    /// Something about a paired device changed.
    Updated { id: String, connected: Option<bool>, rssi: Option<i32> },
    /// A paired device is gone.
    Removed(String),
    /// Every paired device has been reported.
    EnumerationComplete,
    /// The watcher is about to be made anew: everything will be reported again.
    RescanStarted,
    /// The radio is in this state.
    Radio(RadioState),
    /// One advertisement of a device nearby, paired or not.
    NearbyBleSeen {
        address: u64,
        rssi: i16,
        name: Option<String>,
        mfr_company: Option<u16>,
        model_hint: Option<String>,
    },
    /// A search for Classic devices began.
    ClassicInquiryStarted,
    /// The search found a device.
    ClassicFound {
        address: u64,
        name: String,
        class_of_device: u32,
        connected: bool,
        paired: bool,
        remembered: bool,
    },
    /// The search ended, having found this many devices.
    ClassicInquiryFinished { total: u32 },
}

/// What the screen asks of the Bluetooth side.
#[derive(Copy, Clone, Debug, PartialEq, Eq, Structural)]
pub enum Command {
    /// Make the watcher of paired devices anew.
    Rescan,
    /// Search for Classic devices, which takes about eight seconds.
    StartClassicInquiry,
}

/// An event as values.
#[allow(inconsistent_fields)]
pub enum EventView {
    Added {
        id: Seq<char>,
        name: Seq<char>,
        kind: DeviceKind,
        connected: bool,
        rssi: Option<i32>,
        address: Seq<char>,
    },
    Updated { id: Seq<char>, connected: Option<bool>, rssi: Option<i32> },
    Removed(Seq<char>),
    EnumerationComplete,
    RescanStarted,
    Radio(RadioState),
    NearbyBleSeen {
        address: u64,
        rssi: i16,
        name: Option<Seq<char>>,
        mfr_company: Option<u16>,
        model_hint: Option<Seq<char>>,
    },
    ClassicInquiryStarted,
    ClassicFound {
        address: u64,
        name: Seq<char>,
        class_of_device: u32,
        connected: bool,
        paired: bool,
        remembered: bool,
    },
    ClassicInquiryFinished { total: u32 },
}

/// The characters of a text that may be missing.
pub open spec fn optional_text(s: Option<String>) -> Option<Seq<char>> {
    match s {
        Some(t) => Some(t@),
        None => None,
    }
}

/// The characters of a text that may be missing, or no characters.
pub open spec fn text_or_empty(s: Option<String>) -> Seq<char> {
    match s {
        Some(t) => t@,
        None => Seq::empty(),
    }
}

impl View for Event {
    type V = EventView;

    open spec fn view(&self) -> EventView {
        match *self {
            Event::Added { id, name, kind, connected, rssi, address } => EventView::Added {
                id: id@,
                name: name@,
                kind,
                connected,
                rssi,
                address: address@,
            },
            Event::Updated { id, connected, rssi } => EventView::Updated {
                id: id@,
                connected,
                rssi,
            },
            Event::Removed(id) => EventView::Removed(id@),
            Event::EnumerationComplete => EventView::EnumerationComplete,
            Event::RescanStarted => EventView::RescanStarted,
            Event::Radio(state) => EventView::Radio(state),
            Event::NearbyBleSeen { address, rssi, name, mfr_company, model_hint } =>
                EventView::NearbyBleSeen {
                    address,
                    rssi,
                    name: optional_text(name),
                    mfr_company,
                    model_hint: optional_text(model_hint),
                },
            Event::ClassicInquiryStarted => EventView::ClassicInquiryStarted,
            Event::ClassicFound { address, name, class_of_device, connected, paired, remembered } =>
                EventView::ClassicFound {
                    address,
                    name: name@,
                    class_of_device,
                    connected,
                    paired,
                    remembered,
                },
            Event::ClassicInquiryFinished { total } => EventView::ClassicInquiryFinished { total },
        }
    }
}

/// The family of a device, by how its identifier begins.
pub open spec fn kind_of_id(id: Seq<char>) -> DeviceKind {
    if has_prefix(id, "BluetoothLE"@) {
        DeviceKind::Ble
    } else {
        DeviceKind::Classic
    }
}

/// Tells the family of a device from its identifier.
pub fn classify(id: &str) -> (kind: DeviceKind)
    ensures
        kind == kind_of_id(id@),
{
    if starts_with(id, "BluetoothLE") {
        DeviceKind::Ble
    } else {
        DeviceKind::Classic
    }
}

/// A signal strength that was measured: 0 dBm stands for "not measured" and -127 dBm for "out
/// of range".
pub open spec fn measured(rssi: int) -> bool {
    -126 <= rssi <= -1
}

/// Tells whether a signal strength was measured.
pub fn is_valid_rssi(v: i32) -> (r: bool)
    ensures
        r == measured(v as int),
{
    v < 0 && v > -127
}

/// A property of a paired device, as far as it could be read as a number, a truth value or a
/// text.
pub struct Property {
    pub key: String,
    pub int32: Option<i32>,
    pub boolean: Option<bool>,
    pub text: Option<String>,
}

/// A property as values.
pub struct PropertyView {
    pub key: Seq<char>,
    pub int32: Option<i32>,
    pub boolean: Option<bool>,
    pub text: Option<Seq<char>>,
}

impl View for Property {
    type V = PropertyView;

    open spec fn view(&self) -> PropertyView {
        PropertyView {
            key: self.key@,
            int32: self.int32,
            boolean: self.boolean,
            text: optional_text(self.text),
        }
    }
}

/// Properties as values.
pub open spec fn property_views(props: Seq<Property>) -> Seq<PropertyView> {
    props.map_values(|p: Property| p@)
}

/// The first property under a key.
pub open spec fn property(props: Seq<PropertyView>, key: Seq<char>) -> Option<PropertyView>
    decreases props.len(),
{
    if props.len() == 0 {
        None
    } else if props[0].key == key {
        Some(props[0])
    } else {
        property(props.drop_first(), key)
    }
}

/// The number under a key.
pub open spec fn number_at(props: Seq<PropertyView>, key: Seq<char>) -> Option<i32> {
    match property(props, key) {
        Some(p) => p.int32,
        None => None,
    }
}

/// The truth value under a key.
pub open spec fn truth_at(props: Seq<PropertyView>, key: Seq<char>) -> Option<bool> {
    match property(props, key) {
        Some(p) => p.boolean,
        None => None,
    }
}

/// The text under a key.
pub open spec fn text_at(props: Seq<PropertyView>, key: Seq<char>) -> Option<Seq<char>> {
    match property(props, key) {
        Some(p) => p.text,
        None => None,
    }
}

/// Where the first property under a key stands.
fn find_property(props: &Vec<Property>, key: &str) -> (r: Option<usize>)
    ensures
        match r {
            Some(i) => i < props@.len() && property(property_views(props@), key@) == Some(
                props@[i as int]@,
            ),
            None => property(property_views(props@), key@) is None,
        },
{
    let ghost views = property_views(props@);
    let wanted = key.to_owned();
    let mut i: usize = 0;
    assert(views.skip(0) =~= views);
    while i < props.len()
        invariant
            views == property_views(props@),
            wanted@ == key@,
            i <= props@.len(),
            property(views, key@) == property(views.skip(i as int), key@),
        decreases props@.len() - i,
    {
        assert(views.skip(i as int)[0] == props@[i as int]@);
        if props[i].key == wanted {
            return Some(i);
        }
        assert(views.skip(i as int).drop_first() =~= views.skip(i + 1));
        i += 1;
    }
    None
}

/// Looks up a number.
pub fn lookup_i32(props: &Vec<Property>, key: &str) -> (r: Option<i32>)
    ensures
        r == number_at(property_views(props@), key@),
{
    match find_property(props, key) {
        Some(i) => props[i].int32,
        None => None,
    }
}

/// Looks up a truth value.
pub fn lookup_bool(props: &Vec<Property>, key: &str) -> (r: Option<bool>)
    ensures
        r == truth_at(property_views(props@), key@),
{
    match find_property(props, key) {
        Some(i) => props[i].boolean,
        None => None,
    }
}

/// Looks up a text.
pub fn lookup_string(props: &Vec<Property>, key: &str) -> (r: Option<String>)
    ensures
        optional_text(r) == text_at(property_views(props@), key@),
{
    match find_property(props, key) {
        Some(i) => match &props[i].text {
            Some(s) => Some(s.clone()),
            None => None,
        },
        None => None,
    }
}

/// What a watcher reports about a paired device. What could not be read is missing.
pub struct Notice {
    pub id: Option<String>,
    pub name: Option<String>,
    pub props: Option<Vec<Property>>,
}

/// The properties of a report, none if they could not be read.
pub open spec fn noticed_props(props: Option<Vec<Property>>) -> Seq<PropertyView> {
    match props {
        Some(p) => property_views(p@),
        None => Seq::empty(),
    }
}

/// The signal strength of a report, if it was measured.
pub open spec fn noticed_rssi(props: Option<Vec<Property>>) -> Option<i32> {
    match number_at(noticed_props(props), PROP_SIGNAL@) {
        Some(v) => if measured(v as int) {
            Some(v)
        } else {
            None
        },
        None => None,
    }
}

/// A text, or the empty text in its place.
fn or_empty(s: Option<String>) -> (r: String)
    ensures
        r@ == text_or_empty(s),
{
    match s {
        Some(t) => t,
        None => String::new(),
    }
}

/// The signal strength among properties, if it was measured.
fn measured_rssi(props: &Option<Vec<Property>>) -> (r: Option<i32>)
    ensures
        r == noticed_rssi(*props),
{
    match props {
        Some(p) => match lookup_i32(p, PROP_SIGNAL) {
            Some(v) => if is_valid_rssi(v) {
                Some(v)
            } else {
                None
            },
            None => None,
        },
        None => None,
    }
}

/// The event that a paired device is there.
pub fn added_event(notice: Notice) -> (e: Event)
    ensures
        e@ == (EventView::Added {
            id: text_or_empty(notice.id),
            name: text_or_empty(notice.name),
            kind: kind_of_id(text_or_empty(notice.id)),
            connected: truth_at(noticed_props(notice.props), PROP_CONNECTED@) == Some(true),
            rssi: noticed_rssi(notice.props),
            address: match text_at(noticed_props(notice.props), PROP_ADDRESS@) {
                Some(a) => a,
                None => Seq::empty(),
            },
        }),
{
    let ghost told = notice.props;
    let rssi = measured_rssi(&notice.props);
    let id = or_empty(notice.id);
    let name = or_empty(notice.name);
    let kind = classify(id.as_str());
    let mut connected = false;
    let mut address = String::new();
    if let Some(p) = notice.props {
        assert(property_views(p@) == noticed_props(told));
        connected = match lookup_bool(&p, PROP_CONNECTED) {
            Some(c) => c,
            None => false,
        };
        address = or_empty(lookup_string(&p, PROP_ADDRESS));
    }
    Event::Added { id, name, kind, connected, rssi, address }
}

/// The event that something about a paired device changed.
pub fn updated_event(notice: Notice) -> (e: Event)
    ensures
        e@ == (EventView::Updated {
            id: text_or_empty(notice.id),
            connected: truth_at(noticed_props(notice.props), PROP_CONNECTED@),
            rssi: noticed_rssi(notice.props),
        }),
{
    let rssi = measured_rssi(&notice.props);
    let connected = match &notice.props {
        Some(p) => lookup_bool(p, PROP_CONNECTED),
        None => None,
    };
    Event::Updated { id: or_empty(notice.id), connected, rssi }
}

/// The event that a paired device is gone.
pub fn removed_event(id: Option<String>) -> (e: Event)
    ensures
        e@ == EventView::Removed(text_or_empty(id)),
{
    Event::Removed(or_empty(id))
}

/// A signal strength that a watcher reports was measured: no report of a paired device lets the
/// values that stand for "not measured" and "out of range" through.
pub proof fn lemma_reported_rssi_measured(props: Option<Vec<Property>>)
    ensures
        noticed_rssi(props) matches Some(v) ==> measured(v as int),
{
}

/// The query for paired devices of both families.
pub open spec fn paired_query() -> Seq<char> {
    "(System.Devices.Aep.ProtocolId:=\""@ + PROTOCOL_BT_CLASSIC@
        + "\" OR System.Devices.Aep.ProtocolId:=\""@ + PROTOCOL_BT_LE@
        + "\") AND System.Devices.Aep.IsPaired:=System.StructuredQueryType.Boolean#True"@
}

/// Writes the query for paired devices of both families.
pub fn aqs_filter() -> (s: String)
    ensures
        s@ == paired_query(),
{
    let mut s = "(System.Devices.Aep.ProtocolId:=\"".to_owned();
    s.append(PROTOCOL_BT_CLASSIC);
    s.append("\" OR System.Devices.Aep.ProtocolId:=\"");
    s.append(PROTOCOL_BT_LE);
    s.append("\") AND System.Devices.Aep.IsPaired:=System.StructuredQueryType.Boolean#True");
    s
}

/// The properties that a watcher is asked for.
pub fn requested_properties() -> (v: Vec<String>)
    ensures
        v@.map_values(|s: String| s@) == seq![PROP_SIGNAL@, PROP_CONNECTED@, PROP_ADDRESS@],
{
    let mut v: Vec<String> = Vec::new();
    v.push(PROP_SIGNAL.to_owned());
    v.push(PROP_CONNECTED.to_owned());
    v.push(PROP_ADDRESS.to_owned());
    assert(v@.map_values(|s: String| s@) =~= seq![PROP_SIGNAL@, PROP_CONNECTED@, PROP_ADDRESS@]);
    v
}

/// Families of radios, as far as they matter here.
#[derive(Copy, Clone, Debug, PartialEq, Eq, Structural)]
pub enum RadioKind {
    Bluetooth,
    Other,
}

/// What the system says of a radio.
#[derive(Copy, Clone, Debug, PartialEq, Eq, Structural)]
pub enum RadioPower {
    On,
    Off,
    Disabled,
    Other,
}

/// A radio of this machine. What could not be read is missing.
#[derive(Copy, Clone, Debug, PartialEq, Eq, Structural)]
pub struct RadioReading {
    pub kind: Option<RadioKind>,
    pub power: Option<RadioPower>,
}

/// The state that a reading stands for.
pub open spec fn state_of_power(power: Option<RadioPower>) -> RadioState {
    match power {
        Some(RadioPower::On) => RadioState::On,
        Some(RadioPower::Off) => RadioState::Off,
        Some(RadioPower::Disabled) => RadioState::Disabled,
        _ => RadioState::Unknown,
    }
}

/// The state of the first Bluetooth radio, if there is one.
pub open spec fn bluetooth_state(radios: Seq<RadioReading>) -> RadioState
    decreases radios.len(),
{
    if radios.len() == 0 {
        RadioState::Absent
    } else if radios[0].kind == Some(RadioKind::Bluetooth) {
        state_of_power(radios[0].power)
    } else {
        bluetooth_state(radios.drop_first())
    }
}

/// Tells the state of the Bluetooth radio.
pub fn extract_bt_radio_state(radios: &Vec<RadioReading>) -> (state: RadioState)
    ensures
        state == bluetooth_state(radios@),
{
    let mut i: usize = 0;
    assert(radios@.skip(0) =~= radios@);
    while i < radios.len()
        invariant
            i <= radios@.len(),
            bluetooth_state(radios@) == bluetooth_state(radios@.skip(i as int)),
        decreases radios@.len() - i,
    {
        let radio: RadioReading = radios[i];
        if let Some(RadioKind::Bluetooth) = radio.kind {
            return match radio.power {
                Some(RadioPower::On) => RadioState::On,
                Some(RadioPower::Off) => RadioState::Off,
                Some(RadioPower::Disabled) => RadioState::Disabled,
                _ => RadioState::Unknown,
            };
        }
        assert(radios@.skip(i as int).drop_first() =~= radios@.skip(i + 1));
        i += 1;
    }
    RadioState::Absent
}

/// The radio counts as absent exactly where no radio is known to be a Bluetooth radio.
pub proof fn lemma_absent_without_bluetooth(radios: Seq<RadioReading>)
    ensures
        bluetooth_state(radios) == RadioState::Absent <==> forall|i: int|
            0 <= i < radios.len() ==> (#[trigger] radios[i]).kind != Some(RadioKind::Bluetooth),
    decreases radios.len(),
{
    if radios.len() > 0 {
        let rest = radios.drop_first();
        lemma_absent_without_bluetooth(rest);
        if radios[0].kind != Some(RadioKind::Bluetooth) {
            assert forall|i: int| 0 <= i < rest.len() implies #[trigger] rest[i] == radios[i + 1] by {}
            if bluetooth_state(radios) == RadioState::Absent {
                assert forall|i: int| 0 <= i < radios.len() implies (#[trigger] radios[i]).kind
                    != Some(RadioKind::Bluetooth) by {
                    if i > 0 {
                        assert(rest[i - 1] == radios[i]);
                    }
                }
            }
        }
    }
}

} // verus!
