//! What holds of the events that readings of the system become.

use vstd::prelude::*;

use crate::bt::{
    added_event, aqs_filter, classify, extract_bt_radio_state, is_valid_rssi, lookup_bool,
    lookup_i32, lookup_string, property, property_views, removed_event, requested_properties,
    truth_at, updated_event, DeviceKind, Event, EventView, Notice, Property, PropertyView,
    RadioKind, RadioPower, RadioReading, RadioState,
};

verus! {

/// Whether the first property under a key stands at place `i`.
pub open spec fn first_under(props: Seq<Property>, key: Seq<char>, i: int) -> bool {
    &&& 0 <= i < props.len()
    &&& props[i].key@ == key
    &&& forall|j: int| 0 <= j < i ==> (#[trigger] props[j]).key@ != key
}

/// Whether no property stands under a key.
pub open spec fn none_under(props: Seq<Property>, key: Seq<char>) -> bool {
    forall|j: int| 0 <= j < props.len() ==> (#[trigger] props[j]).key@ != key
}

proof fn lemma_property_found(views: Seq<PropertyView>, key: Seq<char>, i: int)
    requires
        0 <= i <= views.len(),
        forall|j: int| 0 <= j < i ==> (#[trigger] views[j]).key != key,
        i < views.len() ==> views[i].key == key,
    ensures
        property(views, key) == if i < views.len() {
            Some(views[i])
        } else {
            None
        },
    decreases views.len(),
{
    if views.len() > 0 && i > 0 {
        let rest = views.drop_first();
        assert forall|j: int| 0 <= j < i - 1 implies (#[trigger] rest[j]).key != key by {
            assert(views[j + 1].key != key);
        }
        assert(views[0].key != key);
        lemma_property_found(rest, key, i - 1);
        assert(i < views.len() ==> rest[i - 1] == views[i]);
    }
}

proof fn lemma_first_under(props: Seq<Property>, key: Seq<char>)
    ensures
        forall|i: int| #[trigger]
            first_under(props, key, i) ==> property(property_views(props), key) == Some(props[i]@),
        none_under(props, key) ==> property(property_views(props), key) is None,
{
    let views = property_views(props);
    assert forall|i: int| #[trigger] first_under(props, key, i) implies property(views, key) == Some(
        props[i]@,
    ) by {
        assert forall|j: int| 0 <= j < i implies (#[trigger] views[j]).key != key by {
            assert(props[j].key@ != key);
        }
        lemma_property_found(views, key, i);
    }
    if none_under(props, key) {
        assert forall|j: int| 0 <= j < views.len() implies (#[trigger] views[j]).key != key by {
            assert(props[j].key@ != key);
        }
        lemma_property_found(views, key, views.len() as int);
    }
}

/// The first property under a key tells what is looked up; without one there is nothing.
pub proof fn lemma_looked_up(
    props: Vec<Property>,
    key: &str,
    i: int,
    number: Option<i32>,
    truth: Option<bool>,
    text: Option<String>,
)
    requires
        call_ensures(lookup_i32, (&props, key), number),
        call_ensures(lookup_bool, (&props, key), truth),
        call_ensures(lookup_string, (&props, key), text),
    ensures
        first_under(props@, key@, i) ==> {
            &&& number == props@[i].int32
            &&& truth == props@[i].boolean
            &&& text is Some <==> props@[i].text is Some
            &&& text is Some ==> text->0@ == props@[i].text->0@
        },
        none_under(props@, key@) ==> number is None && truth is None && text is None,
{
    lemma_first_under(props@, key@);
}

/// Whether `told` is a text that may be missing, or no characters in its place.
pub open spec fn is_text_or_empty(told: Seq<char>, text: Option<String>) -> bool {
    match text {
        Some(t) => told == t@,
        None => told.len() == 0,
    }
}

/// Whether `rssi` is the number under the key of the signal strength, where it lies between -126
/// and -1.
pub open spec fn is_reported_signal(rssi: Option<i32>, props: Option<Vec<Property>>) -> bool {
    match props {
        Some(p) => {
            &&& forall|i: int| #[trigger]
                first_under(p@, "System.Devices.Aep.SignalStrength"@, i) ==> {
                    let told = p@[i].int32;
                    if told is Some && -127 < told->0 < 0 {
                        rssi == told
                    } else {
                        rssi is None
                    }
                }
            &&& none_under(p@, "System.Devices.Aep.SignalStrength"@) ==> rssi is None
        },
        None => rssi is None,
    }
}

/// Whether `connected` is the truth value under the key of the connection.
pub open spec fn is_reported_connection(
    connected: Option<bool>,
    props: Option<Vec<Property>>,
) -> bool {
    match props {
        Some(p) => {
            &&& forall|i: int| #[trigger]
                first_under(p@, "System.Devices.Aep.IsConnected"@, i) ==> connected == p@[i].boolean
            &&& none_under(p@, "System.Devices.Aep.IsConnected"@) ==> connected is None
        },
        None => connected is None,
    }
}

/// Whether `address` is the text under the key of the address, or no characters.
pub open spec fn is_reported_address(address: Seq<char>, props: Option<Vec<Property>>) -> bool {
    match props {
        Some(p) => {
            &&& forall|i: int| #[trigger]
                first_under(p@, "System.Devices.Aep.DeviceAddress"@, i) ==> is_text_or_empty(
                    address,
                    p@[i].text,
                )
            &&& none_under(p@, "System.Devices.Aep.DeviceAddress"@) ==> address.len() == 0
        },
        None => address.len() == 0,
    }
}

/// Whether an identifier is that of a low-energy device.
pub open spec fn is_ble_id(id: Seq<char>) -> bool {
    &&& id.len() >= 11
    &&& id.take(11) == seq!['B', 'l', 'u', 'e', 't', 'o', 'o', 't', 'h', 'L', 'E']
}

proof fn lemma_ble_id(id: Seq<char>)
    ensures
        is_ble_id(id) <==> crate::bt::kind_of_id(id) == DeviceKind::Ble,
{
    reveal_strlit("BluetoothLE");
    assert("BluetoothLE"@ =~= seq!['B', 'l', 'u', 'e', 't', 'o', 'o', 't', 'h', 'L', 'E']);
}

/// The identifier tells the family, by how it begins.
pub proof fn lemma_family_by_id(id: &str, kind: DeviceKind)
    requires
        call_ensures(classify, (id,), kind),
    ensures
        kind == DeviceKind::Ble <==> is_ble_id(id@),
{
    lemma_ble_id(id@);
}

/// Signal strengths from -126 to -1 were measured, and no others.
pub proof fn lemma_measured_range(v: i32, r: bool)
    requires
        call_ensures(is_valid_rssi, (v,), r),
    ensures
        r <==> -126 <= v <= -1,
{
}

proof fn lemma_reported_parts(props: Option<Vec<Property>>)
    ensures
        is_reported_signal(crate::bt::noticed_rssi(props), props),
        is_reported_connection(
            truth_at(crate::bt::noticed_props(props), crate::bt::PROP_CONNECTED@),
            props,
        ),
{
    if let Some(p) = props {
        lemma_first_under(p@, "System.Devices.Aep.SignalStrength"@);
        lemma_first_under(p@, "System.Devices.Aep.IsConnected"@);
    }
}

/// The report that a device is there tells what was read of it; what could not be read is empty,
/// missing or false.
pub proof fn lemma_addition_reported(notice: Notice, e: Event)
    requires
        call_ensures(added_event, (notice,), e),
    ensures
        match e {
            Event::Added { id, name, kind, connected, rssi, address } => {
                &&& is_text_or_empty(id@, notice.id)
                &&& is_text_or_empty(name@, notice.name)
                &&& kind == DeviceKind::Ble <==> is_ble_id(id@)
                &&& is_reported_signal(rssi, notice.props)
                &&& exists|c: Option<bool>| #[trigger]
                    is_reported_connection(c, notice.props) && connected == (c == Some(true))
                &&& is_reported_address(address@, notice.props)
            },
            _ => false,
        },
{
    lemma_ble_id(crate::bt::text_or_empty(notice.id));
    lemma_reported_parts(notice.props);
    if let Some(p) = notice.props {
        lemma_first_under(p@, "System.Devices.Aep.DeviceAddress"@);
    }
}

/// The report that something changed tells only what was read.
pub proof fn lemma_update_reported(notice: Notice, e: Event)
    requires
        call_ensures(updated_event, (notice,), e),
    ensures
        match e {
            Event::Updated { id, connected, rssi } => {
                &&& is_text_or_empty(id@, notice.id)
                &&& is_reported_signal(rssi, notice.props)
                &&& is_reported_connection(connected, notice.props)
            },
            _ => false,
        },
{
    lemma_reported_parts(notice.props);
}

/// The report that a device is gone names it.
pub proof fn lemma_removal_reported(id: Option<String>, e: Event)
    requires
        call_ensures(removed_event, (id,), e),
    ensures
        e is Removed,
        is_text_or_empty(e->Removed_0@, id),
{
}

/// An event as values tells its parts.
pub proof fn lemma_event_told_by_its_parts(e: Event)
    ensures
        match e {
            Event::Added { id, name, kind, connected, rssi, address } => e@ == (EventView::Added {
                id: id@,
                name: name@,
                kind,
                connected,
                rssi,
                address: address@,
            }),
            Event::Updated { id, connected, rssi } => e@ == (EventView::Updated {
                id: id@,
                connected,
                rssi,
            }),
            Event::Removed(id) => e@ == EventView::Removed(id@),
            Event::EnumerationComplete => e@ is EnumerationComplete,
            Event::RescanStarted => e@ is RescanStarted,
            Event::Radio(state) => e@ == EventView::Radio(state),
            Event::NearbyBleSeen { address, rssi, name, mfr_company, model_hint } => {
                &&& e@ is NearbyBleSeen
                &&& e@->NearbyBleSeen_address == address
                &&& e@->NearbyBleSeen_rssi == rssi
                &&& e@->NearbyBleSeen_mfr_company == mfr_company
                &&& name matches Some(n) ==> e@->NearbyBleSeen_name == Some(n@)
                &&& name is None ==> e@->NearbyBleSeen_name is None
                &&& model_hint matches Some(m) ==> e@->NearbyBleSeen_model_hint == Some(m@)
                &&& model_hint is None ==> e@->NearbyBleSeen_model_hint is None
            },
            Event::ClassicInquiryStarted => e@ is ClassicInquiryStarted,
            Event::ClassicFound { address, name, class_of_device, connected, paired, remembered } =>
                e@ == (EventView::ClassicFound {
                    address,
                    name: name@,
                    class_of_device,
                    connected,
                    paired,
                    remembered,
                }),
            Event::ClassicInquiryFinished { total } => e@ == (
            EventView::ClassicInquiryFinished { total }),
        },
{
}

/// The query names both protocols and asks for paired devices.
pub proof fn lemma_query(s: String)
    requires
        call_ensures(aqs_filter, (), s),
    ensures
        s@ == "(System.Devices.Aep.ProtocolId:=\""@ + "{e0cbf06c-cd8b-4647-bb8a-263b43f0f974}"@
            + "\" OR System.Devices.Aep.ProtocolId:=\""@
            + "{bb7bb05e-5972-42b5-94fc-76eaa7084d49}"@
            + "\") AND System.Devices.Aep.IsPaired:=System.StructuredQueryType.Boolean#True"@,
{
}

/// The properties that are read are those that a watcher is asked for.
pub proof fn lemma_properties_asked_for(v: Vec<String>)
    requires
        call_ensures(requested_properties, (), v),
    ensures
        v@.len() == 3,
        v@[0]@ == "System.Devices.Aep.SignalStrength"@,
        v@[1]@ == "System.Devices.Aep.IsConnected"@,
        v@[2]@ == "System.Devices.Aep.DeviceAddress"@,
{
    let views = v@.map_values(|s: String| s@);
    assert(views.len() == 3);
    assert(views[0] == v@[0]@ && views[1] == v@[1]@ && views[2] == v@[2]@);
}

proof fn lemma_first_bluetooth(radios: Seq<RadioReading>, i: int)
    requires
        0 <= i < radios.len(),
        radios[i].kind == Some(RadioKind::Bluetooth),
        forall|j: int|
            0 <= j < i ==> (#[trigger] radios[j]).kind != Some(RadioKind::Bluetooth),
    ensures
        crate::bt::bluetooth_state(radios) == crate::bt::state_of_power(radios[i].power),
    decreases radios.len(),
{
    if i > 0 {
        let rest = radios.drop_first();
        assert(radios[0].kind != Some(RadioKind::Bluetooth));
        assert forall|j: int| 0 <= j < i - 1 implies (#[trigger] rest[j]).kind != Some(
            RadioKind::Bluetooth,
        ) by {
            assert(radios[j + 1].kind != Some(RadioKind::Bluetooth));
        }
        lemma_first_bluetooth(rest, i - 1);
    }
}

/// The first Bluetooth radio tells the state, whatever other radios there are; without one the
/// radio is absent.
pub proof fn lemma_radio_told(radios: Vec<RadioReading>, state: RadioState, i: int)
    requires
        call_ensures(extract_bt_radio_state, (&radios,), state),
    ensures
        0 <= i < radios@.len() && radios@[i].kind == Some(RadioKind::Bluetooth) && (forall|j: int|
            0 <= j < i ==> (#[trigger] radios@[j]).kind != Some(RadioKind::Bluetooth)) ==> {
            let power = radios@[i].power;
            &&& state == RadioState::On <==> power == Some(RadioPower::On)
            &&& state == RadioState::Off <==> power == Some(RadioPower::Off)
            &&& state == RadioState::Disabled <==> power == Some(RadioPower::Disabled)
            &&& state == RadioState::Unknown <==> power == Some(RadioPower::Other) || power is None
        },
        (forall|j: int|
            0 <= j < radios@.len() ==> (#[trigger] radios@[j]).kind != Some(RadioKind::Bluetooth))
            <==> state == RadioState::Absent,
{
    crate::bt::lemma_absent_without_bluetooth(radios@);
    if 0 <= i < radios@.len() && radios@[i].kind == Some(RadioKind::Bluetooth) && (forall|j: int|
        0 <= j < i ==> (#[trigger] radios@[j]).kind != Some(RadioKind::Bluetooth)) {
        lemma_first_bluetooth(radios@, i);
    }
}

} // verus!
