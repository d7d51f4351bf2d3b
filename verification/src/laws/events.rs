//! What each event does to the screen, and what time does to it.

use vstd::prelude::*;

use crate::bt::{DeviceKind, Event};
use crate::clock::Moment;
use crate::config::Config;
use crate::found::ClassicScanState;
use crate::laws::addresses::{holds_address, lemma_parsed_address};
use crate::ui::{
    after_event, after_events, after_waiting, event_views, App, Screen, ViewMode,
};

verus! {

/// The screen after all events but the last.
pub open spec fn before_last(s: Screen, events: Seq<Event>, now: Moment) -> Screen {
    after_events(s, event_views(events.drop_last()), now)
}

/// Whether the events among which this one is the last were taken in.
pub open spec fn took_in(a: &mut App, events: Vec<Event>, now: Moment) -> bool {
    events@.len() > 0 && call_ensures(App::drain_events, (a, events, now), ())
}

proof fn lemma_taken_in(before: Screen, events: Seq<Event>, now: Moment)
    requires
        events.len() > 0,
    ensures
        after_events(before, event_views(events), now) == after_event(
            before_last(before, events, now),
            events.last()@,
            now,
        ),
        events.len() == 1 ==> before_last(before, events, now) == before,
{
    assert(event_views(events).drop_last() =~= event_views(events.drop_last()));
    assert(event_views(events).last() == events.last()@);
    if events.len() == 1 {
        assert(event_views(events.drop_last()) =~= Seq::empty());
    }
}

/// Events are taken in one by one, in the order in which they arrived, and then time takes its
/// effect.
pub proof fn lemma_taken_in_order(a: &mut App, events: Vec<Event>, now: Moment)
    requires
        call_ensures(App::drain_events, (a, events, now), ()),
    ensures
        events@.len() == 0 ==> final(a)@ == after_waiting(old(a)@, now),
        events@.len() == 1 ==> before_last(old(a)@, events@, now) == old(a)@,
        events@.len() > 0 ==> final(a)@ == after_waiting(
            after_event(before_last(old(a)@, events@, now), events@.last()@, now),
            now,
        ),
{
    if events@.len() > 0 {
        lemma_taken_in(old(a)@, events@, now);
    }
}

/// Whether what the user chose is as it was.
pub open spec fn keeps_choices(s: Screen, t: Screen) -> bool {
    &&& t.config == s.config
    &&& t.view_mode == s.view_mode
    &&& t.show_classic == s.show_classic
    &&& t.show_settings == s.show_settings
    &&& t.last_dark_applied == s.last_dark_applied
}

/// Whether the search is as it was.
pub open spec fn keeps_search(s: Screen, t: Screen) -> bool {
    t.classic_found == s.classic_found && t.classic_scan == s.classic_scan
}

/// Whether the watcher is where it was.
pub open spec fn keeps_watcher(s: Screen, t: Screen) -> bool {
    t.last_added_at == s.last_added_at && t.watcher_started_at == s.watcher_started_at
}

/// Whether a paired device is as it was.
pub open spec fn keeps_device(s: Screen, t: Screen, id: Seq<char>) -> bool {
    &&& t.devices.contains_key(id) <==> s.devices.contains_key(id)
    &&& s.devices.contains_key(id) ==> t.devices[id] == s.devices[id]
}

/// Whether a device nearby is as it was, unless it fell silent a minute ago or longer: then it is
/// gone.
pub open spec fn keeps_neighbour(s: Screen, t: Screen, now: Moment, address: u64) -> bool {
    &&& t.nearby.contains_key(address) <==> s.nearby.contains_key(address)
        && s.nearby[address].last_seen.nanos + 60_000_000_000 > now.nanos
    &&& t.nearby.contains_key(address) ==> t.nearby[address] == s.nearby[address]
}

/// Whether the list of paired devices counts as complete after it did or did not before: it does
/// once it did, or 2.5 seconds after the last addition, or 4 seconds after the start.
pub open spec fn completes(done: bool, t: Screen, now: Moment) -> bool {
    t.enumerated == (done || (t.last_added_at is Some && now.nanos >= t.last_added_at->0.nanos
        + 2_500_000_000) || now.nanos >= t.watcher_started_at.nanos + 4_000_000_000)
}

/// Time alone drops devices nearby that fell silent and may complete the list of paired devices; it
/// changes nothing else.
pub proof fn lemma_time_passes(
    a: &mut App,
    events: Vec<Event>,
    now: Moment,
    id: Seq<char>,
    address: u64,
)
    requires
        call_ensures(App::drain_events, (a, events, now), ()),
        events@.len() == 0,
    ensures
        keeps_choices(old(a)@, final(a)@),
        keeps_search(old(a)@, final(a)@),
        keeps_watcher(old(a)@, final(a)@),
        keeps_device(old(a)@, final(a)@, id),
        keeps_neighbour(old(a)@, final(a)@, now, address),
        completes(old(a)@.enumerated, final(a)@, now),
        final(a)@.radio == old(a)@.radio,
{
    lemma_taken_in_order(a, events, now);
}

/// An added device is there as it was reported, in the place of one with its identifier; its signal
/// strength, if it has one, came in now. Every other device is as it was.
pub proof fn lemma_device_added(
    a: &mut App,
    events: Vec<Event>,
    now: Moment,
    other: Seq<char>,
    address: u64,
)
    requires
        took_in(a, events, now),
        events@.last() is Added,
    ensures
        ({
            let s = before_last(old(a)@, events@, now);
            let t = final(a)@;
            let e = events@.last();
            let id = e->Added_id@;
            &&& t.devices.contains_key(id)
            &&& t.devices[id].id == id
            &&& t.devices[id].name == e->Added_name@
            &&& t.devices[id].kind == e->Added_kind
            &&& t.devices[id].connected == e->Added_connected
            &&& t.devices[id].rssi == e->Added_rssi
            &&& t.devices[id].address == e->Added_address@
            &&& e->Added_rssi is Some ==> t.devices[id].last_rssi_at == Some(now)
            &&& e->Added_rssi is None ==> t.devices[id].last_rssi_at is None
            &&& other != id ==> keeps_device(s, t, other)
            &&& t.last_added_at == Some(now)
            &&& t.watcher_started_at == s.watcher_started_at
            &&& completes(s.enumerated, t, now)
            &&& keeps_neighbour(s, t, now, address)
            &&& keeps_choices(s, t)
            &&& keeps_search(s, t)
            &&& t.radio == s.radio
        }),
{
    lemma_taken_in_order(a, events, now);
}

/// An update gives a known device the connection and the signal strength that it tells, the latter
/// as of now, and leaves what it does not tell; it makes and takes away no device, and every other
/// device is as it was.
pub proof fn lemma_device_updated(
    a: &mut App,
    events: Vec<Event>,
    now: Moment,
    other: Seq<char>,
    address: u64,
)
    requires
        took_in(a, events, now),
        events@.last() is Updated,
    ensures
        ({
            let s = before_last(old(a)@, events@, now);
            let t = final(a)@;
            let e = events@.last();
            let id = e->Updated_id@;
            &&& t.devices.contains_key(id) <==> s.devices.contains_key(id)
            &&& s.devices.contains_key(id) ==> {
                let before = s.devices[id];
                let after = t.devices[id];
                &&& e->Updated_connected is Some ==> after.connected == e->Updated_connected->0
                &&& e->Updated_connected is None ==> after.connected == before.connected
                &&& e->Updated_rssi is Some ==> after.rssi == e->Updated_rssi && after.last_rssi_at
                    == Some(now)
                &&& e->Updated_rssi is None ==> after.rssi == before.rssi && after.last_rssi_at
                    == before.last_rssi_at
                &&& after.id == before.id
                &&& after.name == before.name
                &&& after.kind == before.kind
                &&& after.address == before.address
            }
            &&& other != id ==> keeps_device(s, t, other)
            &&& keeps_watcher(s, t)
            &&& completes(s.enumerated, t, now)
            &&& keeps_neighbour(s, t, now, address)
            &&& keeps_choices(s, t)
            &&& keeps_search(s, t)
            &&& t.radio == s.radio
        }),
{
    lemma_taken_in_order(a, events, now);
}

/// A removed device is gone, and every other device is as it was.
pub proof fn lemma_device_removed(
    a: &mut App,
    events: Vec<Event>,
    now: Moment,
    other: Seq<char>,
    address: u64,
)
    requires
        took_in(a, events, now),
        events@.last() is Removed,
    ensures
        ({
            let s = before_last(old(a)@, events@, now);
            let t = final(a)@;
            let id = events@.last()->Removed_0@;
            &&& !t.devices.contains_key(id)
            &&& other != id ==> keeps_device(s, t, other)
            &&& keeps_watcher(s, t)
            &&& completes(s.enumerated, t, now)
            &&& keeps_neighbour(s, t, now, address)
            &&& keeps_choices(s, t)
            &&& keeps_search(s, t)
            &&& t.radio == s.radio
        }),
{
    lemma_taken_in_order(a, events, now);
}

/// An advertisement sets the signal strength of its sender nearby to its own, counts one more, and
/// fills in name, company and model where nothing was known; whoever was not known is known by it.
/// Other devices nearby are as they were.
pub proof fn lemma_neighbour_heard(a: &mut App, events: Vec<Event>, now: Moment, other: u64)
    requires
        took_in(a, events, now),
        events@.last() is NearbyBleSeen,
    ensures
        ({
            let s = before_last(old(a)@, events@, now);
            let t = final(a)@;
            let e = events@.last();
            let k = e->NearbyBleSeen_address;
            let known = s.nearby.contains_key(k);
            let before = s.nearby[k];
            let after = t.nearby[k];
            let name = e->NearbyBleSeen_name;
            let model = e->NearbyBleSeen_model_hint;
            &&& t.nearby.contains_key(k)
            &&& after.rssi == e->NearbyBleSeen_rssi
            &&& after.last_seen == now
            &&& !known ==> after.address == k && after.packets == 1
            &&& known ==> after.address == before.address
            &&& known && before.packets < u32::MAX ==> after.packets == before.packets + 1
            &&& known && before.packets == u32::MAX ==> after.packets == u32::MAX
            &&& known && before.name is Some ==> after.name == before.name
            &&& !known || before.name is None ==> {
                &&& after.name is Some <==> name is Some
                &&& name is Some ==> after.name->0 == name->0@
            }
            &&& known && before.mfr_company is Some ==> after.mfr_company == before.mfr_company
            &&& !known || before.mfr_company is None ==> after.mfr_company
                == e->NearbyBleSeen_mfr_company
            &&& known && before.model_hint is Some ==> after.model_hint == before.model_hint
            &&& !known || before.model_hint is None ==> {
                &&& after.model_hint is Some <==> model is Some
                &&& model is Some ==> after.model_hint->0 == model->0@
            }
            &&& other != k ==> keeps_neighbour(s, t, now, other)
        }),
{
    lemma_taken_in_order(a, events, now);
}

/// An advertisement gives its signal strength, as of now, to each paired low-energy device whose
/// address it comes from, whatever strength that had; nothing else of paired devices changes.
pub proof fn lemma_paired_device_heard(a: &mut App, events: Vec<Event>, now: Moment, id: Seq<char>)
    requires
        took_in(a, events, now),
        events@.last() is NearbyBleSeen,
    ensures
        ({
            let s = before_last(old(a)@, events@, now);
            let t = final(a)@;
            let e = events@.last();
            let before = s.devices[id];
            let after = t.devices[id];
            let meant = before.kind == DeviceKind::Ble && holds_address(
                before.address,
                e->NearbyBleSeen_address,
            );
            &&& t.devices.contains_key(id) <==> s.devices.contains_key(id)
            &&& s.devices.contains_key(id) && !meant ==> after == before
            &&& s.devices.contains_key(id) && meant ==> {
                &&& after.rssi == Some(e->NearbyBleSeen_rssi as i32)
                &&& after.last_rssi_at == Some(now)
                &&& after.connected == before.connected
                &&& after.id == before.id
                &&& after.name == before.name
                &&& after.kind == before.kind
                &&& after.address == before.address
            }
            &&& keeps_watcher(s, t)
            &&& completes(s.enumerated, t, now)
            &&& keeps_choices(s, t)
            &&& keeps_search(s, t)
            &&& t.radio == s.radio
        }),
{
    lemma_taken_in_order(a, events, now);
    let s = before_last(old(a)@, events@, now);
    lemma_parsed_address(s.devices[id].address, events@.last()->NearbyBleSeen_address);
}

/// A rescan empties all lists, begins the wait for paired devices anew, and leaves the radio and the
/// choices of the user.
pub proof fn lemma_rescanned(a: &mut App, events: Vec<Event>, now: Moment)
    requires
        took_in(a, events, now),
        events@.last() is RescanStarted,
    ensures
        ({
            let s = before_last(old(a)@, events@, now);
            let t = final(a)@;
            &&& forall|id: Seq<char>| !#[trigger] t.devices.contains_key(id)
            &&& forall|k: u64| !#[trigger] t.nearby.contains_key(k)
            &&& t.classic_found.len() == 0
            &&& t.classic_scan == ClassicScanState::Idle
            &&& !t.enumerated
            &&& t.last_added_at is None
            &&& t.watcher_started_at == now
            &&& t.radio == s.radio
            &&& keeps_choices(s, t)
        }),
{
    lemma_taken_in_order(a, events, now);
}

/// What is told of the radio, of the end of the enumeration and of a search changes just that: a
/// search begins with nothing found, each found device is put behind the others as it was told, and
/// the end of a search says its total.
pub proof fn lemma_told(
    a: &mut App,
    events: Vec<Event>,
    now: Moment,
    id: Seq<char>,
    address: u64,
)
    requires
        took_in(a, events, now),
        !(events@.last() is Added),
        !(events@.last() is Updated),
        !(events@.last() is Removed),
        !(events@.last() is NearbyBleSeen),
        !(events@.last() is RescanStarted),
    ensures
        ({
            let s = before_last(old(a)@, events@, now);
            let t = final(a)@;
            let e = events@.last();
            &&& e is Radio ==> t.radio == e->Radio_0
            &&& !(e is Radio) ==> t.radio == s.radio
            &&& e is EnumerationComplete ==> t.enumerated
            &&& !(e is EnumerationComplete) ==> completes(s.enumerated, t, now)
            &&& e is ClassicInquiryStarted ==> t.classic_scan == ClassicScanState::Running
                && t.classic_found.len() == 0
            &&& e is ClassicInquiryFinished ==> t.classic_scan == ClassicScanState::Finished(
                e->ClassicInquiryFinished_total,
            ) && t.classic_found == s.classic_found
            &&& e is ClassicFound ==> {
                let n = s.classic_found.len() as int;
                &&& t.classic_scan == s.classic_scan
                &&& t.classic_found.len() == n + 1
                &&& t.classic_found.take(n) == s.classic_found
                &&& t.classic_found[n].address == e->ClassicFound_address
                &&& t.classic_found[n].name == e->ClassicFound_name@
                &&& t.classic_found[n].class_of_device == e->ClassicFound_class_of_device
                &&& t.classic_found[n].connected == e->ClassicFound_connected
                &&& t.classic_found[n].paired == e->ClassicFound_paired
                &&& t.classic_found[n].remembered == e->ClassicFound_remembered
            }
            &&& e is Radio || e is EnumerationComplete ==> keeps_search(s, t)
            &&& keeps_device(s, t, id)
            &&& keeps_neighbour(s, t, now, address)
            &&& keeps_watcher(s, t)
            &&& keeps_choices(s, t)
        }),
{
    lemma_taken_in_order(a, events, now);
    let s = before_last(old(a)@, events@, now);
    let t = final(a)@;
    if events@.last() is ClassicFound {
        assert(t.classic_found.take(s.classic_found.len() as int) =~= s.classic_found);
    }
}

/// A new screen is empty, waits for paired devices from now on, shows these first and hides Classic
/// ones, and knows nothing of the radio.
pub proof fn lemma_new_screen(config: Config, now: Moment, app: App)
    requires
        call_ensures(App::new, (config, now), app),
    ensures
        app@.config == config,
        forall|id: Seq<char>| !#[trigger] app@.devices.contains_key(id),
        forall|k: u64| !#[trigger] app@.nearby.contains_key(k),
        app@.classic_found.len() == 0,
        app@.classic_scan == ClassicScanState::Idle,
        app@.radio == crate::bt::RadioState::Unknown,
        !app@.enumerated,
        app@.last_added_at is None,
        app@.watcher_started_at == now,
        app@.last_dark_applied is None,
        app@.view_mode == ViewMode::Paired,
        !app@.show_classic,
        !app@.show_settings,
{
}

} // verus!
