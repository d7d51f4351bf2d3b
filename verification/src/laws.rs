//! What holds of the screen whatever happens. The modules below say it of each part.

pub mod addresses;
pub mod advertisements;
pub mod choices;
pub mod events;
pub mod lists;
pub mod readings;
pub mod search;
pub mod texts;

use vstd::prelude::*;

use crate::address::parsed_address;
use crate::bt::{DeviceKind, EventView};
use crate::clock::{elapsed, Moment};
use crate::config::Config;
use crate::devices::{is_paired_list, is_shown, DeviceView, PairedRowView};
use crate::effect::EffectView;
use crate::found::{ClassicFoundView, ClassicScanState};
use crate::inquiry::{
    found_effects, found_event, inquiry_run, inquiry_start, lemma_search_total, search_reports,
    FoundRecord, InquiryReport,
};
use crate::labels::kind_text;
use crate::nearby::{is_nearby_list, still_near, NearbyRowView, NearbyView};
use crate::order::Ranked;
use crate::ui::{
    after_event, after_events, after_waiting, initial_screen, settled, sound, title_bar_due,
    title_bar_set, Screen, ViewMode, ENUMERATION_TIMEOUT, QUIET_AFTER_ADDED,
};

verus! {

/// Events that arrive in two goes have the effect that they have in one go.
pub proof fn lemma_events_in_parts(
    s: Screen,
    a: Seq<EventView>,
    b: Seq<EventView>,
    now: Moment,
)
    ensures
        after_events(after_events(s, a, now), b, now) == after_events(s, a + b, now),
    decreases b.len(),
{
    if b.len() == 0 {
        assert(a + b =~= a);
    } else {
        lemma_events_in_parts(s, a, b.drop_last(), now);
        assert((a + b).drop_last() =~= a + b.drop_last());
    }
}

/// Time that has taken its effect takes it once.
pub proof fn lemma_waiting_once(s: Screen, now: Moment)
    ensures
        after_waiting(after_waiting(s, now), now) == after_waiting(s, now),
{
    let once = after_waiting(s, now);
    assert(after_waiting(once, now).nearby =~= once.nearby);
}

proof fn lemma_event_keeps_sound(s: Screen, e: EventView, now: Moment)
    requires
        sound(s),
    ensures
        sound(after_event(s, e, now)),
{
}

/// Every screen that comes of the first one is sound.
pub proof fn lemma_always_sound(config: Config, start: Moment, events: Seq<EventView>, now: Moment)
    ensures
        sound(initial_screen(config, start)),
        sound(after_events(initial_screen(config, start), events, now)),
        sound(after_waiting(after_events(initial_screen(config, start), events, now), now)),
{
    lemma_events_keep_sound(initial_screen(config, start), events, now);
}

/// A sound screen stays sound.
pub proof fn lemma_events_keep_sound(s: Screen, events: Seq<EventView>, now: Moment)
    requires
        sound(s),
    ensures
        sound(after_events(s, events, now)),
        sound(after_waiting(after_events(s, events, now), now)),
    decreases events.len(),
{
    if events.len() > 0 {
        lemma_events_keep_sound(s, events.drop_last(), now);
        lemma_event_keeps_sound(after_events(s, events.drop_last(), now), events.last(), now);
    }
}

/// A rescan empties all three lists and forgets that the list of paired devices was complete; it
/// leaves the radio and everything that the user chose.
pub proof fn lemma_rescan_clears(s: Screen, now: Moment)
    ensures
        ({
            let t = after_event(s, EventView::RescanStarted, now);
            &&& t.devices == Map::<Seq<char>, DeviceView>::empty()
            &&& t.nearby == Map::<u64, NearbyView>::empty()
            &&& t.classic_found == Seq::<ClassicFoundView>::empty()
            &&& t.classic_scan == ClassicScanState::Idle
            &&& !t.enumerated
            &&& t.last_added_at is None
            &&& t.watcher_started_at == now
            &&& t.radio == s.radio
        }),
{
}

/// What the user chose is changed by no event and by no time: the theme, the list in front,
/// whether Classic devices are shown and whether the settings are open.
pub proof fn lemma_choices_stay(s: Screen, events: Seq<EventView>, now: Moment)
    ensures
        ({
            let t = after_waiting(after_events(s, events, now), now);
            &&& t.config == s.config
            &&& t.view_mode == s.view_mode
            &&& t.show_classic == s.show_classic
            &&& t.show_settings == s.show_settings
            &&& t.last_dark_applied == s.last_dark_applied
        }),
    decreases events.len(),
{
    if events.len() > 0 {
        lemma_choices_stay(s, events.drop_last(), now);
    }
}

/// A run starts with the paired devices in front, Classic devices hidden and the settings closed.
pub proof fn lemma_start(config: Config, now: Moment)
    ensures
        ({
            let s = initial_screen(config, now);
            &&& s.view_mode == ViewMode::Paired
            &&& !s.show_classic
            &&& !s.show_settings
            &&& !s.enumerated
            &&& s.config == config
        }),
{
}

/// The title bar is changed in the first frame, and after that only in a frame whose background is
/// another one than in the frame before, whatever happens in between.
pub proof fn lemma_title_bar_once_per_change(
    config: Config,
    start: Moment,
    s: Screen,
    shown: bool,
    events: Seq<EventView>,
    now: Moment,
    dark: bool,
)
    ensures
        title_bar_due(initial_screen(config, start), dark),
        title_bar_due(
            after_waiting(after_events(title_bar_set(s, shown), events, now), now),
            dark,
        ) <==> dark != shown,
{
    lemma_choices_stay(title_bar_set(s, shown), events, now);
}

/// A report about a device that is not known changes nothing.
pub proof fn lemma_update_of_unknown_device(
    s: Screen,
    id: Seq<char>,
    connected: Option<bool>,
    rssi: Option<i32>,
    now: Moment,
)
    requires
        !s.devices.contains_key(id),
    ensures
        after_event(s, EventView::Updated { id, connected, rssi }, now) == s,
{
}

/// An update adds and removes no device, touches no other device, and changes neither name,
/// family nor address.
pub proof fn lemma_update_touches_one_device(
    s: Screen,
    id: Seq<char>,
    connected: Option<bool>,
    rssi: Option<i32>,
    now: Moment,
    other: Seq<char>,
)
    ensures
        ({
            let t = after_event(s, EventView::Updated { id, connected, rssi }, now);
            &&& t.devices.contains_key(other) == s.devices.contains_key(other)
            &&& other != id ==> t.devices[other] == s.devices[other]
            &&& s.devices.contains_key(other) ==> {
                &&& t.devices[other].name == s.devices[other].name
                &&& t.devices[other].kind == s.devices[other].kind
                &&& t.devices[other].address == s.devices[other].address
            }
        }),
{
}

/// A device that was added and removed is not there, and nothing else is different.
pub proof fn lemma_added_and_removed(s: Screen, added: EventView, now: Moment)
    requires
        added is Added,
    ensures
        ({
            let id = added->Added_id;
            let t = after_event(after_event(s, added, now), EventView::Removed(id), now);
            &&& !t.devices.contains_key(id)
            &&& t == (Screen {
                devices: s.devices.remove(id),
                last_added_at: Some(now),
                ..s
            })
        }),
{
    let id = added->Added_id;
    let t = after_event(after_event(s, added, now), EventView::Removed(id), now);
    assert(t.devices =~= s.devices.remove(id));
}

/// What was told first about a device nearby stays, and its advertisements are never counted
/// down, until a rescan.
pub proof fn lemma_first_told_stays(s: Screen, e: EventView, now: Moment, a: u64)
    requires
        s.nearby.contains_key(a),
        !(e is RescanStarted),
    ensures
        ({
            let before = s.nearby[a];
            let after = after_event(s, e, now).nearby[a];
            &&& after_event(s, e, now).nearby.contains_key(a)
            &&& before.name is Some ==> after.name == before.name
            &&& before.mfr_company is Some ==> after.mfr_company == before.mfr_company
            &&& before.model_hint is Some ==> after.model_hint == before.model_hint
            &&& after.packets >= before.packets
        }),
{
}

/// Exactly the devices nearby that were heard of less than the lifetime ago stay, as they were.
pub proof fn lemma_silent_devices_go(s: Screen, now: Moment, a: u64)
    ensures
        ({
            let t = after_waiting(s, now);
            &&& t.nearby.contains_key(a) <==> s.nearby.contains_key(a) && still_near(
                s.nearby[a].last_seen,
                now,
            )
            &&& t.nearby.contains_key(a) ==> t.nearby[a] == s.nearby[a]
        }),
{
}

/// A device nearby that was just heard of is not dropped.
pub proof fn lemma_heard_device_stays(s: Screen, e: EventView, now: Moment)
    requires
        e is NearbyBleSeen,
    ensures
        after_waiting(after_event(s, e, now), now).nearby.contains_key(e->NearbyBleSeen_address),
{
}

/// Whatever the watcher says, the list of paired devices counts as complete once no device was
/// added for the quiet time, and at the latest when the time for it has run out.
pub proof fn lemma_list_becomes_complete(s: Screen, now: Moment)
    ensures
        elapsed(now, s.watcher_started_at) >= ENUMERATION_TIMEOUT ==> after_waiting(s, now).enumerated,
        (s.last_added_at matches Some(t) && elapsed(now, t) >= QUIET_AFTER_ADDED) ==> after_waiting(
            s,
            now,
        ).enumerated,
        !s.enumerated && !settled(s, now) ==> !after_waiting(s, now).enumerated,
{
}

/// A complete list of paired devices counts as complete until a rescan.
pub proof fn lemma_complete_until_rescan(s: Screen, events: Seq<EventView>, now: Moment)
    requires
        s.enumerated,
        forall|i: int| 0 <= i < events.len() ==> !((#[trigger] events[i]) is RescanStarted),
    ensures
        after_events(s, events, now).enumerated,
        after_waiting(after_events(s, events, now), now).enumerated,
    decreases events.len(),
{
    if events.len() > 0 {
        let front = events.drop_last();
        assert forall|i: int| 0 <= i < front.len() implies !((#[trigger] front[i]) is RescanStarted) by {
            assert(!(events[i] is RescanStarted));
        }
        lemma_complete_until_rescan(s, front, now);
        assert(!(events[events.len() - 1] is RescanStarted));
    }
}

/// The signal strength of an advertisement reaches each paired low-energy device with its
/// address, where it is fresh; Classic devices and devices with another address stay as they are.
pub proof fn lemma_advertisement_reaches_paired(s: Screen, e: EventView, now: Moment, id: Seq<char>)
    requires
        e is NearbyBleSeen,
        s.devices.contains_key(id),
    ensures
        ({
            let before = s.devices[id];
            let after = after_event(s, e, now).devices[id];
            &&& after_event(s, e, now).devices.contains_key(id)
            &&& if before.kind == DeviceKind::Ble && parsed_address(before.address) == Some(
                e->NearbyBleSeen_address,
            ) {
                &&& after.rssi == Some(e->NearbyBleSeen_rssi as i32)
                &&& after.fresh(now)
                &&& after.connected == before.connected
                &&& after.name == before.name
            } else {
                after == before
            }
        }),
{
}

/// A signal strength that is fresh was fresh before.
pub proof fn lemma_freshness_fades(d: DeviceView, earlier: Moment, later: Moment)
    requires
        earlier.nanos <= later.nanos,
        d.fresh(later),
    ensures
        d.fresh(earlier),
{
}

/// While Classic devices are hidden, every row is that of a low-energy device.
pub proof fn lemma_classic_hidden(
    devices: Map<Seq<char>, DeviceView>,
    now: Moment,
    rows: Seq<PairedRowView>,
)
    requires
        is_paired_list(devices, false, now, rows),
    ensures
        forall|i: int|
            0 <= i < rows.len() ==> (#[trigger] rows[i]).kind == kind_text(DeviceKind::Ble),
{
}

/// In the list of paired devices no Classic device stands above a low-energy one, no unconnected
/// device above a connected one of its family, and no weaker or missing signal above a stronger
/// one among low-energy devices that are alike in that.
pub proof fn lemma_paired_order(
    devices: Map<Seq<char>, DeviceView>,
    show_classic: bool,
    now: Moment,
    rows: Seq<PairedRowView>,
    i: int,
    j: int,
)
    requires
        is_paired_list(devices, show_classic, now, rows),
        0 <= i < j < rows.len(),
    ensures
        ({
            let upper = devices[rows[i].id];
            let lower = devices[rows[j].id];
            &&& lower.kind == DeviceKind::Ble ==> upper.kind == DeviceKind::Ble
            &&& upper.kind == lower.kind && lower.connected ==> upper.connected
            &&& upper.kind == DeviceKind::Ble && lower.kind == DeviceKind::Ble && upper.connected
                == lower.connected ==> {
                &&& upper.strength() >= lower.strength()
                &&& upper.rssi is None ==> lower.rssi is None
            }
        }),
{
}

/// The list of paired devices has as many rows as there are devices, if Classic ones are shown.
pub proof fn lemma_paired_list_len(
    devices: Map<Seq<char>, DeviceView>,
    now: Moment,
    rows: Seq<PairedRowView>,
)
    requires
        is_paired_list(devices, true, now, rows),
    ensures
        rows.len() == devices.len(),
{
    let ids = rows.map_values(|r: PairedRowView| r.id);
    assert(ids.no_duplicates()) by {
        assert forall|i: int, j: int| 0 <= i < ids.len() && 0 <= j < ids.len() && i != j implies ids[i]
            != ids[j] by {
            assert(rows[i].id != rows[j].id);
        }
    }
    assert(ids.to_set() =~= devices.dom()) by {
        assert forall|id: Seq<char>| ids.to_set().contains(id) <==> devices.dom().contains(id) by {
            if devices.dom().contains(id) {
                assert(is_shown(devices, true, id));
                let i = choose|i: int| 0 <= i < rows.len() && (#[trigger] rows[i]).id == id;
                assert(ids[i] == id);
            }
            if ids.contains(id) {
                let i = ids.index_of(id);
                assert(is_shown(devices, true, rows[i].id));
            }
        }
    }
    ids.unique_seq_to_set();
}

/// The list of devices nearby has as many rows as there are devices.
pub proof fn lemma_nearby_list_len(nearby: Map<u64, NearbyView>, rows: Seq<NearbyRowView>)
    requires
        is_nearby_list(nearby, rows),
    ensures
        rows.len() == nearby.len(),
{
    let addresses = rows.map_values(|r: NearbyRowView| r.address);
    assert(addresses.no_duplicates()) by {
        assert forall|i: int, j: int|
            0 <= i < addresses.len() && 0 <= j < addresses.len() && i != j implies addresses[i]
            != addresses[j] by {
            assert(rows[i].address != rows[j].address);
        }
    }
    assert(addresses.to_set() =~= nearby.dom()) by {
        assert forall|a: u64| addresses.to_set().contains(a) <==> nearby.dom().contains(a) by {
            if nearby.contains_key(a) {
                let i = choose|i: int| 0 <= i < rows.len() && (#[trigger] rows[i]).address == a;
                assert(addresses[i] == a);
            }
            if addresses.contains(a) {
                let i = addresses.index_of(a);
                assert(nearby.contains_key(rows[i].address));
            }
        }
    }
    addresses.unique_seq_to_set();
}

/// In the list of devices nearby no device without name and model stands above one that has
/// either, and no weaker signal above a stronger one within the two groups.
pub proof fn lemma_nearby_order(
    nearby: Map<u64, NearbyView>,
    rows: Seq<NearbyRowView>,
    i: int,
    j: int,
)
    requires
        is_nearby_list(nearby, rows),
        0 <= i < j < rows.len(),
    ensures
        ({
            let upper = nearby[rows[i].address];
            let lower = nearby[rows[j].address];
            &&& lower.name is Some || lower.model_hint is Some ==> upper.name is Some
                || upper.model_hint is Some
            &&& upper.rank().known == lower.rank().known ==> upper.rssi >= lower.rssi
        }),
{
    assert(nearby[rows[i].address].rank().not_after(&nearby[rows[j].address].rank()));
}

/// The events among things to do.
pub open spec fn sent(effects: Seq<EffectView>) -> Seq<EventView>
    decreases effects.len(),
{
    if effects.len() == 0 {
        Seq::empty()
    } else {
        match effects.last() {
            EffectView::Send(e) => sent(effects.drop_last()).push(e),
            _ => sent(effects.drop_last()),
        }
    }
}

proof fn lemma_sent_push_announcement(effects: Seq<EffectView>, e: EventView)
    ensures
        sent(effects + seq![EffectView::Send(e), EffectView::Repaint]) == sent(effects).push(e),
{
    let once = effects.push(EffectView::Send(e));
    let twice = once.push(EffectView::Repaint);
    assert(effects + seq![EffectView::Send(e), EffectView::Repaint] =~= twice);
    assert(twice.drop_last() =~= once);
    assert(once.drop_last() =~= effects);
    assert(sent(twice) == sent(once));
}

/// A found device as the screen keeps it.
pub open spec fn kept(record: FoundRecord) -> ClassicFoundView {
    let e = found_event(record);
    ClassicFoundView {
        address: e->ClassicFound_address,
        name: e->ClassicFound_name,
        class_of_device: record.class_of_device,
        connected: record.connected,
        paired: record.authenticated,
        remembered: record.remembered,
    }
}

proof fn lemma_found_on_screen(s: Screen, records: Seq<FoundRecord>, now: Moment)
    requires
        s.classic_found == Seq::<ClassicFoundView>::empty(),
    ensures
        after_events(s, sent(found_effects(records)), now) == (Screen {
            classic_found: records.map_values(|r: FoundRecord| kept(r)),
            ..s
        }),
    decreases records.len(),
{
    if records.len() == 0 {
        assert(records.map_values(|r: FoundRecord| kept(r)) =~= Seq::empty());
    } else {
        let front = records.drop_last();
        lemma_found_on_screen(s, front, now);
        lemma_sent_push_announcement(found_effects(front), found_event(records.last()));
        let events = sent(found_effects(records));
        assert(events.drop_last() =~= sent(found_effects(front)));
        assert(records.map_values(|r: FoundRecord| kept(r)) =~= front.map_values(
            |r: FoundRecord| kept(r),
        ).push(kept(records.last())));
    }
}

/// After a search the screen lists exactly the devices that it found, in order, and says how many
/// there are.
pub proof fn lemma_search_on_screen(s: Screen, records: Seq<FoundRecord>, now: Moment)
    requires
        records.len() <= u32::MAX,
    ensures
        ({
            let reports = search_reports(records).push(InquiryReport::NoMore).push(
                InquiryReport::Closed,
            );
            let started = after_event(s, EventView::ClassicInquiryStarted, now);
            let t = after_events(started, sent(inquiry_run(inquiry_start(), reports).1), now);
            &&& t.classic_found == records.map_values(|r: FoundRecord| kept(r))
            &&& t.classic_scan == ClassicScanState::Finished(t.classic_found.len() as u32)
            &&& started.classic_scan == ClassicScanState::Running
        }),
{
    let started = after_event(s, EventView::ClassicInquiryStarted, now);
    let finished = EventView::ClassicInquiryFinished { total: records.len() as u32 };
    lemma_search_total(records);
    lemma_found_on_screen(started, records, now);
    lemma_sent_push_announcement(found_effects(records), finished);
    let events = sent(found_effects(records)).push(finished);
    assert(events.drop_last() =~= sent(found_effects(records)));
}

} // verus!
