//! What holds of the lists and of the bar at the top, row by row.

use vstd::prelude::*;

use crate::bt::{DeviceKind, RadioState};
use crate::clock::{Moment, Span};
use crate::devices::{is_shown, paired_row_views, Device, DeviceView, PairedRow};
use crate::found::{found_row, found_row_views, ClassicFoundView, ClassicScanState, FoundRow};
use crate::labels::Rgb;
use crate::laws::addresses::{lemma_address_text_shows, shown_byte, shows_bytes};
use crate::laws::texts::{
    is_numeral, is_signed_numeral, is_upper_digit, lemma_decimal_is_numeral, lemma_rssi_text_tells,
    lemma_signed_decimal_is_numeral, tells_signal,
};
use crate::nearby::{nearby_row_views, Emphasis, NearbyRow, NearbyView};
use crate::order::{lists_each_once, stably_ordered, Ranked};
use crate::text::{decimal, hex_byte, signed_decimal, text_le};
use crate::theme::ThemeChoice;
use crate::ui::{App, ClassicList, NearbyList, PairedList, TopBar};

verus! {

/// How long ago the signal strength of a device came in.
pub open spec fn age_of(d: DeviceView, now: Moment) -> Option<Span> {
    match d.last_rssi_at {
        Some(t) => Some(
            Span {
                nanos: if now.nanos >= t.nanos {
                    (now.nanos - t.nanos) as u64
                } else {
                    0
                },
            },
        ),
        None => None,
    }
}

/// Whether the signal strength of a device came in at most fifteen seconds ago.
pub open spec fn is_recent(d: DeviceView, now: Moment) -> bool {
    d.last_rssi_at is Some && now.nanos <= d.last_rssi_at->0.nanos + 15_000_000_000
}

/// A signal strength has an age once it came in, and is fresh for fifteen seconds.
pub proof fn lemma_age_and_freshness(d: Device, now: Moment, age: Option<Span>, fresh: bool)
    requires
        call_ensures(Device::signal_age, (&d, now), age),
        call_ensures(Device::signal_is_fresh, (&d, now), fresh),
    ensures
        age is Some <==> d.last_rssi_at is Some,
        age is Some && now.nanos >= d.last_rssi_at->0.nanos ==> d.last_rssi_at->0.nanos
            + age->0.nanos == now.nanos,
        age is Some && now.nanos < d.last_rssi_at->0.nanos ==> age->0.nanos == 0,
        fresh <==> d.last_rssi_at is Some && now.nanos <= d.last_rssi_at->0.nanos + 15_000_000_000,
{
}

/// Whether a row shows a paired device: its own name, family, connection and signal strength.
pub open spec fn shows_device(row: PairedRow, d: DeviceView, now: Moment) -> bool {
    &&& row.id@ == d.id
    &&& row.name@ == d.name
    &&& row.kind@ == if d.kind == DeviceKind::Ble {
        "BLE"@
    } else {
        "Classic"@
    }
    &&& row.state@ == if d.connected {
        "接続中"@
    } else {
        "切断"@
    }
    &&& row.rssi == d.rssi
    &&& row.dim == !is_recent(d, now)
    &&& tells_signal(row.rssi_text@, d.rssi, age_of(d, now))
}

/// Whether a device stands in the list of paired devices at all.
pub open spec fn listed(app: App, id: Seq<char>) -> bool {
    app@.devices.contains_key(id) && (app@.devices[id].kind == DeviceKind::Ble || app@.show_classic)
}

/// The list of paired devices has one row for each device that is listed, which shows it. Only once
/// the list is complete it gives way to a message where there is none.
pub proof fn lemma_paired_rows(app: App, now: Moment, list: PairedList)
    requires
        call_ensures(App::paired_list, (&app, now), list),
    ensures
        match list {
            PairedList::Rows(rows) => {
                &&& forall|i: int|
                    0 <= i < rows@.len() ==> listed(app, (#[trigger] rows@[i]).id@) && shows_device(
                        rows@[i],
                        app@.devices[rows@[i].id@],
                        now,
                    )
                &&& forall|i: int, j: int|
                    0 <= i < j < rows@.len() ==> (#[trigger] rows@[i]).id@ != (
                    #[trigger] rows@[j]).id@
                &&& forall|id: Seq<char>| #[trigger]
                    listed(app, id) ==> exists|i: int|
                        0 <= i < rows@.len() && (#[trigger] rows@[i]).id@ == id
                &&& rows@.len() == 0 ==> !app@.enumerated
            },
            PairedList::Empty(message) => {
                &&& app@.enumerated
                &&& forall|id: Seq<char>| !#[trigger] listed(app, id)
                &&& app@.show_classic ==> message@ == "ペアリング済み機器がありません。"@
                &&& !app@.show_classic ==> message@
                    == "ペアリング済み BLE 機器がありません。(Classic 機器は「設定」から表示)"@
            },
        },
{
    match list {
        PairedList::Rows(rows) => {
            let views = paired_row_views(rows@);
            assert forall|i: int| 0 <= i < rows@.len() implies listed(
                app,
                (#[trigger] rows@[i]).id@,
            ) && shows_device(rows@[i], app@.devices[rows@[i].id@], now) by {
                assert(views[i] == rows@[i]@);
                let d = app@.devices[views[i].id];
                assert(is_shown(app@.devices, app@.show_classic, views[i].id));
                lemma_rssi_text_tells(d.rssi, age_of(d, now));
            }
            assert forall|i: int, j: int| 0 <= i < j < rows@.len() implies (#[trigger] rows@[i]).id@
                != (#[trigger] rows@[j]).id@ by {
                assert(views[i].id != views[j].id);
            }
            assert forall|id: Seq<char>| #[trigger] listed(app, id) implies exists|i: int|
                0 <= i < rows@.len() && (#[trigger] rows@[i]).id@ == id by {
                assert(is_shown(app@.devices, app@.show_classic, id));
                let i = choose|i: int| 0 <= i < views.len() && (#[trigger] views[i]).id == id;
                assert(rows@[i].id@ == id);
            }
        },
        PairedList::Empty(_) => {
            assert forall|id: Seq<char>| !#[trigger] listed(app, id) by {
                assert(!is_shown(app@.devices, app@.show_classic, id));
            }
        },
    }
}

/// Of two rows of the list of paired devices, the upper one is that of a low-energy device if either
/// is; within a family, of a connected one if either is; among low-energy devices alike in that, it
/// has a signal strength if either has, and not the smaller one; and else its name is not behind.
pub proof fn lemma_paired_rows_ordered(
    app: App,
    now: Moment,
    list: PairedList,
    i: int,
    j: int,
)
    requires
        call_ensures(App::paired_list, (&app, now), list),
        list is Rows,
        0 <= i < j < list->Rows_0@.len(),
    ensures
        ({
            let upper = app@.devices[list->Rows_0@[i].id@];
            let lower = app@.devices[list->Rows_0@[j].id@];
            &&& lower.kind == DeviceKind::Ble ==> upper.kind == DeviceKind::Ble
            &&& upper.kind == lower.kind && lower.connected ==> upper.connected
            &&& upper.kind == DeviceKind::Ble && lower.kind == DeviceKind::Ble && upper.connected
                == lower.connected ==> {
                &&& lower.rssi is Some ==> upper.rssi is Some && upper.rssi->0 >= lower.rssi->0
                &&& upper.rssi == lower.rssi ==> text_le(upper.name, lower.name)
            }
            &&& upper.kind == DeviceKind::Classic && lower.kind == DeviceKind::Classic
                && upper.connected == lower.connected ==> text_le(upper.name, lower.name)
        }),
{
    let rows = list->Rows_0@;
    let views = paired_row_views(rows);
    assert(views[i] == rows[i]@ && views[j] == rows[j]@);
    assert(app@.devices[views[i].id].not_after(app@.devices[views[j].id]));
}

/// Whether four characters are the upper-case hexadecimal digits of a number.
pub open spec fn are_four_digits(d: Seq<char>, n: int) -> bool {
    &&& d.len() == 4
    &&& is_upper_digit(d[0], n / 0x1000)
    &&& is_upper_digit(d[1], n / 0x100 % 0x10)
    &&& is_upper_digit(d[2], n / 0x10 % 0x10)
    &&& is_upper_digit(d[3], n % 0x10)
}

/// Whether a text names a company by its four hexadecimal digits.
pub open spec fn names_company(s: Seq<char>, company: u16) -> bool {
    exists|d: Seq<char>| #[trigger]
        are_four_digits(d, company as int) && s == "Company 0x"@ + d
}

proof fn lemma_company_named(company: u16)
    ensures
        names_company(
            "Company 0x"@ + hex_byte(company as int / 0x100) + hex_byte(company as int % 0x100),
            company,
        ),
{
    let c = company as int;
    let high = hex_byte(c / 0x100);
    let low = hex_byte(c % 0x100);
    let d = high + low;
    assert("Company 0x"@ + high + low =~= "Company 0x"@ + d);
    assert(d[0] == high[0] && d[1] == high[1] && d[2] == low[0] && d[3] == low[1]);
    assert(c / 0x100 / 16 == c / 0x1000 && c / 0x100 % 16 == c / 0x100 % 0x10);
    assert(c % 0x100 / 16 == c / 0x10 % 0x10 && c % 0x100 % 16 == c % 0x10);
    assert(are_four_digits(d, c));
}

/// Whether a row shows a device nearby: its own signal strength, count and address, and the best
/// that is known of what it is.
pub open spec fn shows_neighbour(row: NearbyRow, n: NearbyView) -> bool {
    &&& row.address == n.address
    &&& row.rssi == n.rssi
    &&& exists|d: Seq<char>| #[trigger]
        is_signed_numeral(d, n.rssi as int) && row.rssi_text@ == d + " dBm"@
    &&& is_numeral(row.packets_text@, n.packets as int)
    &&& shows_bytes(
        row.address_text@,
        Seq::new(6, |i: int| shown_byte(n.address as int, i)),
    )
    &&& match (n.model_hint, n.name, n.mfr_company) {
        (Some(model), _, _) => row.label@ == model && row.emphasis == Emphasis::Model,
        (None, Some(name), _) => row.label@ == name && row.emphasis == Emphasis::Name,
        (None, None, Some(c)) => names_company(row.label@, c) && row.emphasis == Emphasis::Weak,
        (None, None, None) => row.label@ == "(unnamed)"@ && row.emphasis == Emphasis::Weak,
    }
}

proof fn lemma_neighbour_row(n: NearbyView, row: NearbyRow)
    requires
        row@ == crate::nearby::nearby_row(n),
    ensures
        shows_neighbour(row, n),
{
    lemma_signed_decimal_is_numeral(n.rssi as int);
    assert(is_signed_numeral(signed_decimal(n.rssi as int), n.rssi as int));
    lemma_decimal_is_numeral(n.packets as nat);
    lemma_address_text_shows(n.address);
    if n.mfr_company is Some {
        lemma_company_named(n.mfr_company->0);
    }
}

/// The list of devices nearby has one row for each device, which shows it, under a heading that says
/// how many there are; without a device there is a message.
pub proof fn lemma_nearby_rows(app: App, list: NearbyList)
    requires
        call_ensures(App::nearby_list, (&app,), list),
    ensures
        forall|i: int|
            0 <= i < list.rows@.len() ==> app@.nearby.contains_key(
                (#[trigger] list.rows@[i]).address,
            ) && shows_neighbour(list.rows@[i], app@.nearby[list.rows@[i].address]),
        forall|i: int, j: int|
            0 <= i < j < list.rows@.len() ==> (#[trigger] list.rows@[i]).address != (
            #[trigger] list.rows@[j]).address,
        forall|a: u64| #[trigger]
            app@.nearby.contains_key(a) ==> exists|i: int|
                0 <= i < list.rows@.len() && (#[trigger] list.rows@[i]).address == a,
        list.rows@.len() == app@.nearby.len(),
        exists|d: Seq<char>| #[trigger]
            is_numeral(d, list.rows@.len() as int) && list.heading@
                == "BLE 広告を直接受信 (500ms スロットル)。現在 "@ + d + " 台。値は絶対 dBm。"@,
        list.message is Some <==> list.rows@.len() == 0,
        list.message is Some ==> list.message->0@
            == "近くの BLE 広告はまだ観測されていません..."@,
{
    let views = nearby_row_views(list.rows@);
    assert forall|i: int| 0 <= i < list.rows@.len() implies app@.nearby.contains_key(
        (#[trigger] list.rows@[i]).address,
    ) && shows_neighbour(list.rows@[i], app@.nearby[list.rows@[i].address]) by {
        assert(views[i] == list.rows@[i]@);
        lemma_neighbour_row(app@.nearby[views[i].address], list.rows@[i]);
    }
    assert forall|i: int, j: int| 0 <= i < j < list.rows@.len() implies (
    #[trigger] list.rows@[i]).address != (#[trigger] list.rows@[j]).address by {
        assert(views[i].address != views[j].address);
    }
    assert forall|a: u64| #[trigger] app@.nearby.contains_key(a) implies exists|i: int|
        0 <= i < list.rows@.len() && (#[trigger] list.rows@[i]).address == a by {
        let i = choose|i: int| 0 <= i < views.len() && (#[trigger] views[i]).address == a;
        assert(list.rows@[i].address == a);
    }
    crate::laws::lemma_nearby_list_len(app@.nearby, views);
    lemma_decimal_is_numeral(app@.nearby.len());
    assert(is_numeral(decimal(app@.nearby.len()), list.rows@.len() as int));
}

/// Of two rows of the list of devices nearby, the upper one has a name or a model if either has, and
/// within the two groups not the smaller signal strength.
pub proof fn lemma_nearby_rows_ordered(app: App, list: NearbyList, i: int, j: int)
    requires
        call_ensures(App::nearby_list, (&app,), list),
        0 <= i < j < list.rows@.len(),
    ensures
        ({
            let upper = app@.nearby[list.rows@[i].address];
            let lower = app@.nearby[list.rows@[j].address];
            let upper_known = upper.name is Some || upper.model_hint is Some;
            let lower_known = lower.name is Some || lower.model_hint is Some;
            &&& lower_known ==> upper_known
            &&& upper_known == lower_known ==> upper.rssi >= lower.rssi
        }),
{
    let views = nearby_row_views(list.rows@);
    assert(views[i] == list.rows@[i]@ && views[j] == list.rows@[j]@);
    assert(app@.nearby[views[i].address].rank().not_after(&app@.nearby[views[j].address].rank()));
}

/// The words for the flags that are set, in the order paired, remembered, connected.
pub open spec fn tells_flags(s: Seq<char>, c: ClassicFoundView) -> bool {
    let p = "paired"@;
    let r = "remembered"@;
    let k = "connected"@;
    match (c.paired, c.remembered, c.connected) {
        (false, false, false) => s.len() == 0,
        (true, false, false) => s == p,
        (false, true, false) => s == r,
        (false, false, true) => s == k,
        (true, true, false) => s == p + ","@ + r,
        (true, false, true) => s == p + ","@ + k,
        (false, true, true) => s == r + ","@ + k,
        (true, true, true) => s == p + ","@ + r + ","@ + k,
    }
}

/// The name of the class of a found device.
pub open spec fn tells_class(s: Seq<char>, cod: u32) -> bool {
    let major = cod as int / 256 % 32;
    &&& major == 1 ==> s == "Computer"@
    &&& major == 2 ==> s == "Phone"@
    &&& major == 3 ==> s == "LAN/Access Point"@
    &&& major == 4 ==> s == "Audio/Video"@
    &&& major == 5 ==> s == "Peripheral (Mouse/KB)"@
    &&& major == 6 ==> s == "Imaging (Printer)"@
    &&& major == 7 ==> s == "Wearable"@
    &&& major == 8 ==> s == "Toy"@
    &&& major == 9 ==> s == "Health"@
    &&& major == 0 || major >= 10 ==> s == "Uncategorized"@
}

/// Whether a row shows a found device.
pub open spec fn shows_found(row: FoundRow, c: ClassicFoundView) -> bool {
    &&& shows_bytes(
        row.address_text@,
        Seq::new(6, |i: int| shown_byte(c.address as int, i)),
    )
    &&& c.name.len() > 0 ==> row.name@ == c.name
    &&& c.name.len() == 0 ==> row.name@ == "(no name)"@
    &&& tells_class(row.class@, c.class_of_device)
    &&& c.connected ==> row.state@ == "接続中"@
    &&& !c.connected && c.paired ==> row.state@ == "切断 (ペア済)"@
    &&& !c.connected && !c.paired ==> row.state@ == "未ペア"@
    &&& tells_flags(row.flags@, c)
}

proof fn lemma_found_row(c: ClassicFoundView, row: FoundRow)
    requires
        row@ == found_row(c),
    ensures
        shows_found(row, c),
{
    lemma_address_text_shows(c.address);
    reveal_strlit("paired");
    reveal_strlit("remembered");
    reveal_strlit("connected");
}

/// Whether `order` says which found device each row shows: each device has one row, connected
/// devices stand first, then those that are not paired, then those with a name, and devices alike
/// in all that stay in the sequence in which they were found.
pub open spec fn orders_found(
    order: Seq<usize>,
    found: Seq<ClassicFoundView>,
    rows: Seq<FoundRow>,
) -> bool {
    &&& order.len() == found.len()
    &&& order.len() == rows.len()
    &&& forall|i: int| 0 <= i < order.len() ==> #[trigger] order[i] < found.len()
    &&& forall|i: int, j: int| 0 <= i < j < order.len() ==> #[trigger] order[i] != #[trigger] order[j]
    &&& forall|i: int|
        0 <= i < order.len() ==> shows_found(#[trigger] rows[i], found[order[i] as int])
    &&& forall|i: int, j: int|
        0 <= i < j < order.len() ==> {
            let upper = found[#[trigger] order[i] as int];
            let lower = found[#[trigger] order[j] as int];
            &&& lower.connected ==> upper.connected
            &&& upper.connected == lower.connected && upper.paired ==> lower.paired
            &&& upper.connected == lower.connected && upper.paired == lower.paired ==> {
                &&& lower.name.len() > 0 ==> upper.name.len() > 0
                &&& upper.name.len() > 0 && lower.name.len() > 0 ==> order[i] < order[j]
                &&& upper.name.len() == 0 && lower.name.len() == 0 ==> order[i] < order[j]
            }
        }
}

/// The list of found devices shows each of them, in order. A search may be started unless one runs,
/// which the button says; and how far the search has come is said in words.
pub proof fn lemma_found_rows(app: App, list: ClassicList)
    requires
        call_ensures(App::classic_list, (&app,), list),
    ensures
        exists|order: Seq<usize>| #[trigger]
            orders_found(order, app@.classic_found, list.rows@),
        list.can_start <==> app@.classic_scan != ClassicScanState::Running,
        list.can_start ==> list.button@ == "スキャン開始 (約 8 秒)"@,
        !list.can_start ==> list.button@ == "スキャン中...(~8秒)"@,
        app@.classic_scan == ClassicScanState::Idle ==> list.status@ == "(未実行。ボタンで開始)"@,
        app@.classic_scan == ClassicScanState::Running ==> exists|d: Seq<char>| #[trigger]
            is_numeral(d, app@.classic_found.len() as int) && list.status@ == "スキャン中… ("@ + d
                + " 台検出)"@,
        app@.classic_scan is Finished ==> exists|d: Seq<char>| #[trigger]
            is_numeral(d, app@.classic_scan->Finished_0 as int) && list.status@ == "完了: "@ + d
                + " 台"@,
        list.message is Some <==> app@.classic_found.len() == 0,
        list.message is Some ==> list.message->0@
            == "(まだ結果がありません。上のボタンで Inquiry を発行してください)"@,
{
    let found = app@.classic_found;
    let ranks = found.map_values(|c: ClassicFoundView| c.rank());
    let order = choose|order: Seq<usize>|
        {
            &&& #[trigger] lists_each_once(order, found.len())
            &&& stably_ordered(ranks, order)
            &&& found_row_views(list.rows@) == order.map_values(
                |k: usize| found_row(found[k as int]),
            )
        };
    let views = found_row_views(list.rows@);
    assert(views.len() == list.rows@.len());
    assert forall|i: int| 0 <= i < order.len() implies shows_found(
        #[trigger] list.rows@[i],
        found[order[i] as int],
    ) by {
        assert(views[i] == list.rows@[i]@);
        lemma_found_row(found[order[i] as int], list.rows@[i]);
    }
    assert forall|i: int, j: int| 0 <= i < j < order.len() implies {
        let upper = found[#[trigger] order[i] as int];
        let lower = found[#[trigger] order[j] as int];
        &&& lower.connected ==> upper.connected
        &&& upper.connected == lower.connected && upper.paired ==> lower.paired
        &&& upper.connected == lower.connected && upper.paired == lower.paired ==> {
            &&& lower.name.len() > 0 ==> upper.name.len() > 0
            &&& upper.name.len() > 0 && lower.name.len() > 0 ==> order[i] < order[j]
            &&& upper.name.len() == 0 && lower.name.len() == 0 ==> order[i] < order[j]
        }
    } by {
        assert(order[i] < found.len() && order[j] < found.len());
        assert(ranks[order[i] as int].not_after(&ranks[order[j] as int]));
    }
    assert(orders_found(order, found, list.rows@));
    lemma_decimal_is_numeral(found.len());
    assert(is_numeral(decimal(found.len()), found.len() as int));
    if app@.classic_scan is Finished {
        let total = app@.classic_scan->Finished_0;
        lemma_decimal_is_numeral(total as nat);
        assert(is_numeral(decimal(total as nat), total as int));
    }
}

/// The bar at the top names the theme and the radio, and says how many paired devices there are, or
/// how many so far.
pub proof fn lemma_top_bar(app: App, dark: bool, bar: TopBar)
    requires
        call_ensures(App::top_bar, (&app, dark), bar),
    ensures
        app@.config.theme == ThemeChoice::System ==> bar.theme@ == "OS 準拠"@,
        app@.config.theme == ThemeChoice::Dark ==> bar.theme@ == "ダーク"@,
        app@.config.theme == ThemeChoice::Light ==> bar.theme@ == "ライト"@,
        app@.radio == RadioState::On ==> bar.radio@ == "ON"@,
        app@.radio == RadioState::Off ==> bar.radio@ == "OFF"@,
        app@.radio == RadioState::Disabled ==> bar.radio@ == "無効"@,
        app@.radio == RadioState::Absent ==> bar.radio@ == "無し"@,
        app@.radio == RadioState::Unknown ==> bar.radio@ == "?"@,
        app@.radio == RadioState::On ==> bar.radio_colour == if dark {
            Rgb { r: 120, g: 220, b: 140 }
        } else {
            Rgb { r: 30, g: 130, b: 60 }
        },
        app@.radio == RadioState::Unknown ==> bar.radio_colour == if dark {
            Rgb { r: 200, g: 200, b: 200 }
        } else {
            Rgb { r: 80, g: 80, b: 80 }
        },
        app@.radio != RadioState::On && app@.radio != RadioState::Unknown ==> bar.radio_colour
            == if dark {
            Rgb { r: 240, g: 130, b: 130 }
        } else {
            Rgb { r: 180, g: 40, b: 40 }
        },
        exists|d: Seq<char>| #[trigger]
            is_numeral(d, app@.devices.len() as int) && bar.status@ == if app@.enumerated {
                d + " 台"@
            } else {
                "読込中... "@ + d
            },
{
    lemma_decimal_is_numeral(app@.devices.len());
    assert(is_numeral(decimal(app@.devices.len()), app@.devices.len() as int));
}

} // verus!
