//! Paired devices, found by their identifiers.

use vstd::prelude::*;
use vstd::string::*;

use crate::address::{parse_bt_addr, parsed_address};
use crate::bt::DeviceKind;
use crate::clock::{elapsed, Moment, Span};
use crate::labels::{kind_label, kind_text, rssi_text, rssi_text_with_age};
use crate::order::{lists_each_once, stable_order, Ranked};
use crate::text::{
    chars_of, lemma_text_le_total, lemma_text_le_transitive, text_le, text_not_after,
};

verus! {

/// A signal strength that is older than this, in nanoseconds, is no longer fresh.
pub const SIGNAL_FRESH_CUTOFF: u64 = 15_000_000_000;

/// A paired device.
#[derive(Clone)]
pub struct Device {
    pub id: String,
    pub name: String,
    pub kind: DeviceKind,
    pub connected: bool,
    pub rssi: Option<i32>,
    /// When the signal strength came in, which need not be when it was measured.
    pub last_rssi_at: Option<Moment>,
    pub address: String,
}

/// A paired device as values.
pub struct DeviceView {
    pub id: Seq<char>,
    pub name: Seq<char>,
    pub kind: DeviceKind,
    pub connected: bool,
    pub rssi: Option<i32>,
    pub last_rssi_at: Option<Moment>,
    pub address: Seq<char>,
}

impl View for Device {
    type V = DeviceView;

    open spec fn view(&self) -> DeviceView {
        DeviceView {
            id: self.id@,
            name: self.name@,
            kind: self.kind,
            connected: self.connected,
            rssi: self.rssi,
            last_rssi_at: self.last_rssi_at,
            address: self.address@,
        }
    }
}

impl DeviceView {
    /// A signal strength comes with the time at which it came in, and only with it.
    pub open spec fn stamped(self) -> bool {
        self.rssi is Some <==> self.last_rssi_at is Some
    }

    /// Whether the signal strength came in and is not older than the cutoff.
    pub open spec fn fresh(self, now: Moment) -> bool {
        self.last_rssi_at matches Some(t) && elapsed(now, t) <= SIGNAL_FRESH_CUTOFF
    }

    /// The device after an update, of which any part may be missing.
    pub open spec fn updated(
        self,
        connected: Option<bool>,
        rssi: Option<i32>,
        now: Moment,
    ) -> DeviceView {
        DeviceView {
            connected: match connected {
                Some(c) => c,
                None => self.connected,
            },
            rssi: if rssi is Some {
                rssi
            } else {
                self.rssi
            },
            last_rssi_at: if rssi is Some {
                Some(now)
            } else {
                self.last_rssi_at
            },
            ..self
        }
    }

    /// The device after an advertisement from `address`: a low-energy device with that address
    /// takes over the signal strength, any other stays as it is.
    pub open spec fn advertised(self, address: u64, rssi: i32, now: Moment) -> DeviceView {
        if self.kind == DeviceKind::Ble && parsed_address(self.address) == Some(address) {
            DeviceView { rssi: Some(rssi), last_rssi_at: Some(now), ..self }
        } else {
            self
        }
    }
}

impl Device {
    /// How long ago the signal strength came in.
    pub fn signal_age(&self, now: Moment) -> (age: Option<Span>)
        ensures
            age is Some <==> self.last_rssi_at is Some,
            age matches Some(a) ==> a.nanos == elapsed(now, self.last_rssi_at->0),
    {
        match self.last_rssi_at {
            Some(t) => Some(now.duration_since(t)),
            None => None,
        }
    }

    /// Tells whether the signal strength is recent enough to be shown as such.
    pub fn signal_is_fresh(&self, now: Moment) -> (r: bool)
        ensures
            r == self@.fresh(now),
    {
        match self.signal_age(now) {
            Some(age) => age.nanos <= SIGNAL_FRESH_CUTOFF,
            None => false,
        }
    }
}

/// Whether a device in the list has this identifier.
pub open spec fn has_id(s: Seq<DeviceView>, id: Seq<char>) -> bool {
    exists|i: int| 0 <= i < s.len() && #[trigger] s[i].id == id
}

/// The place of a device with this identifier.
pub open spec fn position(s: Seq<DeviceView>, id: Seq<char>) -> int {
    choose|i: int| 0 <= i < s.len() && #[trigger] s[i].id == id
}

/// A list of devices as a map from identifiers.
pub open spec fn by_id(s: Seq<DeviceView>) -> Map<Seq<char>, DeviceView> {
    Map::new(|id: Seq<char>| has_id(s, id), |id: Seq<char>| s[position(s, id)])
}

/// No identifier occurs twice.
pub open spec fn distinct_ids(s: Seq<DeviceView>) -> bool {
    forall|i: int, j: int|
        0 <= i < s.len() && 0 <= j < s.len() && #[trigger] s[i].id == #[trigger] s[j].id ==> i == j
}

proof fn lemma_by_id(s: Seq<DeviceView>, i: int)
    requires
        distinct_ids(s),
        0 <= i < s.len(),
    ensures
        by_id(s).contains_key(s[i].id),
        by_id(s)[s[i].id] == s[i],
{
    assert(has_id(s, s[i].id));
    let p = position(s, s[i].id);
    assert(0 <= p < s.len() && s[p].id == s[i].id);
}

proof fn lemma_by_id_push(s: Seq<DeviceView>, d: DeviceView)
    requires
        distinct_ids(s),
        !has_id(s, d.id),
    ensures
        distinct_ids(s.push(d)),
        by_id(s.push(d)) == by_id(s).insert(d.id, d),
{
    let t = s.push(d);
    assert forall|i: int| 0 <= i < s.len() implies (#[trigger] t[i]).id != d.id by {
        assert(t[i] == s[i]);
    }
    assert(distinct_ids(t)) by {
        assert forall|i: int, j: int|
            0 <= i < t.len() && 0 <= j < t.len() && #[trigger] t[i].id == #[trigger] t[j].id implies i
            == j by {
            if i < s.len() && j < s.len() {
                assert(s[i].id == s[j].id);
            }
        }
    }
    assert forall|id: Seq<char>| has_id(t, id) == (has_id(s, id) || id == d.id) by {
        if has_id(s, id) {
            let i = position(s, id);
            assert(t[i].id == id);
        }
        if id == d.id {
            assert(t[s.len() as int].id == id);
        }
        if has_id(t, id) {
            let i = position(t, id);
            if i < s.len() {
                assert(s[i].id == id);
            }
        }
    }
    assert forall|id: Seq<char>| has_id(t, id) implies by_id(t)[id] == by_id(s).insert(d.id, d)[id] by {
        let i = position(t, id);
        lemma_by_id(t, i);
        if i < s.len() {
            assert(s[i].id == id);
            lemma_by_id(s, i);
        }
    }
    assert(by_id(t) =~= by_id(s).insert(d.id, d));
}

proof fn lemma_by_id_update(s: Seq<DeviceView>, i: int, d: DeviceView)
    requires
        distinct_ids(s),
        0 <= i < s.len(),
        d.id == s[i].id,
    ensures
        distinct_ids(s.update(i, d)),
        by_id(s.update(i, d)) == by_id(s).insert(d.id, d),
{
    let t = s.update(i, d);
    assert forall|k: int| 0 <= k < s.len() implies (#[trigger] t[k]).id == s[k].id by {}
    assert(distinct_ids(t)) by {
        assert forall|k: int, j: int|
            0 <= k < t.len() && 0 <= j < t.len() && #[trigger] t[k].id == #[trigger] t[j].id implies k
            == j by {
            assert(s[k].id == s[j].id);
        }
    }
    assert forall|id: Seq<char>| has_id(t, id) == has_id(s, id) by {
        if has_id(s, id) {
            let k = position(s, id);
            assert(t[k].id == id);
        }
        if has_id(t, id) {
            let k = position(t, id);
            assert(s[k].id == id);
        }
    }
    assert(has_id(s, d.id));
    assert forall|id: Seq<char>| has_id(t, id) implies by_id(t)[id] == by_id(s).insert(d.id, d)[id] by {
        let k = position(t, id);
        lemma_by_id(t, k);
        assert(s[k].id == id);
        lemma_by_id(s, k);
        if id == d.id {
            assert(s[k].id == s[i].id);
        }
    }
    assert(by_id(t) =~= by_id(s).insert(d.id, d));
}

proof fn lemma_by_id_remove(s: Seq<DeviceView>, i: int)
    requires
        distinct_ids(s),
        0 <= i < s.len(),
    ensures
        distinct_ids(s.remove(i)),
        by_id(s.remove(i)) == by_id(s).remove(s[i].id),
{
    let t = s.remove(i);
    let gone = s[i].id;
    assert(distinct_ids(t)) by {
        assert forall|k: int, j: int|
            0 <= k < t.len() && 0 <= j < t.len() && #[trigger] t[k].id == #[trigger] t[j].id implies k
            == j by {
            let k0 = if k < i { k } else { k + 1 };
            let j0 = if j < i { j } else { j + 1 };
            assert(s[k0].id == s[j0].id);
        }
    }
    assert forall|id: Seq<char>| has_id(t, id) == (has_id(s, id) && id != gone) by {
        if has_id(s, id) && id != gone {
            let k = position(s, id);
            assert(s[k].id == id);
            let k0 = if k < i { k } else { k - 1 };
            assert(t[k0].id == id);
        }
        if has_id(t, id) {
            let k = position(t, id);
            let k0 = if k < i { k } else { k + 1 };
            assert(s[k0].id == id);
            assert(id == gone ==> s[k0].id == s[i].id);
        }
    }
    assert forall|id: Seq<char>| has_id(t, id) implies by_id(t)[id] == by_id(s).remove(gone)[id] by {
        let k = position(t, id);
        let k0 = if k < i { k } else { k + 1 };
        lemma_by_id(t, k);
        lemma_by_id(s, k0);
    }
    assert(by_id(t) =~= by_id(s).remove(gone));
}

proof fn lemma_by_id_len(s: Seq<DeviceView>)
    requires
        distinct_ids(s),
    ensures
        by_id(s).dom().finite(),
        by_id(s).len() == s.len(),
    decreases s.len(),
{
    if s.len() == 0 {
        assert(by_id(s).dom() =~= Set::empty());
    } else {
        let front = s.drop_last();
        assert forall|i: int, j: int|
            0 <= i < front.len() && 0 <= j < front.len() && #[trigger] front[i].id
                == #[trigger] front[j].id implies i == j by {
            assert(s[i].id == s[j].id);
        }
        lemma_by_id_len(front);
        if has_id(front, s.last().id) {
            let i = position(front, s.last().id);
            assert(s[i].id == s[s.len() - 1].id);
        }
        lemma_by_id_push(front, s.last());
        assert(front.push(s.last()) == s);
        assert(!by_id(front).contains_key(s.last().id));
    }
}

/// The paired devices.
pub struct DeviceTable {
    devices: Vec<Device>,
}

impl View for DeviceTable {
    type V = Map<Seq<char>, DeviceView>;

    closed spec fn view(&self) -> Map<Seq<char>, DeviceView> {
        by_id(self.listed())
    }
}

impl DeviceTable {
    /// The devices in the order in which they are held.
    pub closed spec fn listed(self) -> Seq<DeviceView> {
        self.devices@.map_values(|d: Device| d@)
    }

    /// No identifier occurs twice, and every signal strength is stamped.
    pub closed spec fn wf(self) -> bool {
        &&& distinct_ids(self.listed())
        &&& forall|i: int| 0 <= i < self.listed().len() ==> #[trigger] self.listed()[i].stamped()
    }

    /// Each device is found by its own identifier, and every signal strength is stamped.
    pub proof fn lemma_wf(self)
        requires
            self.wf(),
        ensures
            forall|id: Seq<char>| #[trigger]
                self@.contains_key(id) ==> self@[id].id == id && self@[id].stamped(),
    {
        assert forall|id: Seq<char>| #[trigger] self@.contains_key(id) implies self@[id].id == id
            && self@[id].stamped() by {
            let i = position(self.listed(), id);
            assert(has_id(self.listed(), id));
            assert(self.listed()[i].stamped());
        }
    }

    /// A table without devices.
    pub fn new() -> (t: DeviceTable)
        ensures
            t.wf(),
            t@ == Map::<Seq<char>, DeviceView>::empty(),
    {
        let t = DeviceTable { devices: Vec::new() };
        assert(t@ =~= Map::<Seq<char>, DeviceView>::empty());
        t
    }

    /// How many devices there are.
    pub fn len(&self) -> (n: usize)
        requires
            self.wf(),
        ensures
            self@.dom().finite(),
            n == self@.len(),
    {
        proof {
            lemma_by_id_len(self.listed());
        }
        self.devices.len()
    }

    /// Where the device with this identifier is held.
    fn find(&self, id: &String) -> (r: Option<usize>)
        ensures
            match r {
                Some(i) => i < self.devices@.len() && self.listed()[i as int].id == id@,
                None => !has_id(self.listed(), id@),
            },
    {
        let mut i: usize = 0;
        while i < self.devices.len()
            invariant
                i <= self.devices@.len(),
                forall|k: int| 0 <= k < i ==> (#[trigger] self.listed()[k]).id != id@,
            decreases self.devices@.len() - i,
        {
            if self.devices[i].id == *id {
                return Some(i);
            }
            i += 1;
        }
        None
    }

    /// Takes in a device, in the place of one with the same identifier.
    pub fn insert(&mut self, device: Device)
        requires
            old(self).wf(),
            device@.stamped(),
        ensures
            final(self).wf(),
            final(self)@ == old(self)@.insert(device@.id, device@),
    {
        let ghost before = self.listed();
        let ghost d = device@;
        match self.find(&device.id) {
            Some(i) => {
                proof {
                    lemma_by_id_update(before, i as int, d);
                }
                self.devices.set(i, device);
                assert(self.listed() =~= before.update(i as int, d));
            },
            None => {
                proof {
                    lemma_by_id_push(before, d);
                }
                self.devices.push(device);
                assert(self.listed() =~= before.push(d));
            },
        }
    }

    /// Takes out the device with this identifier, if there is one.
    pub fn remove(&mut self, id: &String)
        requires
            old(self).wf(),
        ensures
            final(self).wf(),
            final(self)@ == old(self)@.remove(id@),
    {
        let ghost before = self.listed();
        match self.find(id) {
            Some(i) => {
                proof {
                    lemma_by_id_remove(before, i as int);
                }
                self.devices.remove(i);
                assert(self.listed() =~= before.remove(i as int));
            },
            None => {
                assert(self@ =~= self@.remove(id@));
            },
        }
    }

    /// Takes out every device.
    pub fn clear(&mut self)
        ensures
            final(self).wf(),
            final(self)@ == Map::<Seq<char>, DeviceView>::empty(),
    {
        self.devices.clear();
        assert(self@ =~= Map::<Seq<char>, DeviceView>::empty());
    }

    /// Brings the device with this identifier up to date, if there is one.
    pub fn refresh(&mut self, id: &String, connected: Option<bool>, rssi: Option<i32>, now: Moment)
        requires
            old(self).wf(),
        ensures
            final(self).wf(),
            final(self)@ == if old(self)@.contains_key(id@) {
                old(self)@.insert(id@, old(self)@[id@].updated(connected, rssi, now))
            } else {
                old(self)@
            },
    {
        let ghost before = self.listed();
        if let Some(i) = self.find(id) {
            proof {
                assert(before[i as int].stamped());
                lemma_by_id(before, i as int);
                lemma_by_id_update(
                    before,
                    i as int,
                    before[i as int].updated(connected, rssi, now),
                );
            }
            if let Some(c) = connected {
                self.devices[i].connected = c;
            }
            if let Some(r) = rssi {
                self.devices[i].rssi = Some(r);
                self.devices[i].last_rssi_at = Some(now);
            }
            assert(self.listed() =~= before.update(
                i as int,
                before[i as int].updated(connected, rssi, now),
            ));
        }
    }

    /// Hands the signal strength of an advertisement to each low-energy device that has its
    /// address.
    pub fn advertise(&mut self, address: u64, rssi: i32, now: Moment)
        requires
            old(self).wf(),
        ensures
            final(self).wf(),
            final(self)@ == old(self)@.map_values(
                |d: DeviceView| d.advertised(address, rssi, now),
            ),
    {
        let ghost before = self.listed();
        let mut i: usize = 0;
        while i < self.devices.len()
            invariant
                i <= self.devices@.len() == before.len(),
                distinct_ids(before),
                forall|k: int| 0 <= k < before.len() ==> #[trigger] before[k].stamped(),
                forall|k: int|
                    0 <= k < i ==> #[trigger] self.listed()[k] == before[k].advertised(
                        address,
                        rssi,
                        now,
                    ),
                forall|k: int| i <= k < before.len() ==> #[trigger] self.listed()[k] == before[k],
            decreases before.len() - i,
        {
            let ghost current = self.listed();
            assert(current[i as int] == before[i as int]);
            assert(before[i as int].stamped());
            if self.devices[i].kind == DeviceKind::Ble {
                if let Some(paired) = parse_bt_addr(self.devices[i].address.as_str()) {
                    if paired == address {
                        self.devices[i].rssi = Some(rssi);
                        self.devices[i].last_rssi_at = Some(now);
                    }
                }
            }
            assert(self.listed() =~= current.update(
                i as int,
                before[i as int].advertised(address, rssi, now),
            ));
            i += 1;
        }
        proof {
            lemma_by_id_map(before, self.listed(), address, rssi, now);
            assert forall|k: int| 0 <= k < self.listed().len() implies #[trigger] self.listed()[k].stamped() by {
                assert(before[k].stamped());
            }
        }
    }
}

proof fn lemma_by_id_map(
    s: Seq<DeviceView>,
    t: Seq<DeviceView>,
    address: u64,
    rssi: i32,
    now: Moment,
)
    requires
        distinct_ids(s),
        s.len() == t.len(),
        forall|k: int|
            0 <= k < s.len() ==> #[trigger] t[k] == s[k].advertised(address, rssi, now),
    ensures
        distinct_ids(t),
        by_id(t) == by_id(s).map_values(|d: DeviceView| d.advertised(address, rssi, now)),
{
    assert(distinct_ids(t)) by {
        assert forall|k: int, j: int|
            0 <= k < t.len() && 0 <= j < t.len() && #[trigger] t[k].id == #[trigger] t[j].id implies k
            == j by {
            assert(s[k].id == s[j].id);
        }
    }
    let mapped = by_id(s).map_values(|d: DeviceView| d.advertised(address, rssi, now));
    assert forall|id: Seq<char>| has_id(t, id) == has_id(s, id) by {
        if has_id(s, id) {
            let k = position(s, id);
            assert(t[k].id == id);
        }
        if has_id(t, id) {
            let k = position(t, id);
            assert(s[k].id == id);
        }
    }
    assert forall|id: Seq<char>| has_id(t, id) implies by_id(t)[id] == mapped[id] by {
        let k = position(t, id);
        lemma_by_id(t, k);
        assert(s[k].id == id);
        lemma_by_id(s, k);
    }
    assert(by_id(t) =~= mapped);
}

/// What paired devices are ordered by.
pub struct DeviceRank {
    pub ble: bool,
    pub connected: bool,
    pub strength: i64,
    pub name: Vec<char>,
}

/// Low-energy devices stand before Classic ones, whose signal strengths do not compare; within
/// a family connected devices come first; low-energy devices follow by falling signal strength;
/// and what is still level goes by name.
pub open spec fn ranks_not_after(
    ble: (bool, bool),
    connected: (bool, bool),
    strength: (int, int),
    name: (Seq<char>, Seq<char>),
) -> bool {
    if ble.0 != ble.1 {
        ble.0
    } else if connected.0 != connected.1 {
        connected.0
    } else if ble.0 && strength.0 != strength.1 {
        strength.0 > strength.1
    } else {
        text_le(name.0, name.1)
    }
}

impl Ranked for DeviceRank {
    open spec fn not_after(&self, other: &Self) -> bool {
        ranks_not_after(
            (self.ble, other.ble),
            (self.connected, other.connected),
            (self.strength as int, other.strength as int),
            (self.name@, other.name@),
        )
    }

    proof fn total(a: &Self, b: &Self) {
        lemma_text_le_total(a.name@, b.name@);
    }

    proof fn transitive(a: &Self, b: &Self, c: &Self) {
        if text_le(a.name@, b.name@) && text_le(b.name@, c.name@) {
            lemma_text_le_transitive(a.name@, b.name@, c.name@);
        }
    }

    fn may_precede(&self, other: &Self) -> bool {
        if self.ble != other.ble {
            self.ble
        } else if self.connected != other.connected {
            self.connected
        } else if self.ble && self.strength != other.strength {
            self.strength > other.strength
        } else {
            text_not_after(&self.name, &other.name)
        }
    }
}

impl DeviceView {
    /// The signal strength to order by: a missing one is weaker than any other.
    pub open spec fn strength(self) -> int {
        match self.rssi {
            Some(v) => v as int,
            None => i32::MIN - 1,
        }
    }

    /// Whether this device may stand before the other one in the list of paired devices, or
    /// beside it.
    pub open spec fn not_after(self, other: DeviceView) -> bool {
        ranks_not_after(
            (self.kind == DeviceKind::Ble, other.kind == DeviceKind::Ble),
            (self.connected, other.connected),
            (self.strength(), other.strength()),
            (self.name, other.name),
        )
    }

    /// How long ago the signal strength came in.
    pub open spec fn age(self, now: Moment) -> Option<Span> {
        match self.last_rssi_at {
            Some(t) => Some(Span { nanos: elapsed(now, t) as u64 }),
            None => None,
        }
    }
}

/// A row of the list of paired devices.
pub struct PairedRow {
    pub id: String,
    pub kind: &'static str,
    pub rssi_text: String,
    pub rssi: Option<i32>,
    /// Whether the bar of the signal strength is translucent.
    pub dim: bool,
    pub state: &'static str,
    pub name: String,
}

/// A row of the list of paired devices, as values.
pub struct PairedRowView {
    pub id: Seq<char>,
    pub kind: Seq<char>,
    pub rssi_text: Seq<char>,
    pub rssi: Option<i32>,
    pub dim: bool,
    pub state: Seq<char>,
    pub name: Seq<char>,
}

impl View for PairedRow {
    type V = PairedRowView;

    open spec fn view(&self) -> PairedRowView {
        PairedRowView {
            id: self.id@,
            kind: self.kind@,
            rssi_text: self.rssi_text@,
            rssi: self.rssi,
            dim: self.dim,
            state: self.state@,
            name: self.name@,
        }
    }
}

/// Rows as values.
pub open spec fn paired_row_views(rows: Seq<PairedRow>) -> Seq<PairedRowView> {
    rows.map_values(|r: PairedRow| r@)
}

/// How a paired device is shown.
pub open spec fn paired_row(d: DeviceView, now: Moment) -> PairedRowView {
    PairedRowView {
        id: d.id,
        kind: kind_text(d.kind),
        rssi_text: rssi_text(d.rssi, d.age(now)),
        rssi: d.rssi,
        dim: !d.fresh(now),
        state: if d.connected {
            "接続中"@
        } else {
            "切断"@
        },
        name: d.name,
    }
}

/// Whether the list of paired devices shows the device with this identifier.
pub open spec fn is_shown(
    devices: Map<Seq<char>, DeviceView>,
    show_classic: bool,
    id: Seq<char>,
) -> bool {
    devices.contains_key(id) && (show_classic || devices[id].kind == DeviceKind::Ble)
}

/// Whether `rows` is the list of paired devices: each device that is shown has one row, and the
/// rows are in order.
pub open spec fn is_paired_list(
    devices: Map<Seq<char>, DeviceView>,
    show_classic: bool,
    now: Moment,
    rows: Seq<PairedRowView>,
) -> bool {
    &&& forall|i: int|
        0 <= i < rows.len() ==> is_shown(devices, show_classic, (#[trigger] rows[i]).id) && rows[i]
            == paired_row(devices[rows[i].id], now)
    &&& forall|i: int, j: int|
        0 <= i < j < rows.len() ==> (#[trigger] rows[i]).id != (#[trigger] rows[j]).id
    &&& forall|id: Seq<char>| #[trigger]
        is_shown(devices, show_classic, id) ==> exists|i: int|
            0 <= i < rows.len() && (#[trigger] rows[i]).id == id
    &&& forall|i: int, j: int|
        0 <= i < j < rows.len() ==> devices[(#[trigger] rows[i]).id].not_after(
            devices[(#[trigger] rows[j]).id],
        )
}

impl Device {
    /// Shows this device as a row.
    fn row(&self, now: Moment) -> (r: PairedRow)
        ensures
            r@ == paired_row(self@, now),
    {
        let fresh = self.signal_is_fresh(now);
        let age = self.signal_age(now);
        PairedRow {
            id: self.id.clone(),
            kind: kind_label(self.kind),
            rssi_text: rssi_text_with_age(self.rssi, age),
            rssi: self.rssi,
            dim: !fresh,
            state: if self.connected {
                "接続中"
            } else {
                "切断"
            },
            name: self.name.clone(),
        }
    }

    /// What this device is ordered by.
    fn rank(&self) -> (r: DeviceRank)
        ensures
            r.ble == (self.kind == DeviceKind::Ble),
            r.connected == self.connected,
            r.strength == self@.strength(),
            r.name@ == self.name@,
    {
        DeviceRank {
            ble: self.kind == DeviceKind::Ble,
            connected: self.connected,
            strength: match self.rssi {
                Some(v) => v as i64,
                None => i32::MIN as i64 - 1,
            },
            name: chars_of(self.name.as_str()),
        }
    }
}

impl DeviceTable {
    /// The list of paired devices. Where devices are level, their sequence is open.
    pub fn rows(&self, show_classic: bool, now: Moment) -> (rows: Vec<PairedRow>)
        requires
            self.wf(),
        ensures
            is_paired_list(self@, show_classic, now, paired_row_views(rows@)),
    {
        let ghost listed = self.listed();
        let mut places: Vec<usize> = Vec::new();
        let mut ranks: Vec<DeviceRank> = Vec::new();
        let mut i: usize = 0;
        while i < self.devices.len()
            invariant
                i <= self.devices@.len(),
                listed == self.listed(),
                places@.len() == ranks@.len(),
                forall|k: int| 0 <= k < places@.len() ==> #[trigger] places@[k] < i,
                forall|k: int, l: int|
                    0 <= k < l < places@.len() ==> #[trigger] places@[k] < #[trigger] places@[l],
                forall|k: int|
                    0 <= k < places@.len() ==> {
                        let d = listed[#[trigger] places@[k] as int];
                        &&& (show_classic || d.kind == DeviceKind::Ble)
                        &&& ranks@[k].ble == (d.kind == DeviceKind::Ble)
                        &&& ranks@[k].connected == d.connected
                        &&& ranks@[k].strength == d.strength()
                        &&& ranks@[k].name@ == d.name
                    },
                forall|m: int|
                    0 <= m < i && (show_classic || (#[trigger] listed[m]).kind == DeviceKind::Ble)
                        ==> exists|k: int| 0 <= k < places@.len() && #[trigger] places@[k] == m,
            decreases self.devices@.len() - i,
        {
            let ghost before = places@;
            assert(listed[i as int] == self.devices@[i as int]@);
            if show_classic || self.devices[i].kind == DeviceKind::Ble {
                places.push(i);
                ranks.push(self.devices[i].rank());
                assert(places@[before.len() as int] == i);
            }
            assert forall|m: int|
                0 <= m < i + 1 && (show_classic || (#[trigger] listed[m]).kind == DeviceKind::Ble) implies exists|
                k: int,
            | 0 <= k < places@.len() && #[trigger] places@[k] == m by {
                if m < i {
                    let k = choose|k: int| 0 <= k < before.len() && #[trigger] before[k] == m;
                    assert(places@[k] == m);
                }
            }
            i += 1;
        }
        let order = stable_order(&ranks);
        let mut rows: Vec<PairedRow> = Vec::new();
        let mut n: usize = 0;
        while n < order.len()
            invariant
                n <= order@.len(),
                listed == self.listed(),
                places@.len() == ranks@.len(),
                lists_each_once(order@, ranks@.len()),
                forall|k: int| 0 <= k < places@.len() ==> #[trigger] places@[k] < listed.len(),
                rows@.len() == n,
                forall|k: int|
                    0 <= k < n ==> (#[trigger] rows@[k])@ == paired_row(
                        listed[places@[order@[k] as int] as int],
                        now,
                    ),
            decreases order@.len() - n,
        {
            let place: usize = places[order[n]];
            assert(listed[place as int] == self.devices@[place as int]@);
            rows.push(self.devices[place].row(now));
            n += 1;
        }
        proof {
            let views = paired_row_views(rows@);
            let at = |k: int| places@[order@[k] as int] as int;
            assert forall|k: int| 0 <= k < views.len() implies {
                let d = listed[at(k)];
                &&& 0 <= #[trigger] at(k) < listed.len()
                &&& self@.contains_key(d.id)
                &&& self@[d.id] == d
                &&& views[k] == paired_row(d, now)
                &&& (show_classic || d.kind == DeviceKind::Ble)
            } by {
                assert(order@[k] < places@.len());
                assert(views[k] == rows@[k]@);
                lemma_by_id(listed, at(k));
            }
            assert forall|k: int| 0 <= k < views.len() implies is_shown(
                self@,
                show_classic,
                (#[trigger] views[k]).id,
            ) && views[k] == paired_row(self@[views[k].id], now) by {
                assert(0 <= at(k) < listed.len());
            }
            assert forall|k: int, l: int| 0 <= k < l < views.len() implies (#[trigger] views[k]).id
                != (#[trigger] views[l]).id && self@[views[k].id].not_after(self@[views[l].id]) by {
                assert(0 <= at(k) < listed.len() && 0 <= at(l) < listed.len());
                assert(order@[k] != order@[l]);
                assert(order@[k] < order@[l] ==> places@[order@[k] as int] < places@[order@[l] as int]);
                assert(order@[l] < order@[k] ==> places@[order@[l] as int] < places@[order@[k] as int]);
                assert(at(k) != at(l));
                assert(listed[at(k)].id != listed[at(l)].id);
                assert(ranks@[order@[k] as int].not_after(&ranks@[order@[l] as int]));
            }
            assert forall|id: Seq<char>| #[trigger] is_shown(self@, show_classic, id) implies exists|
                k: int,
            | 0 <= k < views.len() && (#[trigger] views[k]).id == id by {
                let m = position(listed, id);
                assert(has_id(listed, id));
                lemma_by_id(listed, m);
                assert(listed[m].id == id);
                let p = choose|p: int| 0 <= p < places@.len() && #[trigger] places@[p] == m;
                assert(order@.contains(p as usize));
                let k = order@.index_of(p as usize);
                assert(at(k) == m);
                assert(0 <= at(k) < listed.len());
                assert(views[k].id == id);
            }
        }
        rows
    }
}

} // verus!
