//! Low-energy devices nearby, found by their addresses.

use std::collections::HashMap;

use vstd::prelude::*;
use vstd::string::*;

use crate::address::{address_text, fmt_bt_addr};
use crate::bt::optional_text;
use crate::clock::Moment;
use crate::order::{lists_each_once, stable_order, Ranked};
use crate::text::{
    decimal, decimal_text, hex_byte, push_hex_byte, signed_decimal, signed_decimal_text,
};

verus! {

broadcast use vstd::std_specs::hash::group_hash_axioms;

/// A device that was not heard of for this long or longer, in nanoseconds, is dropped.
pub const NEARBY_LIFETIME: u64 = 60_000_000_000;

/// A device nearby, paired or not.
pub struct NearbyBle {
    pub address: u64,
    pub name: Option<String>,
    pub rssi: i16,
    pub mfr_company: Option<u16>,
    pub model_hint: Option<String>,
    pub packets: u32,
    pub last_seen: Moment,
}

/// A device nearby as values.
pub struct NearbyView {
    pub address: u64,
    pub name: Option<Seq<char>>,
    pub rssi: i16,
    pub mfr_company: Option<u16>,
    pub model_hint: Option<Seq<char>>,
    pub packets: u32,
    pub last_seen: Moment,
}

impl View for NearbyBle {
    type V = NearbyView;

    open spec fn view(&self) -> NearbyView {
        NearbyView {
            address: self.address,
            name: optional_text(self.name),
            rssi: self.rssi,
            mfr_company: self.mfr_company,
            model_hint: optional_text(self.model_hint),
            packets: self.packets,
            last_seen: self.last_seen,
        }
    }
}

/// What one advertisement tells.
pub struct Sighting {
    pub address: u64,
    pub rssi: i16,
    pub name: Option<Seq<char>>,
    pub mfr_company: Option<u16>,
    pub model_hint: Option<Seq<char>>,
}

/// What is known first if anything is: what was known stays, what was not is filled in.
pub open spec fn known_or<T>(known: Option<T>, told: Option<T>) -> Option<T> {
    if known is Some {
        known
    } else {
        told
    }
}

/// A device nearby after an advertisement: the signal strength is the latest, the advertisements
/// are counted up to the largest count, and name, company and model are those first told.
pub open spec fn after_sighting(
    prior: Option<NearbyView>,
    s: Sighting,
    now: Moment,
) -> NearbyView {
    match prior {
        Some(n) => NearbyView {
            address: n.address,
            name: known_or(n.name, s.name),
            rssi: s.rssi,
            mfr_company: known_or(n.mfr_company, s.mfr_company),
            model_hint: known_or(n.model_hint, s.model_hint),
            packets: if n.packets < u32::MAX {
                (n.packets + 1) as u32
            } else {
                u32::MAX
            },
            last_seen: now,
        },
        None => NearbyView {
            address: s.address,
            name: s.name,
            rssi: s.rssi,
            mfr_company: s.mfr_company,
            model_hint: s.model_hint,
            packets: 1,
            last_seen: now,
        },
    }
}

/// Whether a device that was last heard of at `last_seen` is kept: that is less than the lifetime
/// ago. In the first minute of the clock every device is kept.
pub open spec fn still_near(last_seen: Moment, now: Moment) -> bool {
    last_seen.nanos + NEARBY_LIFETIME > now.nanos
}

/// The devices that are kept.
pub open spec fn unexpired(m: Map<u64, NearbyView>, now: Moment) -> Map<u64, NearbyView> {
    Map::new(|a: u64| m.contains_key(a) && still_near(m[a].last_seen, now), |a: u64| m[a])
}

/// The devices nearby.
pub struct NearbyTable {
    seen: HashMap<u64, NearbyBle>,
}

impl View for NearbyTable {
    type V = Map<u64, NearbyView>;

    closed spec fn view(&self) -> Map<u64, NearbyView> {
        self.seen@.map_values(|n: NearbyBle| n@)
    }
}

impl NearbyTable {
    /// Each device is found by its own address and was heard of at least once.
    pub open spec fn wf(self) -> bool {
        forall|a: u64| #[trigger]
            self@.contains_key(a) ==> self@[a].address == a && self@[a].packets >= 1
    }

    /// A table without devices.
    pub fn new() -> (t: NearbyTable)
        ensures
            t.wf(),
            t@ == Map::<u64, NearbyView>::empty(),
    {
        let t = NearbyTable { seen: HashMap::new() };
        assert(t@ =~= Map::<u64, NearbyView>::empty());
        t
    }

    /// How many devices there are.
    pub fn len(&self) -> (n: usize)
        ensures
            n == self@.len(),
    {
        assert(self@.dom() =~= self.seen@.dom());
        self.seen.len()
    }

    /// Takes out every device.
    pub fn clear(&mut self)
        ensures
            final(self).wf(),
            final(self)@ == Map::<u64, NearbyView>::empty(),
    {
        self.seen.clear();
        assert(self@ =~= Map::<u64, NearbyView>::empty());
    }

    /// Takes in an advertisement.
    pub fn record(
        &mut self,
        address: u64,
        rssi: i16,
        name: Option<String>,
        mfr_company: Option<u16>,
        model_hint: Option<String>,
        now: Moment,
    )
        requires
            old(self).wf(),
        ensures
            final(self).wf(),
            final(self)@ == old(self)@.insert(
                address,
                after_sighting(
                    if old(self)@.contains_key(address) {
                        Some(old(self)@[address])
                    } else {
                        None
                    },
                    Sighting {
                        address,
                        rssi,
                        name: optional_text(name),
                        mfr_company,
                        model_hint: optional_text(model_hint),
                    },
                    now,
                ),
            ),
    {
        let ghost before = self@;
        let e = self.seen.entry(address).or_insert(
            NearbyBle {
                address,
                name: None,
                rssi,
                mfr_company,
                model_hint: None,
                packets: 0,
                last_seen: now,
            },
        );
        e.rssi = rssi;
        e.packets = e.packets.saturating_add(1);
        e.last_seen = now;
        if e.name.is_none() && name.is_some() {
            e.name = name;
        }
        if e.mfr_company.is_none() && mfr_company.is_some() {
            e.mfr_company = mfr_company;
        }
        if e.model_hint.is_none() && model_hint.is_some() {
            e.model_hint = model_hint;
        }
        assert(self@ =~= before.insert(address, self@[address]));
    }

    /// The addresses of all devices, in no particular order.
    pub fn addresses(&self) -> (v: Vec<u64>)
        ensures
            v@.no_duplicates(),
            v@.to_set() == self@.dom(),
    {
        let mut v: Vec<u64> = Vec::new();
        for a in it: self.seen.keys()
            invariant
                it.seq().unref().to_set() == self.seen@.dom(),
                it.seq().no_duplicates(),
                v@ == it.seq().unref().take(it.index()),
                it.index() == it.seq().len() ==> v@ == it.seq().unref(),
        {
            v.push(*a);
            assert(v@ =~= it.seq().unref().take(it.index() + 1));
        }
        assert(self@.dom() =~= self.seen@.dom());
        v
    }

    /// Drops the devices that were not heard of for the lifetime or longer.
    pub fn expire(&mut self, now: Moment)
        requires
            old(self).wf(),
        ensures
            final(self).wf(),
            final(self)@ == unexpired(old(self)@, now),
    {
        let ghost before = self@;
        if let Some(cutoff) = now.checked_sub(NEARBY_LIFETIME) {
            let all = self.addresses();
            let mut i: usize = 0;
            while i < all.len()
                invariant
                    i <= all.len(),
                    all@.no_duplicates(),
                    all@.to_set() == before.dom(),
                    cutoff.nanos + NEARBY_LIFETIME == now.nanos,
                    forall|a: u64|
                        #![trigger self@.contains_key(a)]
                        #![trigger before.contains_key(a)]
                        self@.contains_key(a) == (before.contains_key(a) && (all@.take(
                            i as int,
                        ).contains(a) ==> still_near(before[a].last_seen, now))),
                    forall|a: u64| #[trigger] self@.contains_key(a) ==> self@[a] == before[a],
                decreases all.len() - i,
            {
                let a: u64 = all[i];
                let ghost here = self@;
                assert(all@.to_set().contains(a));
                assert(!all@.take(i as int).contains(a));
                assert(all@.take(i + 1) == all@.take(i as int).push(a));
                assert forall|b: u64| all@.take(i + 1).contains(b) == (all@.take(i as int).contains(b)
                    || b == a) by {
                    if all@.take(i as int).contains(b) {
                        let k = all@.take(i as int).index_of(b);
                        assert(all@.take(i + 1)[k] == b);
                    }
                    if b == a {
                        assert(all@.take(i + 1)[i as int] == b);
                    }
                }
                let mut gone = false;
                if let Some(n) = self.seen.get(&a) {
                    gone = n.last_seen.nanos <= cutoff.nanos;
                    assert(self@[a] == n@);
                }
                assert(here.contains_key(a));
                if gone {
                    self.seen.remove(&a);
                    assert(self@ =~= here.remove(a));
                }
                i += 1;
            }
            assert(all@.take(i as int) == all@);
            assert forall|a: u64| before.contains_key(a) implies all@.contains(a) by {
                assert(all@.to_set().contains(a));
            }
        }
        assert(self@ =~= unexpired(before, now));
    }
}

/// What devices nearby are ordered by: those with a name or a model stand first, and each group
/// follows by falling signal strength.
#[derive(Copy, Clone)]
pub struct NearbyRank {
    pub known: bool,
    pub rssi: i16,
}

impl Ranked for NearbyRank {
    open spec fn not_after(&self, other: &Self) -> bool {
        if self.known != other.known {
            self.known
        } else {
            self.rssi >= other.rssi
        }
    }

    proof fn total(a: &Self, b: &Self) {
    }

    proof fn transitive(a: &Self, b: &Self, c: &Self) {
    }

    fn may_precede(&self, other: &Self) -> bool {
        if self.known != other.known {
            self.known
        } else {
            self.rssi >= other.rssi
        }
    }
}

impl NearbyView {
    /// What this device is ordered by.
    pub open spec fn rank(self) -> NearbyRank {
        NearbyRank { known: self.name is Some || self.model_hint is Some, rssi: self.rssi }
    }
}

/// How strongly the identification of a device stands out.
#[derive(Copy, Clone, Debug, PartialEq, Eq, Structural)]
pub enum Emphasis {
    /// A model that was recognised.
    Model,
    /// A name that the device gives itself.
    Name,
    /// Anything less.
    Weak,
}

/// A row of the list of devices nearby.
pub struct NearbyRow {
    pub address: u64,
    pub rssi: i32,
    pub rssi_text: String,
    pub packets_text: String,
    pub address_text: String,
    pub label: String,
    pub emphasis: Emphasis,
}

/// A row of the list of devices nearby, as values.
pub struct NearbyRowView {
    pub address: u64,
    pub rssi: i32,
    pub rssi_text: Seq<char>,
    pub packets_text: Seq<char>,
    pub address_text: Seq<char>,
    pub label: Seq<char>,
    pub emphasis: Emphasis,
}

impl View for NearbyRow {
    type V = NearbyRowView;

    open spec fn view(&self) -> NearbyRowView {
        NearbyRowView {
            address: self.address,
            rssi: self.rssi,
            rssi_text: self.rssi_text@,
            packets_text: self.packets_text@,
            address_text: self.address_text@,
            label: self.label@,
            emphasis: self.emphasis,
        }
    }
}

/// Rows as values.
pub open spec fn nearby_row_views(rows: Seq<NearbyRow>) -> Seq<NearbyRowView> {
    rows.map_values(|r: NearbyRow| r@)
}

/// What a device is identified by, and how strongly that stands out: the model, else the name,
/// else the company of its manufacturer.
pub open spec fn identification(n: NearbyView) -> (Seq<char>, Emphasis) {
    if n.model_hint is Some {
        (n.model_hint->0, Emphasis::Model)
    } else if n.name is Some {
        (n.name->0, Emphasis::Name)
    } else if n.mfr_company is Some {
        (
            "Company 0x"@ + hex_byte(n.mfr_company->0 as int / 0x100) + hex_byte(
                n.mfr_company->0 as int % 0x100,
            ),
            Emphasis::Weak,
        )
    } else {
        ("(unnamed)"@, Emphasis::Weak)
    }
}

/// How a device nearby is shown.
pub open spec fn nearby_row(n: NearbyView) -> NearbyRowView {
    NearbyRowView {
        address: n.address,
        rssi: n.rssi as i32,
        rssi_text: signed_decimal(n.rssi as int) + " dBm"@,
        packets_text: decimal(n.packets as nat),
        address_text: address_text(n.address),
        label: identification(n).0,
        emphasis: identification(n).1,
    }
}

/// Whether `rows` is the list of devices nearby: each device has one row, and the rows are in
/// order.
pub open spec fn is_nearby_list(nearby: Map<u64, NearbyView>, rows: Seq<NearbyRowView>) -> bool {
    &&& forall|i: int|
        0 <= i < rows.len() ==> nearby.contains_key((#[trigger] rows[i]).address) && rows[i]
            == nearby_row(nearby[rows[i].address])
    &&& forall|i: int, j: int|
        0 <= i < j < rows.len() ==> (#[trigger] rows[i]).address != (#[trigger] rows[j]).address
    &&& forall|a: u64| #[trigger]
        nearby.contains_key(a) ==> exists|i: int|
            0 <= i < rows.len() && (#[trigger] rows[i]).address == a
    &&& forall|i: int, j: int|
        0 <= i < j < rows.len() ==> nearby[(#[trigger] rows[i]).address].rank().not_after(
            &nearby[(#[trigger] rows[j]).address].rank(),
        )
}

impl NearbyBle {
    /// Shows this device as a row.
    fn row(&self) -> (r: NearbyRow)
        ensures
            r@ == nearby_row(self@),
    {
        let mut rssi_text = signed_decimal_text(self.rssi as i32);
        rssi_text.append(" dBm");
        let (label, emphasis) = if let Some(m) = &self.model_hint {
            (m.clone(), Emphasis::Model)
        } else if let Some(n) = &self.name {
            (n.clone(), Emphasis::Name)
        } else if let Some(id) = self.mfr_company {
            let mut s = "Company 0x".to_owned();
            push_hex_byte(&mut s, (id / 0x100) as u8);
            push_hex_byte(&mut s, (id % 0x100) as u8);
            (s, Emphasis::Weak)
        } else {
            ("(unnamed)".to_owned(), Emphasis::Weak)
        };
        NearbyRow {
            address: self.address,
            rssi: self.rssi as i32,
            rssi_text,
            packets_text: decimal_text(self.packets as u64),
            address_text: fmt_bt_addr(self.address),
            label,
            emphasis,
        }
    }
}

impl NearbyTable {
    /// The list of devices nearby. Where devices are level, their sequence is open.
    pub fn rows(&self) -> (rows: Vec<NearbyRow>)
        requires
            self.wf(),
        ensures
            is_nearby_list(self@, nearby_row_views(rows@)),
    {
        let all = self.addresses();
        assert forall|k: int| 0 <= k < all@.len() implies self@.contains_key(#[trigger] all@[k]) by {
            assert(all@.to_set().contains(all@[k]));
        }
        let mut ranks: Vec<NearbyRank> = Vec::new();
        let mut i: usize = 0;
        while i < all.len()
            invariant
                i <= all@.len(),
                ranks@.len() == i,
                forall|k: int| 0 <= k < all@.len() ==> self@.contains_key(#[trigger] all@[k]),
                forall|k: int| 0 <= k < i ==> #[trigger] ranks@[k] == self@[all@[k]].rank(),
            decreases all@.len() - i,
        {
            let a: u64 = all[i];
            assert(self@.contains_key(a));
            if let Some(n) = self.seen.get(&a) {
                assert(self@[a] == n@);
                ranks.push(
                    NearbyRank {
                        known: n.name.is_some() || n.model_hint.is_some(),
                        rssi: n.rssi,
                    },
                );
            }
            i += 1;
        }
        let order = stable_order(&ranks);
        let mut rows: Vec<NearbyRow> = Vec::new();
        let mut m: usize = 0;
        while m < order.len()
            invariant
                m <= order@.len(),
                lists_each_once(order@, all@.len()),
                forall|k: int| 0 <= k < all@.len() ==> self@.contains_key(#[trigger] all@[k]),
                rows@.len() == m,
                forall|k: int|
                    0 <= k < m ==> (#[trigger] rows@[k])@ == nearby_row(
                        self@[all@[order@[k] as int]],
                    ),
            decreases order@.len() - m,
        {
            let a: u64 = all[order[m]];
            assert(self@.contains_key(a));
            if let Some(n) = self.seen.get(&a) {
                assert(self@[a] == n@);
                rows.push(n.row());
            }
            m += 1;
        }
        proof {
            let views = nearby_row_views(rows@);
            assert forall|k: int| 0 <= k < views.len() implies {
                let a = all@[order@[k] as int];
                &&& self@.contains_key(a)
                &&& (#[trigger] views[k]).address == a
                &&& views[k] == nearby_row(self@[a])
            } by {
                assert(views[k] == rows@[k]@);
                assert(self@.contains_key(all@[order@[k] as int]));
            }
            assert forall|k: int, l: int| 0 <= k < l < views.len() implies (#[trigger] views[k]).address
                != (#[trigger] views[l]).address && self@[views[k].address].rank().not_after(
                &self@[views[l].address].rank(),
            ) by {
                assert(order@[k] != order@[l]);
                assert(ranks@[order@[k] as int].not_after(&ranks@[order@[l] as int]));
            }
            assert forall|a: u64| #[trigger] self@.contains_key(a) implies exists|k: int|
                0 <= k < views.len() && (#[trigger] views[k]).address == a by {
                assert(self@.dom().contains(a));
                assert(all@.to_set().contains(a));
                let p = all@.index_of(a);
                assert(order@.contains(p as usize));
                let k = order@.index_of(p as usize);
                assert(views[k].address == a);
            }
        }
        rows
    }
}

} // verus!
