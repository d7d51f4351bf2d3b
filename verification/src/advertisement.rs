//! Low-energy advertisements and the SwitchBot models that they give away.

use vstd::prelude::*;
use vstd::string::*;

use crate::bt::{optional_text, Event, EventView};
use crate::nearby::known_or;

verus! {

/// Type of a data section that holds service data under a 16-bit identifier.
pub const AD_TYPE_SERVICE_DATA_16: u8 = 0x16;

/// Service identifier of the older SwitchBot generation.
pub const SWITCHBOT_UUID_OLDGEN: u16 = 0xFD3D;

/// Service identifier of the newer SwitchBot generation.
pub const SWITCHBOT_UUID_NEWGEN: u16 = 0xFCD2;

/// The signal strength that stands for "out of range".
pub const OUT_OF_RANGE: i16 = -127;

/// Advertisements of one device are taken in at most this often, in milliseconds.
pub const SAMPLING_INTERVAL_MS: i64 = 500;

/// Ticks of 100 nanoseconds in a millisecond.
pub const TICKS_PER_MS: i64 = 10_000;

/// Counts milliseconds in ticks of 100 nanoseconds.
pub fn timespan_ticks(ms: i64) -> (ticks: i64)
    requires
        i64::MIN <= ms * TICKS_PER_MS <= i64::MAX,
    ensures
        ticks == ms * TICKS_PER_MS,
{
    ms * TICKS_PER_MS
}

/// The model that the older generation announces with one letter.
pub open spec fn letter_model(letter: u8) -> Option<Seq<char>> {
    match letter as char {
        'H' => Some("SwitchBot Bot"@),
        'T' => Some("SwitchBot Meter"@),
        'i' => Some("SwitchBot Meter Plus"@),
        'w' | 'W' => Some("SwitchBot Meter Pro"@),
        'c' | 'C' => Some("SwitchBot Curtain"@),
        '{' => Some("SwitchBot Curtain 3"@),
        'd' | 'D' => Some("SwitchBot Contact"@),
        's' | 'S' => Some("SwitchBot Motion"@),
        'r' | 'R' => Some("SwitchBot Light Strip"@),
        'j' | 'J' => Some("SwitchBot Plug Mini (JP)"@),
        'g' | 'G' => Some("SwitchBot Plug Mini"@),
        'u' | 'U' => Some("SwitchBot Color Bulb"@),
        'e' | 'E' => Some("SwitchBot Humidifier"@),
        'y' | 'Y' => Some("SwitchBot Keypad"@),
        'v' | 'V' => Some("SwitchBot Hub 2"@),
        'o' | 'O' => Some("SwitchBot Lock"@),
        'l' | 'L' => Some("SwitchBot Blind Tilt"@),
        _ => None,
    }
}

/// Tells the model of the older generation from its letter.
pub fn switchbot_ascii(masked: u8) -> (r: Option<&'static str>)
    ensures
        match r {
            Some(s) => letter_model(masked) == Some(s@),
            None => letter_model(masked) is None,
        },
{
    match masked as char {
        'H' => Some("SwitchBot Bot"),
        'T' => Some("SwitchBot Meter"),
        'i' => Some("SwitchBot Meter Plus"),
        'w' | 'W' => Some("SwitchBot Meter Pro"),
        'c' | 'C' => Some("SwitchBot Curtain"),
        '{' => Some("SwitchBot Curtain 3"),
        'd' | 'D' => Some("SwitchBot Contact"),
        's' | 'S' => Some("SwitchBot Motion"),
        'r' | 'R' => Some("SwitchBot Light Strip"),
        'j' | 'J' => Some("SwitchBot Plug Mini (JP)"),
        'g' | 'G' => Some("SwitchBot Plug Mini"),
        'u' | 'U' => Some("SwitchBot Color Bulb"),
        'e' | 'E' => Some("SwitchBot Humidifier"),
        'y' | 'Y' => Some("SwitchBot Keypad"),
        'v' | 'V' => Some("SwitchBot Hub 2"),
        'o' | 'O' => Some("SwitchBot Lock"),
        'l' | 'L' => Some("SwitchBot Blind Tilt"),
        _ => None,
    }
}

/// The model that the newer generation announces with four bytes.
pub open spec fn code_model(code: Seq<u8>) -> Option<Seq<char>> {
    if code[0] > 1 {
        None
    } else if code.skip(1) == seq![0x10u8, 0xB9u8, 0x40u8] {
        Some("SwitchBot Hub 3"@)
    } else if code.skip(1) == seq![0x10u8, 0xA5u8, 0xB8u8] {
        Some("SwitchBot Lock Ultra"@)
    } else if code.skip(1) == seq![0x11u8, 0x03u8, 0x78u8] {
        Some("SwitchBot Keypad Vision"@)
    } else if code.skip(1) == seq![0x11u8, 0x51u8, 0x98u8] {
        Some("SwitchBot Keypad Vision Pro"@)
    } else {
        None
    }
}

/// Tells the model of the newer generation from its four bytes.
pub fn switchbot_code(b0: u8, b1: u8, b2: u8, b3: u8) -> (r: Option<&'static str>)
    ensures
        match r {
            Some(s) => code_model(seq![b0, b1, b2, b3]) == Some(s@),
            None => code_model(seq![b0, b1, b2, b3]) is None,
        },
{
    let ghost tail = seq![b0, b1, b2, b3].skip(1);
    assert(tail[0] == b1 && tail[1] == b2 && tail[2] == b3);
    if b0 > 1 {
        None
    } else if b1 == 0x10 && b2 == 0xB9 && b3 == 0x40 {
        assert(tail =~= seq![0x10u8, 0xB9u8, 0x40u8]);
        Some("SwitchBot Hub 3")
    } else if b1 == 0x10 && b2 == 0xA5 && b3 == 0xB8 {
        assert(tail =~= seq![0x10u8, 0xA5u8, 0xB8u8]);
        Some("SwitchBot Lock Ultra")
    } else if b1 == 0x11 && b2 == 0x03 && b3 == 0x78 {
        assert(tail =~= seq![0x11u8, 0x03u8, 0x78u8]);
        Some("SwitchBot Keypad Vision")
    } else if b1 == 0x11 && b2 == 0x51 && b3 == 0x98 {
        assert(tail =~= seq![0x11u8, 0x51u8, 0x98u8]);
        Some("SwitchBot Keypad Vision Pro")
    } else {
        None
    }
}

/// A data section of an advertisement. What could not be read is missing.
pub struct DataSection {
    pub data_type: Option<u8>,
    pub data: Option<Vec<u8>>,
}

/// A data section as values.
pub struct DataSectionView {
    pub data_type: Option<u8>,
    pub data: Option<Seq<u8>>,
}

impl View for DataSection {
    type V = DataSectionView;

    open spec fn view(&self) -> DataSectionView {
        DataSectionView {
            data_type: self.data_type,
            data: match self.data {
                Some(d) => Some(d@),
                None => None,
            },
        }
    }
}

impl DataSectionView {
    /// Whether this section holds SwitchBot service data, with at least one byte behind the
    /// service identifier.
    pub open spec fn is_switchbot(self) -> bool {
        &&& self.data_type == Some(AD_TYPE_SERVICE_DATA_16)
        &&& self.data matches Some(d)
        &&& d.len() >= 3
        &&& (d[0] + 0x100 * d[1] == SWITCHBOT_UUID_OLDGEN || d[0] + 0x100 * d[1]
            == SWITCHBOT_UUID_NEWGEN)
    }

    /// The bytes behind the service identifier.
    pub open spec fn payload(self) -> Seq<u8> {
        self.data->0.skip(2)
    }

    /// The model that the first byte gives away, of which the highest bit does not count.
    pub open spec fn by_letter(self) -> Option<Seq<char>> {
        if self.is_switchbot() {
            letter_model((self.payload()[0] % 0x80) as u8)
        } else {
            None
        }
    }

    /// The model that the four bytes from the fourth on give away.
    pub open spec fn by_code(self) -> Option<Seq<char>> {
        if self.is_switchbot() && self.payload().len() >= 7 {
            code_model(self.payload().subrange(3, 7))
        } else {
            None
        }
    }
}

/// The first model that a letter gives away.
pub open spec fn first_by_letter(sections: Seq<DataSectionView>) -> Option<Seq<char>>
    decreases sections.len(),
{
    if sections.len() == 0 {
        None
    } else {
        known_or(first_by_letter(sections.drop_last()), sections.last().by_letter())
    }
}

/// The last model that four bytes give away.
pub open spec fn last_by_code(sections: Seq<DataSectionView>) -> Option<Seq<char>>
    decreases sections.len(),
{
    if sections.len() == 0 {
        None
    } else {
        known_or(sections.last().by_code(), last_by_code(sections.drop_last()))
    }
}

/// The model that an advertisement gives away: the first by letter, or else the last by code.
pub open spec fn switchbot_model(sections: Seq<DataSectionView>) -> Option<Seq<char>> {
    known_or(first_by_letter(sections), last_by_code(sections))
}

proof fn lemma_first_by_letter_extends(sections: Seq<DataSectionView>, n: int)
    requires
        0 <= n <= sections.len(),
        first_by_letter(sections.take(n)) is Some,
    ensures
        first_by_letter(sections) == first_by_letter(sections.take(n)),
    decreases sections.len(),
{
    if n < sections.len() {
        assert(sections.drop_last().take(n) =~= sections.take(n));
        lemma_first_by_letter_extends(sections.drop_last(), n);
    } else {
        assert(sections.take(n) =~= sections);
    }
}

/// Data sections as values.
pub open spec fn section_views(sections: Seq<DataSection>) -> Seq<DataSectionView> {
    sections.map_values(|s: DataSection| s@)
}

/// The outcomes of looking into one data section.
enum Look {
    Nothing,
    Letter(&'static str),
    Code(&'static str),
}

/// Looks into one data section for a SwitchBot model.
fn look_into(section: &DataSection) -> (r: Look)
    ensures
        match r {
            Look::Letter(s) => section@.by_letter() == Some(s@),
            Look::Code(s) => section@.by_letter() is None && section@.by_code() == Some(s@),
            Look::Nothing => section@.by_letter() is None && section@.by_code() is None,
        },
{
    let data_type: u8 = match section.data_type {
        Some(t) => t,
        None => 0,
    };
    if data_type != AD_TYPE_SERVICE_DATA_16 {
        return Look::Nothing;
    }
    match &section.data {
        None => Look::Nothing,
        Some(bytes) => {
            if bytes.len() < 3 {
                return Look::Nothing;
            }
            let uuid: u16 = bytes[0] as u16 + 0x100 * bytes[1] as u16;
            if uuid != SWITCHBOT_UUID_OLDGEN && uuid != SWITCHBOT_UUID_NEWGEN {
                return Look::Nothing;
            }
            let ghost payload = section@.payload();
            let b0: u8 = bytes[2];
            assert(b0 & 0x7F == b0 % 0x80) by (bit_vector);
            if let Some(model) = switchbot_ascii(b0 & 0x7F) {
                return Look::Letter(model);
            }
            if bytes.len() >= 9 {
                assert(payload.subrange(3, 7) =~= seq![bytes@[5], bytes@[6], bytes@[7], bytes@[8]]);
                if let Some(model) = switchbot_code(bytes[5], bytes[6], bytes[7], bytes[8]) {
                    return Look::Code(model);
                }
            }
            Look::Nothing
        },
    }
}

/// Tells which SwitchBot model an advertisement comes from.
pub fn identify_switchbot(sections: &Vec<DataSection>) -> (r: Option<String>)
    ensures
        optional_text(r) == switchbot_model(section_views(sections@)),
{
    let ghost views = section_views(sections@);
    let mut hint: Option<&'static str> = None;
    let mut i: usize = 0;
    while i < sections.len()
        invariant
            views == section_views(sections@),
            i <= sections@.len(),
            first_by_letter(views.take(i as int)) is None,
            match hint {
                Some(s) => last_by_code(views.take(i as int)) == Some(s@),
                None => last_by_code(views.take(i as int)) is None,
            },
        decreases sections@.len() - i,
    {
        assert(views.take(i + 1).drop_last() =~= views.take(i as int));
        assert(views.take(i + 1).last() == sections@[i as int]@);
        match look_into(&sections[i]) {
            Look::Letter(model) => {
                proof {
                    lemma_first_by_letter_extends(views, i + 1);
                }
                return Some(model.to_owned());
            },
            Look::Code(model) => {
                hint = Some(model);
            },
            Look::Nothing => {},
        }
        i += 1;
    }
    assert(views.take(i as int) =~= views);
    match hint {
        Some(s) => Some(s.to_owned()),
        None => None,
    }
}

/// What an advertisement carries.
pub struct Advertisement {
    /// The local name; it may be missing or empty.
    pub local_name: Option<String>,
    /// The company of each manufacturer entry, where it could be read.
    pub companies: Vec<Option<u16>>,
    pub sections: Vec<DataSection>,
}

/// A received advertisement. What could not be read is missing.
pub struct Received {
    pub address: Option<u64>,
    pub rssi: Option<i16>,
    pub advertisement: Option<Advertisement>,
}

/// The local name, unless it is empty.
pub open spec fn shown_name(name: Option<String>) -> Option<Seq<char>> {
    match name {
        Some(s) => if s@.len() == 0 {
            None
        } else {
            Some(s@)
        },
        None => None,
    }
}

/// The company of the first manufacturer entry.
pub open spec fn first_company(companies: Seq<Option<u16>>) -> Option<u16> {
    if companies.len() == 0 {
        None
    } else {
        companies[0]
    }
}

/// What a received advertisement tells: nothing if it is out of range.
pub open spec fn sighting(r: Received) -> Option<EventView> {
    let rssi = match r.rssi {
        Some(v) => v,
        None => 0,
    };
    if rssi == OUT_OF_RANGE {
        None
    } else {
        Some(
            EventView::NearbyBleSeen {
                address: match r.address {
                    Some(a) => a,
                    None => 0,
                },
                rssi,
                name: match r.advertisement {
                    Some(ad) => shown_name(ad.local_name),
                    None => None,
                },
                mfr_company: match r.advertisement {
                    Some(ad) => first_company(ad.companies@),
                    None => None,
                },
                model_hint: match r.advertisement {
                    Some(ad) => switchbot_model(section_views(ad.sections@)),
                    None => None,
                },
            },
        )
    }
}

/// Turns a received advertisement into an event.
pub fn advertisement_event(received: Received) -> (r: Option<Event>)
    ensures
        match r {
            Some(e) => sighting(received) == Some(e@),
            None => sighting(received) is None,
        },
{
    let address: u64 = match received.address {
        Some(a) => a,
        None => 0,
    };
    let rssi: i16 = match received.rssi {
        Some(v) => v,
        None => 0,
    };
    if rssi == OUT_OF_RANGE {
        return None;
    }
    let mut name: Option<String> = None;
    let mut mfr_company: Option<u16> = None;
    let mut model_hint: Option<String> = None;
    if let Some(ad) = received.advertisement {
        if let Some(s) = ad.local_name {
            if !s.as_str().is_empty() {
                name = Some(s);
            }
        }
        if ad.companies.len() > 0 {
            mfr_company = ad.companies[0];
        }
        model_hint = identify_switchbot(&ad.sections);
    }
    Some(Event::NearbyBleSeen { address, rssi, name, mfr_company, model_hint })
}

/// The letter alone decides: the highest bit of its byte changes nothing.
pub proof fn lemma_letter_ignores_high_bit(a: DataSectionView, b: DataSectionView)
    requires
        a.is_switchbot(),
        b.is_switchbot(),
        a.payload()[0] % 0x80 == b.payload()[0] % 0x80,
    ensures
        a.by_letter() == b.by_letter(),
{
}

/// A model of the newer generation is announced by two codes, which differ in the first byte.
pub proof fn lemma_code_first_byte(a: Seq<u8>, b: Seq<u8>)
    requires
        a.len() == 4,
        b.len() == 4,
        a[0] <= 1,
        b[0] <= 1,
        a.skip(1) == b.skip(1),
    ensures
        code_model(a) == code_model(b),
{
}

/// No event comes of an advertisement that is out of range, and every other one makes an event
/// with its own signal strength.
pub proof fn lemma_out_of_range_is_dropped(r: Received)
    ensures
        sighting(r) is None <==> r.rssi == Some(OUT_OF_RANGE),
        sighting(r) matches Some(e) ==> e is NearbyBleSeen && e->NearbyBleSeen_rssi != OUT_OF_RANGE,
{
}

/// Sections that hold no SwitchBot service data do not matter, wherever they stand.
pub proof fn lemma_other_sections_ignored(
    front: Seq<DataSectionView>,
    other: DataSectionView,
    back: Seq<DataSectionView>,
)
    requires
        !other.is_switchbot(),
    ensures
        switchbot_model(front.push(other) + back) == switchbot_model(front + back),
{
    lemma_other_section_ignored_parts(front, other, back);
}

proof fn lemma_other_section_ignored_parts(
    front: Seq<DataSectionView>,
    other: DataSectionView,
    back: Seq<DataSectionView>,
)
    requires
        !other.is_switchbot(),
    ensures
        first_by_letter(front.push(other) + back) == first_by_letter(front + back),
        last_by_code(front.push(other) + back) == last_by_code(front + back),
    decreases back.len(),
{
    if back.len() == 0 {
        assert(front.push(other) + back =~= front.push(other));
        assert(front.push(other).drop_last() =~= front);
        assert(front + back =~= front);
    } else {
        let shorter = back.drop_last();
        lemma_other_section_ignored_parts(front, other, shorter);
        assert((front.push(other) + back).drop_last() =~= front.push(other) + shorter);
        assert((front + back).drop_last() =~= front + shorter);
    }
}

} // verus!
