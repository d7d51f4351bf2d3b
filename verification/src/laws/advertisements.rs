//! What holds of advertisements and of the models that they give away, byte by byte.

use vstd::prelude::*;

use crate::advertisement::{
    advertisement_event, first_by_letter, identify_switchbot, last_by_code, letter_model,
    section_views, switchbot_ascii, switchbot_code, timespan_ticks, DataSection, Received,
};
use crate::bt::Event;

verus! {

/// Whether a model is told, and told by this name.
pub open spec fn is_called(model: Option<&'static str>, name: Seq<char>) -> bool {
    model is Some && model->0@ == name
}

/// The letters name the models of the older generation. Most come in both cases.
pub proof fn lemma_letters_name_models(b: u8, r: Option<&'static str>)
    requires
        call_ensures(switchbot_ascii, (b,), r),
    ensures
        b == 72 ==> is_called(r, "SwitchBot Bot"@),
        b == 84 ==> is_called(r, "SwitchBot Meter"@),
        b == 105 ==> is_called(r, "SwitchBot Meter Plus"@),
        b == 123 ==> is_called(r, "SwitchBot Curtain 3"@),
        b == 119 || b == 87 ==> is_called(r, "SwitchBot Meter Pro"@),
        b == 99 || b == 67 ==> is_called(r, "SwitchBot Curtain"@),
        b == 100 || b == 68 ==> is_called(r, "SwitchBot Contact"@),
        b == 115 || b == 83 ==> is_called(r, "SwitchBot Motion"@),
        b == 114 || b == 82 ==> is_called(r, "SwitchBot Light Strip"@),
        b == 106 || b == 74 ==> is_called(r, "SwitchBot Plug Mini (JP)"@),
        b == 103 || b == 71 ==> is_called(r, "SwitchBot Plug Mini"@),
        b == 117 || b == 85 ==> is_called(r, "SwitchBot Color Bulb"@),
        b == 101 || b == 69 ==> is_called(r, "SwitchBot Humidifier"@),
        b == 121 || b == 89 ==> is_called(r, "SwitchBot Keypad"@),
        b == 118 || b == 86 ==> is_called(r, "SwitchBot Hub 2"@),
        b == 111 || b == 79 ==> is_called(r, "SwitchBot Lock"@),
        b == 108 || b == 76 ==> is_called(r, "SwitchBot Blind Tilt"@),
        r is Some <==> is_letter(b),
{
}

/// The letters that name a model.
pub open spec fn is_letter(b: u8) -> bool {
    ||| b == 72 || b == 84 || b == 105 || b == 123
    ||| b == 119 || b == 87 || b == 99 || b == 67 || b == 100 || b == 68 || b == 115 || b == 83
    ||| b == 114 || b == 82 || b == 106 || b == 74 || b == 103 || b == 71 || b == 117 || b == 85
    ||| b == 101 || b == 69 || b == 121 || b == 89 || b == 118 || b == 86 || b == 111 || b == 79
    ||| b == 108 || b == 76
}

/// The name that four bytes of the newer generation stand for.
pub open spec fn code_name(b0: u8, b1: u8, b2: u8, b3: u8) -> Option<Seq<char>> {
    if b0 != 0 && b0 != 1 {
        None
    } else if (b1, b2, b3) == (0x10u8, 0xB9u8, 0x40u8) {
        Some("SwitchBot Hub 3"@)
    } else if (b1, b2, b3) == (0x10u8, 0xA5u8, 0xB8u8) {
        Some("SwitchBot Lock Ultra"@)
    } else if (b1, b2, b3) == (0x11u8, 0x03u8, 0x78u8) {
        Some("SwitchBot Keypad Vision"@)
    } else if (b1, b2, b3) == (0x11u8, 0x51u8, 0x98u8) {
        Some("SwitchBot Keypad Vision Pro"@)
    } else {
        None
    }
}

proof fn lemma_code_model(code: Seq<u8>)
    requires
        code.len() == 4,
    ensures
        crate::advertisement::code_model(code) == code_name(code[0], code[1], code[2], code[3]),
{
    let tail = code.skip(1);
    assert(tail[0] == code[1] && tail[1] == code[2] && tail[2] == code[3]);
    let hub = seq![0x10u8, 0xB9u8, 0x40u8];
    let lock = seq![0x10u8, 0xA5u8, 0xB8u8];
    let keypad = seq![0x11u8, 0x03u8, 0x78u8];
    let pro = seq![0x11u8, 0x51u8, 0x98u8];
    assert(tail =~= hub <==> (code[1], code[2], code[3]) == (0x10u8, 0xB9u8, 0x40u8)) by {
        assert(hub[0] == 0x10 && hub[1] == 0xB9 && hub[2] == 0x40);
    }
    assert(tail =~= lock <==> (code[1], code[2], code[3]) == (0x10u8, 0xA5u8, 0xB8u8)) by {
        assert(lock[0] == 0x10 && lock[1] == 0xA5 && lock[2] == 0xB8);
    }
    assert(tail =~= keypad <==> (code[1], code[2], code[3]) == (0x11u8, 0x03u8, 0x78u8)) by {
        assert(keypad[0] == 0x11 && keypad[1] == 0x03 && keypad[2] == 0x78);
    }
    assert(tail =~= pro <==> (code[1], code[2], code[3]) == (0x11u8, 0x51u8, 0x98u8)) by {
        assert(pro[0] == 0x11 && pro[1] == 0x51 && pro[2] == 0x98);
    }
}

/// Four bytes name the models of the newer generation.
pub proof fn lemma_codes_name_models(b0: u8, b1: u8, b2: u8, b3: u8, r: Option<&'static str>)
    requires
        call_ensures(switchbot_code, (b0, b1, b2, b3), r),
    ensures
        match r {
            Some(s) => code_name(b0, b1, b2, b3) == Some(s@),
            None => code_name(b0, b1, b2, b3) is None,
        },
{
    lemma_code_model(seq![b0, b1, b2, b3]);
}

/// Whether a section is service data of type 0x16 under the service 0xFD3D or 0xFCD2, with at
/// least one byte behind the two of the service.
pub open spec fn carries_service(s: DataSection) -> bool {
    &&& s.data_type == Some(0x16u8)
    &&& s.data is Some
    &&& s.data->0@.len() >= 3
    &&& (s.data->0@[0] == 0x3D && s.data->0@[1] == 0xFD) || (s.data->0@[0] == 0xD2
        && s.data->0@[1] == 0xFC)
}

/// The letter of a section: the byte behind the service, without its highest bit.
pub open spec fn letter_of(s: DataSection) -> u8 {
    let b = s.data->0@[2];
    if b >= 128 {
        (b - 128) as u8
    } else {
        b
    }
}

/// Whether a section gives a model away by its letter.
pub open spec fn has_letter(s: DataSection) -> bool {
    carries_service(s) && is_letter(letter_of(s))
}

/// The name that bytes 3 to 6 behind the service stand for. No other byte matters.
pub open spec fn named_by_code(s: DataSection) -> Option<Seq<char>> {
    if carries_service(s) && s.data->0@.len() >= 9 {
        code_name(s.data->0@[5], s.data->0@[6], s.data->0@[7], s.data->0@[8])
    } else {
        None
    }
}

proof fn lemma_section(s: DataSection)
    ensures
        s@.by_letter() is Some <==> has_letter(s),
        has_letter(s) ==> s@.by_letter() == letter_model(letter_of(s)),
        s@.by_code() == named_by_code(s),
{
    if carries_service(s) {
        let d = s.data->0@;
        assert(s@.is_switchbot());
        assert(s@.payload()[0] == d[2]);
        if d.len() >= 9 {
            let code = s@.payload().subrange(3, 7);
            assert(code[0] == d[5] && code[1] == d[6] && code[2] == d[7] && code[3] == d[8]);
            lemma_code_model(code);
        }
    } else {
        assert(!s@.is_switchbot());
    }
}

proof fn lemma_first_letter(sections: Seq<DataSection>, i: int)
    requires
        0 <= i < sections.len(),
        has_letter(sections[i]),
        forall|j: int| 0 <= j < i ==> !has_letter(#[trigger] sections[j]),
    ensures
        first_by_letter(section_views(sections)) == letter_model(letter_of(sections[i])),
    decreases sections.len(),
{
    let front = sections.drop_last();
    assert(section_views(sections).drop_last() =~= section_views(front));
    lemma_section(sections.last());
    lemma_section(sections[i]);
    if i < front.len() {
        assert forall|j: int| 0 <= j < i implies !has_letter(#[trigger] front[j]) by {
            assert(!has_letter(sections[j]));
        }
        lemma_first_letter(front, i);
    } else {
        assert forall|j: int| 0 <= j < front.len() implies !has_letter(#[trigger] front[j]) by {
            assert(!has_letter(sections[j]));
        }
        lemma_no_letter(front);
    }
}

proof fn lemma_no_letter(sections: Seq<DataSection>)
    requires
        forall|j: int| 0 <= j < sections.len() ==> !has_letter(#[trigger] sections[j]),
    ensures
        first_by_letter(section_views(sections)) is None,
    decreases sections.len(),
{
    if sections.len() > 0 {
        let front = sections.drop_last();
        assert(section_views(sections).drop_last() =~= section_views(front));
        assert forall|j: int| 0 <= j < front.len() implies !has_letter(#[trigger] front[j]) by {
            assert(!has_letter(sections[j]));
        }
        assert(!has_letter(sections[sections.len() - 1]));
        lemma_section(sections.last());
        lemma_no_letter(front);
    }
}

proof fn lemma_last_code(sections: Seq<DataSection>, i: int)
    requires
        -1 <= i < sections.len(),
        i >= 0 ==> named_by_code(sections[i]) is Some,
        forall|j: int| i < j < sections.len() ==> named_by_code(#[trigger] sections[j]) is None,
    ensures
        last_by_code(section_views(sections)) == if i >= 0 {
            named_by_code(sections[i])
        } else {
            None
        },
    decreases sections.len(),
{
    if sections.len() > 0 {
        let front = sections.drop_last();
        assert(section_views(sections).drop_last() =~= section_views(front));
        lemma_section(sections.last());
        if i < front.len() {
            assert forall|j: int| i < j < front.len() implies named_by_code(
                #[trigger] front[j],
            ) is None by {
                assert(named_by_code(sections[j]) is None);
            }
            assert(named_by_code(sections[sections.len() - 1]) is None);
            lemma_last_code(front, i);
        }
    }
}

/// The first section with a letter gives the model away, whatever stands before and behind it.
pub proof fn lemma_model_by_letter(
    sections: Vec<DataSection>,
    i: int,
    model: Option<&'static str>,
    r: Option<String>,
)
    requires
        call_ensures(identify_switchbot, (&sections,), r),
        0 <= i < sections@.len(),
        has_letter(sections@[i]),
        forall|j: int| 0 <= j < i ==> !has_letter(#[trigger] sections@[j]),
        call_ensures(switchbot_ascii, (letter_of(sections@[i]),), model),
    ensures
        r is Some,
        is_called(model, r->0@),
{
    lemma_first_letter(sections@, i);
    lemma_letters_name_models(letter_of(sections@[i]), model);
}

/// Where no section has a letter, the last section with a code gives the model away, by bytes 3 to
/// 6 behind the service alone.
pub proof fn lemma_model_by_code(sections: Vec<DataSection>, i: int, r: Option<String>)
    requires
        call_ensures(identify_switchbot, (&sections,), r),
        forall|j: int| 0 <= j < sections@.len() ==> !has_letter(#[trigger] sections@[j]),
        0 <= i < sections@.len(),
        named_by_code(sections@[i]) is Some,
        forall|j: int| i < j < sections@.len() ==> named_by_code(#[trigger] sections@[j]) is None,
    ensures
        r is Some,
        Some(r->0@) == named_by_code(sections@[i]),
{
    lemma_no_letter(sections@);
    lemma_last_code(sections@, i);
}

/// Without a letter and without a code there is no model.
pub proof fn lemma_no_model(sections: Vec<DataSection>, r: Option<String>)
    requires
        call_ensures(identify_switchbot, (&sections,), r),
    ensures
        r is None <==> forall|j: int|
            0 <= j < sections@.len() ==> !has_letter(#[trigger] sections@[j]) && named_by_code(
                sections@[j],
            ) is None,
{
    let all_silent = forall|j: int|
        0 <= j < sections@.len() ==> !has_letter(#[trigger] sections@[j]) && named_by_code(
            sections@[j],
        ) is None;
    if all_silent {
        lemma_no_letter(sections@);
        lemma_last_code(sections@, -1);
    }
    if r is None {
        assert forall|j: int| 0 <= j < sections@.len() implies !has_letter(
            #[trigger] sections@[j],
        ) && named_by_code(sections@[j]) is None by {
            lemma_silence_throughout(sections@, j);
        }
    }
}

proof fn lemma_silence_throughout(sections: Seq<DataSection>, j: int)
    requires
        first_by_letter(section_views(sections)) is None,
        last_by_code(section_views(sections)) is None,
        0 <= j < sections.len(),
    ensures
        !has_letter(sections[j]),
        named_by_code(sections[j]) is None,
    decreases sections.len(),
{
    let front = sections.drop_last();
    assert(section_views(sections).drop_last() =~= section_views(front));
    lemma_section(sections.last());
    if j < front.len() {
        lemma_silence_throughout(front, j);
    }
}

/// Two sections without a letter that agree in bytes 3 to 6 behind the service give the same model
/// away.
pub proof fn lemma_only_the_code_counts(
    a: Vec<DataSection>,
    b: Vec<DataSection>,
    x: Option<String>,
    y: Option<String>,
)
    requires
        call_ensures(identify_switchbot, (&a,), x),
        call_ensures(identify_switchbot, (&b,), y),
        a@.len() == 1,
        b@.len() == 1,
        carries_service(a@[0]),
        carries_service(b@[0]),
        !has_letter(a@[0]),
        !has_letter(b@[0]),
        a@[0].data->0@.len() >= 9,
        b@[0].data->0@.len() >= 9,
        a@[0].data->0@.subrange(5, 9) == b@[0].data->0@.subrange(5, 9),
    ensures
        x is Some <==> y is Some,
        x is Some ==> x->0@ == y->0@,
{
    let p = a@[0].data->0@;
    let q = b@[0].data->0@;
    let c = p.subrange(5, 9);
    let d = q.subrange(5, 9);
    assert(c[0] == p[5] && c[1] == p[6] && c[2] == p[7] && c[3] == p[8]);
    assert(d[0] == q[5] && d[1] == q[6] && d[2] == q[7] && d[3] == q[8]);
    assert(named_by_code(a@[0]) == named_by_code(b@[0]));
    if named_by_code(a@[0]) is Some {
        lemma_model_by_code(a, 0, x);
        lemma_model_by_code(b, 0, y);
    } else {
        lemma_no_model(a, x);
        lemma_no_model(b, y);
    }
}

/// An advertisement at -127 dBm makes no event. Any other makes one with its address and signal
/// strength, the name unless that is empty, the company of the first manufacturer entry, and the
/// model that its sections give away; what could not be read is zero or missing.
pub proof fn lemma_advertisement_told(received: Received, r: Option<Event>, model: Option<String>)
    requires
        call_ensures(advertisement_event, (received,), r),
        received.advertisement matches Some(ad) ==> call_ensures(
            identify_switchbot,
            (&ad.sections,),
            model,
        ),
    ensures
        r is None <==> received.rssi == Some(-127i16),
        r matches Some(e) ==> match e {
            Event::NearbyBleSeen { address, rssi, name, mfr_company, model_hint } => {
                &&& received.address matches Some(a) ==> address == a
                &&& received.address is None ==> address == 0
                &&& received.rssi matches Some(v) ==> rssi == v
                &&& received.rssi is None ==> rssi == 0
                &&& received.advertisement is None ==> name is None && mfr_company is None
                    && model_hint is None
                &&& received.advertisement matches Some(ad) ==> {
                    &&& name is Some <==> ad.local_name is Some && ad.local_name->0@.len() > 0
                    &&& name is Some ==> name->0@ == ad.local_name->0@
                    &&& ad.companies@.len() > 0 ==> mfr_company == ad.companies@[0]
                    &&& ad.companies@.len() == 0 ==> mfr_company is None
                    &&& model_hint is Some <==> model is Some
                    &&& model is Some ==> model_hint->0@ == model->0@
                }
            },
            _ => false,
        },
{
}

/// A millisecond has ten thousand ticks.
pub proof fn lemma_ticks(ms: i64, ticks: i64)
    requires
        call_ensures(timespan_ticks, (ms,), ticks),
    ensures
        ticks == ms * 10_000,
        crate::advertisement::SAMPLING_INTERVAL_MS == 500,
{
}

} // verus!
