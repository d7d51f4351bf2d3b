//! What holds of the search for Classic devices, and of the course of the Bluetooth side.

use vstd::prelude::*;

use crate::bt::{extract_bt_radio_state, Command, Event, RadioState};
use crate::clock::{Moment, Span};
use crate::cursor::StringCursor;
use crate::effect::{announce, effect_views, nothing, Effect};
use crate::inquiry::{before_zero, emit_classic, FoundRecord, Inquiry, InquiryReport, InquiryTask};
use crate::laws::texts::lemma_utf16_one_for_one;
use crate::supervisor::{step, Report, Stage};
use crate::text::utf16_text;

verus! {

proof fn lemma_name_units(units: Seq<u16>, n: int)
    requires
        0 <= n <= units.len(),
        forall|i: int| 0 <= i < n ==> #[trigger] units[i] != 0,
        n < units.len() ==> units[n] == 0,
    ensures
        before_zero(units) == units.take(n),
    decreases n,
{
    if n > 0 {
        let rest = units.drop_first();
        assert(units[0] != 0);
        assert forall|i: int| 0 <= i < n - 1 implies #[trigger] rest[i] != 0 by {
            assert(units[i + 1] != 0);
        }
        lemma_name_units(rest, n - 1);
        assert(seq![units[0]] + rest.take(n - 1) =~= units.take(n));
    } else {
        assert(units.take(n) =~= Seq::empty());
    }
}

/// A found device is told as it was found: its six bytes are the address, least significant first,
/// its name is what all the code units before the first zero stand for, and its class and flags
/// are kept.
pub proof fn lemma_found_device_told(record: FoundRecord, n: int, e: Event)
    requires
        call_ensures(emit_classic, (&record,), e),
        0 <= n <= record.name@.len(),
        forall|i: int| 0 <= i < n ==> #[trigger] record.name@[i] != 0,
        n < record.name@.len() ==> record.name@[n] == 0,
    ensures
        match e {
            Event::ClassicFound { address, name, class_of_device, connected, paired, remembered } => {
                &&& address == record.address@[0] + 0x100 * record.address@[1] + 0x1_0000
                    * record.address@[2] + 0x100_0000 * record.address@[3] + 0x1_0000_0000
                    * record.address@[4] + 0x100_0000_0000 * record.address@[5]
                &&& name@ == utf16_text(record.name@.take(n))
                &&& class_of_device == record.class_of_device
                &&& connected == record.connected
                &&& paired == record.authenticated
                &&& remembered == record.remembered
            },
            _ => false,
        },
{
    lemma_name_units(record.name@, n);
}

/// A name without halves of pairs has as many characters as there are code units before the first
/// zero, and each character is its code unit.
pub proof fn lemma_found_name_in_full(record: FoundRecord, n: int, e: Event)
    requires
        call_ensures(emit_classic, (&record,), e),
        0 <= n <= record.name@.len(),
        forall|i: int|
            0 <= i < n ==> #[trigger] record.name@[i] != 0 && !(0xD800 <= record.name@[i]
                <= 0xDFFF),
        n < record.name@.len() ==> record.name@[n] == 0,
    ensures
        e is ClassicFound,
        e->ClassicFound_name@.len() == n,
        forall|i: int|
            0 <= i < n ==> (#[trigger] e->ClassicFound_name@[i]) as int == record.name@[i] as int,
{
    lemma_found_device_told(record, n, e);
    let units = record.name@.take(n);
    assert forall|i: int| 0 <= i < units.len() implies !(0xD800 <= #[trigger] units[i] <= 0xDFFF) by {
        assert(record.name@[i] != 0);
    }
    lemma_utf16_one_for_one(units);
    assert forall|i: int| 0 <= i < n implies (#[trigger] e->ClassicFound_name@[i]) as int
        == record.name@[i] as int by {
        assert(units[i] == record.name@[i]);
    }
}

/// Whether things to do are just to hand this event to the screen and to have that drawn again.
pub open spec fn only_announces(effects: Seq<Effect>, e: Event) -> bool {
    &&& effects.len() == 2
    &&& effects[0] is Send
    &&& effects[0]->Send_0@ == e@
    &&& effects[1] is Repaint
}

proof fn lemma_effect_views(effects: Seq<Effect>)
    ensures
        effect_views(effects).len() == effects.len(),
        forall|i: int|
            0 <= i < effects.len() ==> #[trigger] effect_views(effects)[i] == effects[i]@,
{
}

/// To announce an event is to hand it over and to have the screen drawn again.
pub proof fn lemma_announced(e: Event, v: Vec<Effect>, w: Vec<Effect>)
    requires
        call_ensures(announce, (e,), v),
        call_ensures(nothing, (), w),
    ensures
        only_announces(v@, e),
        w@.len() == 0,
{
    lemma_effect_views(v@);
    lemma_effect_views(w@);
    assert(effect_views(v@)[0] == v@[0]@ && effect_views(v@)[1] == v@[1]@);
}

/// A search begins with nothing found, lasts six units of time, and the screen is told.
pub proof fn lemma_search_begins(r: (Inquiry, Vec<Effect>))
    requires
        call_ensures(Inquiry::start, (), r),
    ensures
        r.0.task == InquiryTask::FindFirst,
        r.0.count == 0,
        only_announces(r.1@, Event::ClassicInquiryStarted),
        crate::inquiry::INQUIRY_TIMEOUT_MULTIPLIER == 6,
{
    lemma_effect_views(r.1@);
    assert(effect_views(r.1@)[0] == r.1@[0]@ && effect_views(r.1@)[1] == r.1@[1]@);
}

/// Each found device is counted and told, first or not, and the next one is looked for.
pub proof fn lemma_search_finds(
    i: &mut Inquiry,
    record: FoundRecord,
    found: Event,
    effects: Vec<Effect>,
)
    requires
        call_ensures(Inquiry::step, (i, InquiryReport::Found(record)), effects),
        call_ensures(emit_classic, (&record,), found),
        old(i).task == InquiryTask::FindFirst || old(i).task == InquiryTask::FindNext,
        old(i).count < u32::MAX,
    ensures
        final(i).task == InquiryTask::FindNext,
        final(i).count == old(i).count + 1,
        only_announces(effects@, found),
{
    lemma_effect_views(effects@);
    assert(effect_views(effects@)[0] == effects@[0]@ && effect_views(effects@)[1] == effects@[1]@);
}

/// Where no further device is found, the handle is given up, and only after that the screen is told
/// how many there were; where none was found at all, there is no handle and the screen is told at
/// once.
pub proof fn lemma_search_ends(i: &mut Inquiry, report: InquiryReport, effects: Vec<Effect>)
    requires
        call_ensures(Inquiry::step, (i, report), effects),
    ensures
        old(i).task == InquiryTask::FindNext && report is NoMore ==> {
            &&& final(i).task == InquiryTask::Close
            &&& effects@.len() == 0
        },
        (old(i).task == InquiryTask::Close && report is Closed) || (old(i).task
            == InquiryTask::FindFirst && report is NoMore) ==> {
            &&& final(i).task == InquiryTask::End
            &&& only_announces(effects@, Event::ClassicInquiryFinished { total: old(i).count })
        },
        !(report is Found) ==> final(i).count == old(i).count,
        old(i).task == InquiryTask::End ==> *final(i) == *old(i) && effects@.len() == 0,
{
    lemma_effect_views(effects@);
    if effects@.len() == 2 {
        assert(effect_views(effects@)[0] == effects@[0]@ && effect_views(effects@)[1]
            == effects@[1]@);
    }
}

/// The Bluetooth side reads the radios, makes and starts the watcher of paired devices, watches
/// advertisements, and awaits commands, in this order; the first state of the radio is handed over.
pub proof fn lemma_start_of_the_bluetooth_side(
    stage: Stage,
    report: Report,
    r: (Stage, Vec<Effect>),
)
    requires
        call_ensures(step, (stage, report), r),
    ensures
        stage == Stage::Prime && report is Radios ==> r.0 == (Stage::BuildWatcher { again: false }),
        stage is BuildWatcher && report is Done ==> r.0 == (Stage::StartWatcher {
            again: stage->BuildWatcher_again,
        }) && r.1@.len() == 0,
        stage == (Stage::StartWatcher { again: false }) && report is Done ==> r.0
            == Stage::WatchAdvertisements && r.1@.len() == 0,
        stage == (Stage::StartWatcher { again: true }) && report is Done ==> r.0
            == Stage::PollRadios && r.1@.len() == 0,
        stage == Stage::WatchAdvertisements && report is Done ==> r.0 == Stage::AwaitCommand
            && r.1@.len() == 0,
        report is Error && (stage == Stage::Prime || stage is BuildWatcher || stage is StartWatcher
            || stage == Stage::WatchAdvertisements) ==> r.0 == Stage::Failed && r.1@.len() == 0,
{
    lemma_effect_views(r.1@);
}

/// The state that the radios tell is handed over whenever they are read, and the screen is drawn
/// again unless it is the first time; then commands are awaited, as they are where the radios could
/// not be read.
pub proof fn lemma_radio_handed_over(
    stage: Stage,
    radios: Vec<crate::bt::RadioReading>,
    state: RadioState,
    r: (Stage, Vec<Effect>),
    failed: (Stage, Vec<Effect>),
)
    requires
        call_ensures(extract_bt_radio_state, (&radios,), state),
        call_ensures(step, (stage, Report::Radios(radios)), r),
        call_ensures(step, (Stage::PollRadios, Report::Error), failed),
    ensures
        stage == Stage::Prime ==> {
            &&& r.1@.len() == 1
            &&& r.1@[0] is Send
            &&& r.1@[0]->Send_0 == Event::Radio(state)
        },
        stage == Stage::PollRadios ==> {
            &&& r.0 == Stage::AwaitCommand
            &&& only_announces(r.1@, Event::Radio(state))
        },
        failed.0 == Stage::AwaitCommand && failed.1@.len() == 0,
{
    lemma_effect_views(r.1@);
    lemma_effect_views(failed.1@);
    if r.1@.len() > 0 {
        assert(effect_views(r.1@)[0] == r.1@[0]@);
        if r.1@.len() > 1 {
            assert(effect_views(r.1@)[1] == r.1@[1]@);
        }
    }
}

/// A rescan stops the watcher, tells the screen and has another watcher made; a search is begun
/// beside the rest; and without a command the radios are read. Only the loss of whoever gives
/// commands ends the program.
pub proof fn lemma_commands_followed(report: Report, r: (Stage, Vec<Effect>))
    requires
        call_ensures(step, (Stage::AwaitCommand, report), r),
    ensures
        report matches Report::Command(Command::Rescan) ==> {
            &&& r.0 == (Stage::BuildWatcher { again: true })
            &&& r.1@.len() == 3
            &&& r.1@[0] is StopWatcher
            &&& r.1@[1] is Send && r.1@[1]->Send_0 is RescanStarted
            &&& r.1@[2] is Repaint
        },
        report matches Report::Command(Command::StartClassicInquiry) ==> {
            &&& r.0 == Stage::PollRadios
            &&& r.1@.len() == 1
            &&& r.1@[0] is SpawnInquiry
        },
        report is Timeout ==> r.0 == Stage::PollRadios && r.1@.len() == 0,
        report is Disconnected <==> r.0 == Stage::Ended,
        r.0 != Stage::Failed,
        crate::supervisor::COMMAND_WAIT_SECS == 10,
{
    let views = effect_views(r.1@);
    lemma_effect_views(r.1@);
    if r.1@.len() > 0 {
        assert(views[0] == r.1@[0]@);
        if r.1@.len() == 3 {
            assert(views[1] == r.1@[1]@ && views[2] == r.1@[2]@);
        }
    }
}

/// What is over stays over, and nothing more is done.
pub proof fn lemma_over_is_over(stage: Stage, report: Report, r: (Stage, Vec<Effect>))
    requires
        call_ensures(step, (stage, report), r),
        stage == Stage::Ended || stage == Stage::Failed,
    ensures
        r.0 == stage,
        r.1@.len() == 0,
{
    lemma_effect_views(r.1@);
}

/// Reading a new cursor gives its texts from the front, as many as there are and fit.
pub proof fn lemma_cursor_reads(
    items: Vec<String>,
    c: &mut StringCursor,
    capacity: usize,
    current: Option<String>,
    here: bool,
    read: Vec<String>,
)
    requires
        call_ensures(StringCursor::new, (items,), *old(c)),
        call_ensures(StringCursor::current, (&*old(c),), current),
        call_ensures(StringCursor::has_current, (&*old(c),), here),
        call_ensures(StringCursor::get_many, (c, capacity), read),
    ensures
        here <==> items@.len() > 0,
        current is Some <==> here,
        here ==> current->0@ == items@[0]@,
        read@.len() == if capacity < items@.len() {
            capacity as int
        } else {
            items@.len() as int
        },
        forall|i: int| 0 <= i < read@.len() ==> (#[trigger] read@[i])@ == items@[i]@,
        final(c)@.len() == items@.len() - read@.len(),
        forall|i: int|
            0 <= i < final(c)@.len() ==> #[trigger] final(c)@[i] == items@[i + read@.len()]@,
{
    let views = crate::cursor::text_views(read@);
    assert(views.len() == read@.len());
    assert forall|i: int| 0 <= i < read@.len() implies (#[trigger] read@[i])@ == items@[i]@ by {
        assert(views[i] == read@[i]@);
    }
}

/// Moving a cursor on leaves out one text, and tells whether there is another.
pub proof fn lemma_cursor_moves(c: &mut StringCursor, more: bool, current: Option<String>)
    requires
        call_ensures(StringCursor::move_next, (c,), more),
        call_ensures(StringCursor::current, (&*final(c),), current),
    ensures
        more <==> old(c)@.len() > 1,
        current is Some <==> more,
        more ==> current->0@ == old(c)@[1],
        old(c)@.len() > 0 ==> final(c)@.len() == old(c)@.len() - 1,
        forall|i: int| 0 <= i < final(c)@.len() ==> #[trigger] final(c)@[i] == old(c)@[i + 1],
{
}

/// Time spans are differences, none of them negative; a point before the origin is none; and seconds
/// are whole.
pub proof fn lemma_time(
    now: Moment,
    earlier: Moment,
    d: Span,
    nanos: u64,
    before: Option<Moment>,
    secs: u64,
)
    requires
        call_ensures(Moment::duration_since, (now, earlier), d),
        call_ensures(Moment::checked_sub, (now, nanos), before),
        call_ensures(Span::as_secs, (d,), secs),
    ensures
        now.nanos >= earlier.nanos ==> earlier.nanos + d.nanos == now.nanos,
        now.nanos < earlier.nanos ==> d.nanos == 0,
        before is Some <==> now.nanos >= nanos,
        before matches Some(t) ==> t.nanos + nanos == now.nanos,
        secs * 1_000_000_000 <= d.nanos < (secs + 1) * 1_000_000_000,
{
}

} // verus!
