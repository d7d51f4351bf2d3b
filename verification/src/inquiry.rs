//! The search for Classic devices.

use vstd::prelude::*;
use vstd::string::*;

use crate::address::{address_from_le_bytes, le_number};
use crate::bt::{Event, EventView};
use crate::effect::{announce, effect_views, nothing, Effect, EffectView};
use crate::text::{from_utf16_lossy, utf16_text};

verus! {

/// How long the search lasts, in units of 1.28 seconds.
pub const INQUIRY_TIMEOUT_MULTIPLIER: u8 = 6;

/// A device as the search reports it.
pub struct FoundRecord {
    /// The address, least significant byte first.
    pub address: [u8; 6],
    /// The name in UTF-16, up to the first zero.
    pub name: Vec<u16>,
    pub class_of_device: u32,
    pub connected: bool,
    pub authenticated: bool,
    pub remembered: bool,
}

/// The code units before the first zero.
pub open spec fn before_zero(units: Seq<u16>) -> Seq<u16>
    decreases units.len(),
{
    if units.len() == 0 || units[0] == 0 {
        Seq::empty()
    } else {
        seq![units[0]] + before_zero(units.drop_first())
    }
}

proof fn lemma_before_zero(units: Seq<u16>, n: int)
    requires
        0 <= n <= units.len(),
        forall|i: int| 0 <= i < n ==> units[i] != 0,
        n < units.len() ==> units[n] == 0,
    ensures
        before_zero(units) == units.take(n),
    decreases units.len(),
{
    if units.len() > 0 && n > 0 {
        lemma_before_zero(units.drop_first(), n - 1);
        assert(seq![units[0]] + units.drop_first().take(n - 1) =~= units.take(n));
    } else {
        assert(units.take(n) =~= Seq::empty());
    }
}

/// The event that a found device makes.
pub open spec fn found_event(record: FoundRecord) -> EventView {
    EventView::ClassicFound {
        address: le_number(record.address@) as u64,
        name: utf16_text(before_zero(record.name@)),
        class_of_device: record.class_of_device,
        connected: record.connected,
        paired: record.authenticated,
        remembered: record.remembered,
    }
}

/// Turns a found device into an event.
pub fn emit_classic(record: &FoundRecord) -> (e: Event)
    ensures
        e@ == found_event(*record),
        le_number(record.address@) < 0x1_0000_0000_0000,
{
    let address: u64 = address_from_le_bytes(record.address);
    let mut units: Vec<u16> = Vec::new();
    let mut i: usize = 0;
    while i < record.name.len() && record.name[i] != 0
        invariant
            i <= record.name@.len(),
            units@ == record.name@.take(i as int),
            forall|k: int| 0 <= k < i ==> record.name@[k] != 0,
        decreases record.name@.len() - i,
    {
        units.push(record.name[i]);
        assert(units@ =~= record.name@.take(i + 1));
        i += 1;
    }
    proof {
        lemma_before_zero(record.name@, i as int);
    }
    let name = from_utf16_lossy(units.as_slice());
    Event::ClassicFound {
        address,
        name,
        class_of_device: record.class_of_device,
        connected: record.connected,
        paired: record.authenticated,
        remembered: record.remembered,
    }
}

/// What the search waits for.
#[derive(Copy, Clone, Debug, PartialEq, Eq, Structural)]
pub enum InquiryTask {
    /// Begin to search, and report the first device.
    FindFirst,
    /// Report the next device.
    FindNext,
    /// Give up the handle of the search.
    Close,
    /// Nothing: the search is over.
    End,
}

/// What became of a task.
pub enum InquiryReport {
    /// A device was found.
    Found(FoundRecord),
    /// No device, or no further one, was found.
    NoMore,
    /// The handle was given up.
    Closed,
}

/// The search.
#[derive(Copy, Clone, Debug, PartialEq, Eq, Structural)]
pub struct Inquiry {
    pub task: InquiryTask,
    /// How many devices were found so far.
    pub count: u32,
}

/// The search at the start.
pub open spec fn inquiry_start() -> Inquiry {
    Inquiry { task: InquiryTask::FindFirst, count: 0 }
}

/// The search after a report. A report that nothing waits for changes nothing.
pub open spec fn inquiry_next(i: Inquiry, report: InquiryReport) -> Inquiry {
    match (i.task, report) {
        (InquiryTask::FindFirst, InquiryReport::Found(_)) | (
            InquiryTask::FindNext,
            InquiryReport::Found(_),
        ) => Inquiry { task: InquiryTask::FindNext, count: (i.count + 1) as u32 },
        (InquiryTask::FindFirst, InquiryReport::NoMore) => Inquiry { task: InquiryTask::End, ..i },
        (InquiryTask::FindNext, InquiryReport::NoMore) => Inquiry { task: InquiryTask::Close, ..i },
        (InquiryTask::Close, InquiryReport::Closed) => Inquiry { task: InquiryTask::End, ..i },
        _ => i,
    }
}

/// What is done upon a report.
pub open spec fn inquiry_effects(i: Inquiry, report: InquiryReport) -> Seq<EffectView> {
    match (i.task, report) {
        (InquiryTask::FindFirst, InquiryReport::Found(record)) | (
            InquiryTask::FindNext,
            InquiryReport::Found(record),
        ) => seq![EffectView::Send(found_event(record)), EffectView::Repaint],
        (InquiryTask::FindFirst, InquiryReport::NoMore) | (
            InquiryTask::Close,
            InquiryReport::Closed,
        ) => seq![
            EffectView::Send(EventView::ClassicInquiryFinished { total: i.count }),
            EffectView::Repaint,
        ],
        _ => Seq::empty(),
    }
}

impl Inquiry {
    /// Begins the search, which is announced.
    pub fn start() -> (r: (Inquiry, Vec<Effect>))
        ensures
            r.0 == inquiry_start(),
            effect_views(r.1@) == seq![
                EffectView::Send(EventView::ClassicInquiryStarted),
                EffectView::Repaint,
            ],
    {
        (
            Inquiry { task: InquiryTask::FindFirst, count: 0 },
            announce(Event::ClassicInquiryStarted),
        )
    }

    /// Takes in what became of the current task, and tells what to do.
    pub fn step(&mut self, report: InquiryReport) -> (effects: Vec<Effect>)
        requires
            report is Found && (old(self).task is FindFirst || old(self).task is FindNext) ==> old(
                self,
            ).count < u32::MAX,
        ensures
            *final(self) == inquiry_next(*old(self), report),
            effect_views(effects@) == inquiry_effects(*old(self), report),
    {
        match (self.task, report) {
            (InquiryTask::FindFirst, InquiryReport::Found(record)) => {
                self.count = self.count + 1;
                self.task = InquiryTask::FindNext;
                announce(emit_classic(&record))
            },
            (InquiryTask::FindNext, InquiryReport::Found(record)) => {
                self.count = self.count + 1;
                announce(emit_classic(&record))
            },
            (InquiryTask::FindFirst, InquiryReport::NoMore) => {
                self.task = InquiryTask::End;
                announce(Event::ClassicInquiryFinished { total: self.count })
            },
            (InquiryTask::FindNext, InquiryReport::NoMore) => {
                self.task = InquiryTask::Close;
                nothing()
            },
            (InquiryTask::Close, InquiryReport::Closed) => {
                self.task = InquiryTask::End;
                announce(Event::ClassicInquiryFinished { total: self.count })
            },
            _ => nothing(),
        }
    }
}

/// The search after reports, in order, and all that was done upon them.
pub open spec fn inquiry_run(i: Inquiry, reports: Seq<InquiryReport>) -> (
    Inquiry,
    Seq<EffectView>,
)
    decreases reports.len(),
{
    if reports.len() == 0 {
        (i, Seq::empty())
    } else {
        let (j, done) = inquiry_run(i, reports.drop_last());
        (inquiry_next(j, reports.last()), done + inquiry_effects(j, reports.last()))
    }
}

/// The reports of a search that finds these devices.
pub open spec fn search_reports(records: Seq<FoundRecord>) -> Seq<InquiryReport> {
    records.map_values(|r: FoundRecord| InquiryReport::Found(r))
}

/// Each found device handed to the screen, in order.
pub open spec fn found_effects(records: Seq<FoundRecord>) -> Seq<EffectView>
    decreases records.len(),
{
    if records.len() == 0 {
        Seq::empty()
    } else {
        found_effects(records.drop_last()) + seq![
            EffectView::Send(found_event(records.last())),
            EffectView::Repaint,
        ]
    }
}

proof fn lemma_search_so_far(records: Seq<FoundRecord>)
    requires
        records.len() <= u32::MAX,
    ensures
        inquiry_run(inquiry_start(), search_reports(records)).0 == (Inquiry {
            task: if records.len() == 0 {
                InquiryTask::FindFirst
            } else {
                InquiryTask::FindNext
            },
            count: records.len() as u32,
        }),
        inquiry_run(inquiry_start(), search_reports(records)).1 == found_effects(records),
    decreases records.len(),
{
    if records.len() > 0 {
        lemma_search_so_far(records.drop_last());
        assert(search_reports(records).drop_last() =~= search_reports(records.drop_last()));
    }
}

/// A search hands every device that it finds to the screen, in order, and in the end announces
/// how many there were.
pub proof fn lemma_search_total(records: Seq<FoundRecord>)
    requires
        records.len() <= u32::MAX,
    ensures
        ({
            let reports = search_reports(records).push(InquiryReport::NoMore).push(
                InquiryReport::Closed,
            );
            let (i, done) = inquiry_run(inquiry_start(), reports);
            &&& i.task == InquiryTask::End
            &&& done == found_effects(records) + seq![
                EffectView::Send(
                    EventView::ClassicInquiryFinished { total: records.len() as u32 },
                ),
                EffectView::Repaint,
            ]
        }),
{
    lemma_search_so_far(records);
    let found = search_reports(records);
    let ended = found.push(InquiryReport::NoMore);
    let reports = ended.push(InquiryReport::Closed);
    assert(ended.drop_last() =~= found);
    assert(reports.drop_last() =~= ended);
    let at_end = inquiry_run(inquiry_start(), ended);
    assert(at_end == (
        inquiry_next(inquiry_run(inquiry_start(), found).0, InquiryReport::NoMore),
        found_effects(records) + inquiry_effects(
            inquiry_run(inquiry_start(), found).0,
            InquiryReport::NoMore,
        ),
    ));
    assert(inquiry_run(inquiry_start(), reports).1 =~= found_effects(records) + seq![
        EffectView::Send(EventView::ClassicInquiryFinished { total: records.len() as u32 }),
        EffectView::Repaint,
    ]);
}

} // verus!
