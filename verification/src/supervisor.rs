//! The life of the Bluetooth side: from reading the radio at the start to the end of the program.

use vstd::prelude::*;

use crate::bt::{bluetooth_state, extract_bt_radio_state, Command, Event, EventView, RadioReading};
use crate::effect::{announce, effect_views, nothing, Effect, EffectView};

verus! {

/// How long to wait for a command before the radio is read again, in seconds.
pub const COMMAND_WAIT_SECS: u64 = 10;

/// What the Bluetooth side waits for.
#[derive(Copy, Clone, Debug, PartialEq, Eq, Structural)]
pub enum Stage {
    /// Read the radios for the first time, which also wakes them up.
    Prime,
    /// Make the watcher of paired devices: at the start, or anew.
    BuildWatcher { again: bool },
    /// Start the watcher of paired devices.
    StartWatcher { again: bool },
    /// Make and start the watcher of advertisements.
    WatchAdvertisements,
    /// Wait for a command.
    AwaitCommand,
    /// Read the radios again.
    PollRadios,
    /// The program is over.
    Ended,
    /// Something that nothing works without could not be had.
    Failed,
}

/// What became of it.
pub enum Report {
    /// The radios were read.
    Radios(Vec<RadioReading>),
    /// A watcher was made or started.
    Done,
    /// It could not be done.
    Error,
    /// A command came.
    Command(Command),
    /// No command came for as long as was waited.
    Timeout,
    /// Nobody is left to give commands.
    Disconnected,
}

/// What is waited for next. A report that nothing waits for changes nothing.
pub open spec fn next_stage(stage: Stage, report: Report) -> Stage {
    match (stage, report) {
        (Stage::Prime, Report::Radios(_)) => Stage::BuildWatcher { again: false },
        (Stage::BuildWatcher { again }, Report::Done) => Stage::StartWatcher { again },
        (Stage::StartWatcher { again }, Report::Done) => if again {
            Stage::PollRadios
        } else {
            Stage::WatchAdvertisements
        },
        (Stage::WatchAdvertisements, Report::Done) => Stage::AwaitCommand,
        (Stage::AwaitCommand, Report::Command(Command::Rescan)) => Stage::BuildWatcher {
            again: true,
        },
        (Stage::AwaitCommand, Report::Command(Command::StartClassicInquiry)) => Stage::PollRadios,
        (Stage::AwaitCommand, Report::Timeout) => Stage::PollRadios,
        (Stage::AwaitCommand, Report::Disconnected) => Stage::Ended,
        (Stage::PollRadios, Report::Radios(_)) => Stage::AwaitCommand,
        (Stage::PollRadios, Report::Error) => Stage::AwaitCommand,
        (Stage::Prime, Report::Error) | (Stage::BuildWatcher { again: _ }, Report::Error) | (
            Stage::StartWatcher { again: _ },
            Report::Error,
        ) | (Stage::WatchAdvertisements, Report::Error) => Stage::Failed,
        _ => stage,
    }
}

/// What is done upon a report.
pub open spec fn effects_of(stage: Stage, report: Report) -> Seq<EffectView> {
    match (stage, report) {
        (Stage::Prime, Report::Radios(radios)) => seq![
            EffectView::Send(EventView::Radio(bluetooth_state(radios@))),
        ],
        (Stage::AwaitCommand, Report::Command(Command::Rescan)) => seq![
            EffectView::StopWatcher,
            EffectView::Send(EventView::RescanStarted),
            EffectView::Repaint,
        ],
        (Stage::AwaitCommand, Report::Command(Command::StartClassicInquiry)) => seq![
            EffectView::SpawnInquiry,
        ],
        (Stage::PollRadios, Report::Radios(radios)) => seq![
            EffectView::Send(EventView::Radio(bluetooth_state(radios@))),
            EffectView::Repaint,
        ],
        _ => Seq::empty(),
    }
}

/// Takes in what became of the current stage: what to do, and what to wait for next.
pub fn step(stage: Stage, report: Report) -> (r: (Stage, Vec<Effect>))
    ensures
        r.0 == next_stage(stage, report),
        effect_views(r.1@) == effects_of(stage, report),
{
    match (stage, report) {
        (Stage::Prime, Report::Radios(radios)) => {
            let state = extract_bt_radio_state(&radios);
            let mut effects: Vec<Effect> = Vec::new();
            effects.push(Effect::Send(Event::Radio(state)));
            assert(effect_views(effects@) =~= seq![EffectView::Send(EventView::Radio(state))]);
            (Stage::BuildWatcher { again: false }, effects)
        },
        (Stage::BuildWatcher { again }, Report::Done) => (Stage::StartWatcher { again }, nothing()),
        (Stage::StartWatcher { again }, Report::Done) => if again {
            (Stage::PollRadios, nothing())
        } else {
            (Stage::WatchAdvertisements, nothing())
        },
        (Stage::WatchAdvertisements, Report::Done) => (Stage::AwaitCommand, nothing()),
        (Stage::AwaitCommand, Report::Command(Command::Rescan)) => {
            let mut effects: Vec<Effect> = Vec::new();
            effects.push(Effect::StopWatcher);
            effects.push(Effect::Send(Event::RescanStarted));
            effects.push(Effect::Repaint);
            assert(effect_views(effects@) =~= effects_of(stage, Report::Command(Command::Rescan)));
            (Stage::BuildWatcher { again: true }, effects)
        },
        (Stage::AwaitCommand, Report::Command(Command::StartClassicInquiry)) => {
            let mut effects: Vec<Effect> = Vec::new();
            effects.push(Effect::SpawnInquiry);
            assert(effect_views(effects@) =~= seq![EffectView::SpawnInquiry]);
            (Stage::PollRadios, effects)
        },
        (Stage::AwaitCommand, Report::Timeout) => (Stage::PollRadios, nothing()),
        (Stage::AwaitCommand, Report::Disconnected) => (Stage::Ended, nothing()),
        (Stage::PollRadios, Report::Radios(radios)) => {
            let state = extract_bt_radio_state(&radios);
            (Stage::AwaitCommand, announce(Event::Radio(state)))
        },
        (Stage::PollRadios, Report::Error) => (Stage::AwaitCommand, nothing()),
        (Stage::Prime, Report::Error) => (Stage::Failed, nothing()),
        (Stage::BuildWatcher { again: _ }, Report::Error) => (Stage::Failed, nothing()),
        (Stage::StartWatcher { again: _ }, Report::Error) => (Stage::Failed, nothing()),
        (Stage::WatchAdvertisements, Report::Error) => (Stage::Failed, nothing()),
        _ => (stage, nothing()),
    }
}

/// A radio that cannot be read while the program runs does not end it: only the loss of whoever
/// gives the commands does.
pub proof fn lemma_running_ends_only_by_disconnection(stage: Stage, report: Report)
    requires
        stage == Stage::AwaitCommand || stage == Stage::PollRadios,
    ensures
        next_stage(stage, report) != Stage::Failed,
        next_stage(stage, report) == Stage::Ended <==> stage == Stage::AwaitCommand
            && report is Disconnected,
{
}

/// The radios are read before anything else: the first watcher is made only upon that.
pub proof fn lemma_radios_read_first(stage: Stage, report: Report)
    requires
        next_stage(stage, report) == (Stage::BuildWatcher { again: false }),
        next_stage(stage, report) != stage,
    ensures
        stage == Stage::Prime,
        report is Radios,
{
}

/// After a command, as after a wait without one, the radios are read, and whatever comes of that,
/// the next command is awaited.
pub proof fn lemma_next_command_is_awaited(reading: Report)
    requires
        reading is Radios || reading is Error,
    ensures
        next_stage(Stage::AwaitCommand, Report::Timeout) == Stage::PollRadios,
        next_stage(Stage::AwaitCommand, Report::Command(Command::StartClassicInquiry))
            == Stage::PollRadios,
        next_stage(Stage::StartWatcher { again: true }, Report::Done) == Stage::PollRadios,
        next_stage(Stage::PollRadios, reading) == Stage::AwaitCommand,
{
}

/// Whatever is over stays over.
pub proof fn lemma_end_is_final(stage: Stage, report: Report)
    requires
        stage == Stage::Ended || stage == Stage::Failed,
    ensures
        next_stage(stage, report) == stage,
        effects_of(stage, report) == Seq::<EffectView>::empty(),
{
}

/// The screen learns of a rescan before any device of the new watcher can arrive: the old watcher
/// is stopped, the rescan is announced, and only after that a watcher is made and started.
pub proof fn lemma_rescan_order(done: Report, started: Report)
    requires
        done is Done,
        started is Done,
    ensures
        ({
            let rescan = Report::Command(Command::Rescan);
            let building = next_stage(Stage::AwaitCommand, rescan);
            let starting = next_stage(building, done);
            &&& effects_of(Stage::AwaitCommand, rescan) == seq![
                EffectView::StopWatcher,
                EffectView::Send(EventView::RescanStarted),
                EffectView::Repaint,
            ]
            &&& building == (Stage::BuildWatcher { again: true })
            &&& starting == (Stage::StartWatcher { again: true })
            &&& next_stage(starting, started) == Stage::PollRadios
        }),
{
}

} // verus!
