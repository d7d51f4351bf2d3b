use simplebluetooth::bt::{Command, Event, RadioKind, RadioPower, RadioReading, RadioState};
use simplebluetooth::effect::Effect;
use simplebluetooth::supervisor::{step, Report, Stage, COMMAND_WAIT_SECS};

fn radios(power: RadioPower) -> Report {
    Report::Radios(vec![RadioReading { kind: Some(RadioKind::Bluetooth), power: Some(power) }])
}

fn next(stage: Stage, report: Report) -> Stage {
    step(stage, report).0
}

#[test]
fn start_reads_the_radio_and_makes_both_watchers() {
    let (stage, effects) = step(Stage::Prime, radios(RadioPower::On));
    assert_eq!(stage, Stage::BuildWatcher { again: false });
    assert_eq!(effects.len(), 1);
    assert!(matches!(effects[0], Effect::Send(Event::Radio(RadioState::On))));
    let stage = next(stage, Report::Done);
    assert_eq!(stage, Stage::StartWatcher { again: false });
    let stage = next(stage, Report::Done);
    assert_eq!(stage, Stage::WatchAdvertisements);
    assert_eq!(next(stage, Report::Done), Stage::AwaitCommand);
}

#[test]
fn rescan_is_announced_before_the_new_watcher() {
    let (stage, effects) = step(Stage::AwaitCommand, Report::Command(Command::Rescan));
    assert_eq!(effects.len(), 3);
    assert!(matches!(effects[0], Effect::StopWatcher));
    assert!(matches!(effects[1], Effect::Send(Event::RescanStarted)));
    assert!(matches!(effects[2], Effect::Repaint));
    assert_eq!(stage, Stage::BuildWatcher { again: true });
    let stage = next(stage, Report::Done);
    assert_eq!(stage, Stage::StartWatcher { again: true });
    assert_eq!(next(stage, Report::Done), Stage::PollRadios);
}

#[test]
fn inquiry_runs_beside_the_rest() {
    let (stage, effects) = step(Stage::AwaitCommand, Report::Command(Command::StartClassicInquiry));
    assert_eq!(effects.len(), 1);
    assert!(matches!(effects[0], Effect::SpawnInquiry));
    assert_eq!(stage, Stage::PollRadios);
}

#[test]
fn radio_is_read_again_after_a_wait() {
    let (stage, effects) = step(Stage::AwaitCommand, Report::Timeout);
    assert!(effects.is_empty());
    assert_eq!(stage, Stage::PollRadios);
    let (stage, effects) = step(stage, radios(RadioPower::Disabled));
    assert_eq!(stage, Stage::AwaitCommand);
    assert_eq!(effects.len(), 2);
    assert!(matches!(effects[0], Effect::Send(Event::Radio(RadioState::Disabled))));
    assert!(matches!(effects[1], Effect::Repaint));
    assert_eq!(COMMAND_WAIT_SECS, 10);
}

#[test]
fn unreadable_radio_does_not_end_the_program() {
    let (stage, effects) = step(Stage::PollRadios, Report::Error);
    assert_eq!(stage, Stage::AwaitCommand);
    assert!(effects.is_empty());
}

#[test]
fn lost_commander_ends_the_program() {
    let (stage, effects) = step(Stage::AwaitCommand, Report::Disconnected);
    assert_eq!(stage, Stage::Ended);
    assert!(effects.is_empty());
}

#[test]
fn what_is_over_stays_over() {
    for stage in [Stage::Ended, Stage::Failed] {
        let (after, effects) = step(stage, Report::Command(Command::Rescan));
        assert_eq!(after, stage);
        assert!(effects.is_empty());
        assert_eq!(next(stage, radios(RadioPower::On)), stage);
    }
}

#[test]
fn failures_of_the_watchers_are_fatal() {
    for stage in [
        Stage::Prime,
        Stage::BuildWatcher { again: false },
        Stage::BuildWatcher { again: true },
        Stage::StartWatcher { again: false },
        Stage::StartWatcher { again: true },
        Stage::WatchAdvertisements,
    ] {
        assert_eq!(next(stage, Report::Error), Stage::Failed);
    }
}

#[test]
fn reports_that_nothing_waits_for_change_nothing() {
    assert_eq!(next(Stage::Prime, Report::Done), Stage::Prime);
    assert_eq!(next(Stage::AwaitCommand, Report::Done), Stage::AwaitCommand);
    assert_eq!(next(Stage::PollRadios, Report::Disconnected), Stage::PollRadios);
}
