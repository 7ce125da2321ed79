use screen_lock_status::event::Payload;
use screen_lock_status::monitor::{Action, Monitor, Phase, POLL_INTERVAL_MS};
use screen_lock_status::source::{Event, SourceError};

fn running() -> Monitor {
    let mut monitor = Monitor::new();
    assert_eq!(monitor.step(Event::Acquired), Action::Observe);
    monitor
}

fn observed(readings: &[bool]) -> Vec<Event> {
    let mut events = Vec::new();
    for r in readings {
        events.push(Event::Observed(*r));
    }
    events
}

fn payloads(states: &[bool]) -> Vec<&'static str> {
    let mut out = Vec::new();
    for s in states {
        out.push(Payload::from_state(*s).as_str());
    }
    out
}

fn adjacent_changes(states: &[bool]) -> usize {
    let mut n = 0;
    for i in 1..states.len() {
        if states[i - 1] != states[i] {
            n += 1;
        }
    }
    n
}

#[test]
fn new_monitor_is_starting_and_unlocked() {
    let monitor = Monitor::new();
    assert_eq!(monitor.phase(), Phase::Starting);
    assert!(!monitor.last_state());
    assert!(!monitor.is_terminated());
}

#[test]
fn poll_interval_is_one_second() {
    assert_eq!(POLL_INTERVAL_MS, 1000);
}

#[test]
fn acquisition_starts_the_reading() {
    let mut monitor = Monitor::new();
    assert_eq!(monitor.step(Event::Acquired), Action::Observe);
    assert_eq!(monitor.phase(), Phase::Running);
    assert!(!monitor.last_state());
}

#[test]
fn acquisition_failure_ends_the_task() {
    let mut monitor = Monitor::new();
    assert_eq!(
        monitor.step(Event::Failed(SourceError::Connection)),
        Action::Stop(SourceError::Connection)
    );
    assert_eq!(monitor.phase(), Phase::Terminated);
    assert!(monitor.is_terminated());
}

#[test]
fn reading_before_acquisition_is_not_announced() {
    let mut monitor = Monitor::new();
    assert_eq!(monitor.step(Event::Observed(true)), Action::Acquire);
    assert_eq!(monitor.step(Event::Unrecognized), Action::Acquire);
    assert_eq!(monitor.phase(), Phase::Starting);
    assert!(!monitor.last_state());
}

#[test]
fn lock_then_repeat_then_unlock() {
    let mut monitor = running();
    assert_eq!(monitor.step(Event::Observed(true)), Action::Emit(true));
    assert_eq!(Payload::from_state(true).as_str(), "lock");
    assert!(monitor.last_state());
    assert_eq!(monitor.step(Event::Observed(true)), Action::Pause);
    assert!(monitor.last_state());
    assert_eq!(monitor.step(Event::Observed(false)), Action::Emit(false));
    assert_eq!(Payload::from_state(false).as_str(), "unlock");
    assert!(!monitor.last_state());
    assert_eq!(monitor.phase(), Phase::Running);
}

#[test]
fn first_unlocked_reading_is_no_change() {
    let mut monitor = running();
    assert_eq!(monitor.step(Event::Observed(false)), Action::Pause);
    assert!(!monitor.last_state());
}

#[test]
fn unrecognized_reading_only_pauses() {
    let mut monitor = running();
    assert_eq!(monitor.step(Event::Observed(true)), Action::Emit(true));
    assert_eq!(monitor.step(Event::Unrecognized), Action::Pause);
    assert!(monitor.last_state());
    assert_eq!(monitor.phase(), Phase::Running);
}

#[test]
fn second_acquisition_changes_nothing() {
    let mut monitor = running();
    assert_eq!(monitor.step(Event::Observed(true)), Action::Emit(true));
    assert_eq!(monitor.step(Event::Acquired), Action::Observe);
    assert_eq!(monitor.phase(), Phase::Running);
    assert!(monitor.last_state());
}

#[test]
fn feed_emits_once_per_transition() {
    let mut monitor = running();
    let out = monitor.feed(&observed(&[false, false, true, true, false]));
    assert_eq!(out, vec![true, false]);
    assert_eq!(payloads(&out), vec!["lock", "unlock"]);
    assert!(!monitor.last_state());
    assert_eq!(monitor.phase(), Phase::Running);
}

#[test]
fn feed_counts_adjacent_differing_pairs() {
    let cases: Vec<Vec<bool>> = vec![
        vec![],
        vec![false],
        vec![false, false, false],
        vec![false, true],
        vec![false, true, false, true, false],
        vec![false, true, true, true, false, false, true],
        vec![false, false, true, true, false],
    ];
    for readings in cases {
        let mut monitor = running();
        let out = monitor.feed(&observed(&readings));
        assert_eq!(out.len(), adjacent_changes(&readings));
        for i in 0..out.len() {
            assert_eq!(out[i], i % 2 == 0);
        }
    }
}

#[test]
fn feed_compares_first_reading_with_unlocked() {
    let mut monitor = running();
    let out = monitor.feed(&observed(&[true]));
    assert_eq!(out, vec![true]);
    let mut states = vec![false];
    states.push(true);
    assert_eq!(out.len(), adjacent_changes(&states));
    assert!(monitor.last_state());
}

#[test]
fn feed_of_nothing_changes_nothing() {
    let mut monitor = running();
    let out = monitor.feed(&Vec::new());
    assert!(out.is_empty());
    assert_eq!(monitor.phase(), Phase::Running);
    assert!(!monitor.last_state());
}

#[test]
fn feed_while_starting_emits_nothing() {
    let mut monitor = Monitor::new();
    let out = monitor.feed(&observed(&[true, false, true]));
    assert!(out.is_empty());
    assert_eq!(monitor.phase(), Phase::Starting);
}

#[test]
fn feed_runs_the_whole_life_of_a_task() {
    let mut monitor = Monitor::new();
    let events = vec![
        Event::Acquired,
        Event::Observed(true),
        Event::Unrecognized,
        Event::Observed(true),
        Event::Observed(false),
        Event::Failed(SourceError::StreamEnded),
        Event::Observed(true),
    ];
    let out = monitor.feed(&events);
    assert_eq!(out, vec![true, false]);
    assert_eq!(monitor.phase(), Phase::Terminated);
    assert!(!monitor.last_state());
}

#[test]
fn read_failure_is_terminal() {
    let mut monitor = running();
    assert_eq!(monitor.step(Event::Observed(true)), Action::Emit(true));
    assert_eq!(
        monitor.step(Event::Failed(SourceError::PropertyRead)),
        Action::Stop(SourceError::PropertyRead)
    );
    assert!(monitor.is_terminated());
    assert_eq!(monitor.step(Event::Observed(false)), Action::Halted);
    assert_eq!(monitor.step(Event::Observed(true)), Action::Halted);
    assert_eq!(monitor.step(Event::Acquired), Action::Halted);
    assert_eq!(monitor.step(Event::Failed(SourceError::MessageLoop)), Action::Halted);
    assert_eq!(monitor.phase(), Phase::Terminated);
    assert!(monitor.last_state());
    let out = monitor.feed(&observed(&[false, true, false]));
    assert!(out.is_empty());
    assert!(monitor.is_terminated());
}

#[test]
fn acquisition_failure_is_terminal() {
    let mut monitor = Monitor::new();
    assert_eq!(
        monitor.step(Event::Failed(SourceError::Proxy)),
        Action::Stop(SourceError::Proxy)
    );
    assert_eq!(monitor.step(Event::Acquired), Action::Halted);
    let out = monitor.feed(&observed(&[true, false]));
    assert!(out.is_empty());
    assert_eq!(monitor.phase(), Phase::Terminated);
}

#[test]
fn every_failure_stops_a_running_task() {
    let errors = [
        SourceError::Connection,
        SourceError::Proxy,
        SourceError::Window,
        SourceError::Dictionary,
        SourceError::PropertyRead,
        SourceError::MessageLoop,
        SourceError::StreamEnded,
    ];
    for error in errors {
        let mut monitor = running();
        assert_eq!(monitor.step(Event::Failed(error)), Action::Stop(error));
        assert!(monitor.is_terminated());
    }
}
