//! The monitor supervisor: a state machine from the task's state and what its
//! source reported to the next state and what the task does next.
//!
//! The caller runs the loop: it performs each action (acquire the source,
//! wait for a reading, publish, sleep, stop) and hands back what happened.

use vstd::prelude::*;
use crate::debounce::{changed, update};
use crate::source::{Event, SourceError};

verus! {

/// How long the task sleeps between two readings, in milliseconds.
pub const POLL_INTERVAL_MS: u64 = 1000;

/// Where the monitoring task stands.
#[derive(Clone, Copy, Debug, PartialEq, Eq, Structural)]
pub enum Phase {
    /// The source has not been acquired yet.
    Starting,
    /// The source is being read.
    Running,
    /// The task has ended. Nothing leads out of this phase.
    Terminated,
}

/// What the task does after a step.
#[derive(Clone, Copy, Debug, PartialEq, Eq, Structural)]
pub enum Action {
    /// Acquire the source and report the outcome.
    Acquire,
    /// Fetch the next reading at once.
    Observe,
    /// Hand the new lock state to the emitter, sleep for the poll interval,
    /// then fetch the next reading.
    Emit(bool),
    /// Sleep for the poll interval, then fetch the next reading.
    Pause,
    /// Log the failure and end the task.
    Stop(SourceError),
    /// The task has already ended: do nothing.
    Halted,
}

/// The state of a monitoring task as contracts see it.
pub struct MonitorState {
    pub phase: Phase,
    /// The last lock state that the task remembers (`true` is locked).
    pub last: bool,
}

impl MonitorState {
    /// The state of a new task: starting, and taken to be unlocked.
    pub open spec fn initial() -> MonitorState {
        MonitorState { phase: Phase::Starting, last: false }
    }

    /// The state of a task that reads its source and remembers `last`.
    pub open spec fn running(last: bool) -> MonitorState {
        MonitorState { phase: Phase::Running, last }
    }

    /// The state after `event`.
    pub open spec fn next(self, event: Event) -> MonitorState {
        match (self.phase, event) {
            (Phase::Starting, Event::Acquired) => MonitorState { phase: Phase::Running, ..self },
            (Phase::Starting, Event::Failed(_)) => MonitorState {
                phase: Phase::Terminated,
                ..self
            },
            (Phase::Running, Event::Observed(state)) => MonitorState { last: state, ..self },
            (Phase::Running, Event::Failed(_)) => MonitorState { phase: Phase::Terminated, ..self },
            _ => self,
        }
    }

    /// What the task does in answer to `event`.
    pub open spec fn action(self, event: Event) -> Action {
        match (self.phase, event) {
            (Phase::Terminated, _) => Action::Halted,
            (_, Event::Failed(error)) => Action::Stop(error),
            (Phase::Starting, Event::Acquired) => Action::Observe,
            (Phase::Starting, _) => Action::Acquire,
            (Phase::Running, Event::Acquired) => Action::Observe,
            (Phase::Running, Event::Unrecognized) => Action::Pause,
            (Phase::Running, Event::Observed(state)) => match changed(self.last, state) {
                Some(new_state) => Action::Emit(new_state),
                None => Action::Pause,
            },
        }
    }

    /// The state after the events of `events`, taken in order.
    pub open spec fn run(self, events: Seq<Event>) -> MonitorState
        decreases events.len(),
    {
        if events.len() == 0 {
            self
        } else {
            self.run(events.drop_last()).next(events.last())
        }
    }

    /// The lock states handed to the emitter over the events of `events`, in
    /// the order in which they are handed over.
    pub open spec fn emitted(self, events: Seq<Event>) -> Seq<bool>
        decreases events.len(),
    {
        if events.len() == 0 {
            Seq::empty()
        } else {
            let before = events.drop_last();
            match self.run(before).action(events.last()) {
                Action::Emit(new_state) => self.emitted(before).push(new_state),
                _ => self.emitted(before),
            }
        }
    }
}

/// One monitoring task's state: its phase and the lock state it remembers.
#[derive(Debug)]
pub struct Monitor {
    phase: Phase,
    last: bool,
}

impl View for Monitor {
    type V = MonitorState;

    closed spec fn view(&self) -> MonitorState {
        MonitorState { phase: self.phase, last: self.last }
    }
}

impl Monitor {
    /// A new task: starting, with the session taken to be unlocked.
    pub fn new() -> (monitor: Monitor)
        ensures
            monitor@ == MonitorState::initial(),
    {
        Monitor { phase: Phase::Starting, last: false }
    }

    /// Where the task stands.
    pub fn phase(&self) -> (phase: Phase)
        ensures
            phase == self@.phase,
    {
        self.phase
    }

    /// The lock state that the task remembers.
    pub fn last_state(&self) -> (last: bool)
        ensures
            last == self@.last,
    {
        self.last
    }

    /// Whether the task has ended.
    pub fn is_terminated(&self) -> (ended: bool)
        ensures
            ended <==> self@.phase == Phase::Terminated,
    {
        match self.phase {
            Phase::Terminated => true,
            _ => false,
        }
    }

    /// Takes what the source reported and says what the task does next.
    ///
    /// While starting, the task waits for its source: `Acquired` starts the
    /// reading, a failure ends the task. While running, a reading that
    /// differs from the remembered state is remembered and handed to the
    /// emitter, a repeated or unrecognized reading only lets the task sleep,
    /// and a failure ends the task. A task that has ended stays ended.
    pub fn step(&mut self, event: Event) -> (action: Action)
        ensures
            final(self)@ == old(self)@.next(event),
            action == old(self)@.action(event),
    {
        match self.phase {
            Phase::Terminated => Action::Halted,
            Phase::Starting => match event {
                Event::Acquired => {
                    self.phase = Phase::Running;
                    Action::Observe
                },
                Event::Failed(error) => {
                    self.phase = Phase::Terminated;
                    Action::Stop(error)
                },
                _ => Action::Acquire,
            },
            Phase::Running => match event {
                Event::Acquired => Action::Observe,
                Event::Unrecognized => Action::Pause,
                Event::Failed(error) => {
                    self.phase = Phase::Terminated;
                    Action::Stop(error)
                },
                Event::Observed(state) => match update(self.last, state) {
                    Some(new_state) => {
                        self.last = new_state;
                        Action::Emit(new_state)
                    },
                    None => Action::Pause,
                },
            },
        }
    }

    /// Takes a whole run of events in order and returns the lock states that
    /// were handed to the emitter on the way.
    pub fn feed(&mut self, events: &Vec<Event>) -> (out: Vec<bool>)
        ensures
            final(self)@ == old(self)@.run(events@),
            out@ == old(self)@.emitted(events@),
    {
        let mut out: Vec<bool> = Vec::new();
        let mut i: usize = 0;
        while i < events.len()
            invariant
                0 <= i <= events.len(),
                self@ == old(self)@.run(events@.take(i as int)),
                out@ == old(self)@.emitted(events@.take(i as int)),
            decreases events.len() - i,
        {
            proof {
                assert(events@.take(i + 1).drop_last() =~= events@.take(i as int));
            }
            let action = self.step(events[i]);
            match action {
                Action::Emit(new_state) => {
                    out.push(new_state);
                },
                _ => {},
            }
            i += 1;
        }
        proof {
            assert(events@.take(i as int) =~= events@);
        }
        out
    }
}

} // verus!
