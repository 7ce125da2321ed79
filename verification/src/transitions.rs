//! What holds of whole runs of the monitoring task: how many changes are
//! announced for a sequence of readings, and that a failure is final.

use vstd::prelude::*;
use crate::handle::emission;
use crate::monitor::{MonitorState, Phase};
use crate::source::{Event, SourceError};

verus! {

/// The number of places in `states` where a state differs from the one
/// before it.
pub open spec fn differing_pairs(states: Seq<bool>) -> nat
    decreases states.len(),
{
    if states.len() < 2 {
        0
    } else {
        let earlier = differing_pairs(states.drop_last());
        if states[states.len() - 2] != states[states.len() - 1] {
            earlier + 1
        } else {
            earlier
        }
    }
}

/// The events of a source that reports the lock states of `readings` in order.
pub open spec fn observations(readings: Seq<bool>) -> Seq<Event> {
    Seq::new(readings.len(), |i: int| Event::Observed(readings[i]))
}

/// The lock state that a task remembers after `readings`, having remembered
/// `last` before them.
pub open spec fn settled(last: bool, readings: Seq<bool>) -> bool {
    if readings.len() == 0 {
        last
    } else {
        readings.last()
    }
}

/// The monitor's runs compose: the events of `first` followed by those of
/// `second` lead to the state, and announce the changes, of the two runs made
/// one after the other.
pub proof fn run_in_two_parts(start: MonitorState, first: Seq<Event>, second: Seq<Event>)
    ensures
        start.run(first + second) == start.run(first).run(second),
        start.emitted(first + second) == start.emitted(first) + start.run(first).emitted(second),
    decreases second.len(),
{
    if second.len() == 0 {
        assert(first + second =~= first);
        assert(start.emitted(first) + Seq::<bool>::empty() =~= start.emitted(first));
    } else {
        let whole = first + second;
        assert(whole.drop_last() =~= first + second.drop_last());
        assert(whole.last() == second.last());
        run_in_two_parts(start, first, second.drop_last());
        let middle = start.run(first);
        assert(start.emitted(whole) =~= start.emitted(first) + middle.emitted(second));
    }
}

/// A running task that remembers `last` announces exactly one change for
/// every reading that differs from the state before it, the first reading
/// being compared with `last`. The announced states alternate, starting with
/// the opposite of `last`, so none is announced twice in a row. The task
/// keeps running and remembers the last reading.
pub proof fn one_emission_per_transition(last: bool, readings: Seq<bool>)
    ensures
        MonitorState::running(last).emitted(observations(readings)).len() == differing_pairs(
            seq![last] + readings,
        ),
        forall|i: int|
            0 <= i < MonitorState::running(last).emitted(observations(readings)).len()
                ==> #[trigger] MonitorState::running(last).emitted(observations(readings))[i] == (
            if i % 2 == 0 {
                !last
            } else {
                last
            }),
        MonitorState::running(last).run(observations(readings)) == MonitorState::running(
            settled(last, readings),
        ),
    decreases readings.len(),
{
    let start = MonitorState::running(last);
    let events = observations(readings);
    let states = seq![last] + readings;
    if readings.len() == 0 {
        assert(states.len() == 1);
    } else {
        let before = readings.drop_last();
        one_emission_per_transition(last, before);
        assert(events.drop_last() =~= observations(before));
        assert(events.last() == Event::Observed(readings.last()));
        assert(states.drop_last() =~= seq![last] + before);
        assert(states[states.len() - 1] == readings.last());
        assert(states[states.len() - 2] == settled(last, before));
        let earlier = start.emitted(observations(before));
        assert(earlier.len() > 0 ==> earlier.last() == settled(last, before)) by {
            remembered_is_last_emitted(last, before);
        }
        assert(earlier.len() == 0 ==> settled(last, before) == last) by {
            remembered_is_last_emitted(last, before);
        }
    }
}

/// After any readings, a running task remembers the state that it announced
/// last, or its first state if it announced none.
pub proof fn remembered_is_last_emitted(last: bool, readings: Seq<bool>)
    ensures
        MonitorState::running(last).emitted(observations(readings)).len() == 0 ==> settled(
            last,
            readings,
        ) == last,
        MonitorState::running(last).emitted(observations(readings)).len() > 0
            ==> MonitorState::running(last).emitted(observations(readings)).last() == settled(
            last,
            readings,
        ),
        MonitorState::running(last).run(observations(readings)) == MonitorState::running(
            settled(last, readings),
        ),
    decreases readings.len(),
{
    if readings.len() > 0 {
        let before = readings.drop_last();
        remembered_is_last_emitted(last, before);
        assert(observations(readings).drop_last() =~= observations(before));
        assert(observations(readings).last() == Event::Observed(readings.last()));
    }
}

/// Putting a state in front of a sequence that starts with that state adds no
/// differing pair.
proof fn leading_repeat_adds_no_pair(first: bool, states: Seq<bool>)
    requires
        states.len() == 0 || states[0] == first,
    ensures
        differing_pairs(seq![first] + states) == differing_pairs(states),
    decreases states.len(),
{
    let longer = seq![first] + states;
    if states.len() == 0 {
    } else if states.len() == 1 {
        assert(longer.len() == 2);
        assert(differing_pairs(longer.drop_last()) == 0);
    } else {
        leading_repeat_adds_no_pair(first, states.drop_last());
        assert(longer.drop_last() =~= seq![first] + states.drop_last());
        assert(longer[longer.len() - 1] == states[states.len() - 1]);
        assert(longer[longer.len() - 2] == states[states.len() - 2]);
    }
}

/// For readings that begin with the state the task already remembers (or for
/// none at all), the number of announced changes is the number of adjacent
/// differing pairs among the readings themselves.
pub proof fn emissions_count_adjacent_changes(last: bool, readings: Seq<bool>)
    requires
        readings.len() == 0 || readings[0] == last,
    ensures
        MonitorState::running(last).emitted(observations(readings)).len() == differing_pairs(
            readings,
        ),
{
    one_emission_per_transition(last, readings);
    leading_repeat_adds_no_pair(last, readings);
}

/// A sink that is not ready costs the transition and nothing else: nothing
/// is to be published for it, and the task, whose steps never look at the
/// sink, keeps running and remembers the reading.
pub proof fn unready_sink_drops_only_the_transition<H>(last: bool, reading: bool)
    ensures
        emission::<H>(None, reading) is None,
        MonitorState::running(last).next(Event::Observed(reading)) == MonitorState::running(
            reading,
        ),
{
}

/// A task that has ended stays ended and announces nothing, whatever its
/// source goes on to report.
pub proof fn terminated_stays_silent(state: MonitorState, events: Seq<Event>)
    requires
        state.phase == Phase::Terminated,
    ensures
        state.run(events) == state,
        state.emitted(events) == Seq::<bool>::empty(),
    decreases events.len(),
{
    if events.len() > 0 {
        terminated_stays_silent(state, events.drop_last());
    }
}

/// A failure is final: from any state, once the source has failed the task
/// is terminated, and whatever is reported afterwards announces no further
/// change. What was announced before the failure is all that is announced.
pub proof fn failure_is_terminal(
    start: MonitorState,
    before: Seq<Event>,
    error: SourceError,
    after: Seq<Event>,
)
    ensures
        start.run(before.push(Event::Failed(error)) + after).phase == Phase::Terminated,
        start.emitted(before.push(Event::Failed(error)) + after) == start.emitted(before),
{
    let failed = before.push(Event::Failed(error));
    assert(failed.drop_last() =~= before);
    assert(failed.last() == Event::Failed(error));
    let ended = start.run(failed);
    assert(ended.phase == Phase::Terminated);
    assert(start.emitted(failed) == start.emitted(before));
    run_in_two_parts(start, failed, after);
    terminated_stays_silent(ended, after);
    assert(start.emitted(before) + Seq::<bool>::empty() =~= start.emitted(before));
}

} // verus!
