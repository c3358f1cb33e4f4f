//! Whole invocations: what a sequence of events amounts to.
//!
//! The outcome of an invocation is a function of its events in arrival
//! order. This module states that function, runs it, and proves what it
//! promises about failing exits, clean exits and output written only to
//! standard error.

use vstd::prelude::*;
use vstd::pervasive::unreached;
use crate::bridge::{
    accepted, initial_state, is_failing, lemma_failure_text_contains, verdict,
    well_formed, Aggregator, AggregatorState, Outcome, OutcomeResult, Phase, StreamEvent,
};
use crate::text::{contains, utf8_lossy};

verus! {

/// The state of a fresh aggregator after `events` arrived in order.
pub open spec fn drained(events: Seq<StreamEvent>) -> AggregatorState
    decreases events.len(),
{
    if events.len() == 0 {
        initial_state()
    } else {
        accepted(drained(events.drop_last()), events.last())
    }
}

/// The outcome of an invocation whose events were `events`.
pub open spec fn outcome_of(events: Seq<StreamEvent>) -> Outcome {
    verdict(drained(events))
}

/// The bytes written to standard output in `events`: its chunks joined in
/// arrival order.
pub open spec fn stdout_bytes(events: Seq<StreamEvent>) -> Seq<u8>
    decreases events.len(),
{
    if events.len() == 0 {
        seq![]
    } else {
        let earlier = stdout_bytes(events.drop_last());
        match events.last() {
            StreamEvent::StdoutChunk(bytes) => earlier + bytes@,
            _ => earlier,
        }
    }
}

/// The bytes written to standard error in `events`: its chunks joined in
/// arrival order.
pub open spec fn stderr_bytes(events: Seq<StreamEvent>) -> Seq<u8>
    decreases events.len(),
{
    if events.len() == 0 {
        seq![]
    } else {
        let earlier = stderr_bytes(events.drop_last());
        match events.last() {
            StreamEvent::StderrChunk(bytes) => earlier + bytes@,
            _ => earlier,
        }
    }
}

/// Everything written to standard output in `events`, decoded as text.
pub open spec fn stdout_text(events: Seq<StreamEvent>) -> Seq<char> {
    utf8_lossy(stdout_bytes(events))
}

/// Everything written to standard error in `events`, decoded as text.
pub open spec fn stderr_text(events: Seq<StreamEvent>) -> Seq<char> {
    utf8_lossy(stderr_bytes(events))
}

/// `event` reports a termination with a failing exit code, or with none.
pub open spec fn is_failure_notice(event: StreamEvent) -> bool {
    event matches StreamEvent::Terminated(code) && is_failing(code)
}

/// Some event of `events` reports a failing termination.
pub open spec fn reports_failure(events: Seq<StreamEvent>) -> bool {
    exists|i: int| 0 <= i < events.len() && is_failure_notice(#[trigger] events[i])
}

/// A failing termination is on record in `state`.
pub open spec fn has_failed(state: AggregatorState) -> bool {
    state.exit matches Some(code) && is_failing(code)
}

/// Feeds `events` in order to a fresh aggregator and closes it.
pub fn run(events: &Vec<StreamEvent>) -> (outcome: OutcomeResult)
    ensures
        outcome@ == outcome_of(events@),
{
    let mut aggregator = Aggregator::new();
    let mut i: usize = 0;
    while i < events.len()
        invariant
            i <= events.len(),
            aggregator@ == drained(events@.take(i as int)),
            aggregator@.phase != Phase::Classified,
        decreases events.len() - i,
    {
        aggregator.accept(&events[i]);
        proof {
            assert(events@.take(i + 1).drop_last() =~= events@.take(i as int));
        }
        i += 1;
    }
    proof {
        assert(events@.take(i as int) =~= events@);
    }
    match aggregator.finish() {
        Some(outcome) => outcome,
        None => unreached(),
    }
}

/// What a fresh aggregator holds after `events`: each buffer has the bytes
/// of its stream, a failing termination is on record exactly when one was
/// reported, and the outcome is still to be given.
pub proof fn lemma_drained_gathers(events: Seq<StreamEvent>)
    ensures
        drained(events).stdout == stdout_bytes(events),
        drained(events).stderr == stderr_bytes(events),
        drained(events).phase != Phase::Classified,
        well_formed(drained(events)),
        has_failed(drained(events)) <==> reports_failure(events),
    decreases events.len(),
{
    if events.len() > 0 {
        let earlier = events.drop_last();
        let last = events.last();
        lemma_drained_gathers(earlier);
        if reports_failure(earlier) {
            let i = choose|i: int| 0 <= i < earlier.len() && is_failure_notice(#[trigger] earlier[i]);
            assert(is_failure_notice(events[i]));
        }
        if is_failure_notice(last) {
            assert(is_failure_notice(events[events.len() - 1]));
        }
        if reports_failure(events) {
            let i = choose|i: int| 0 <= i < events.len() && is_failure_notice(#[trigger] events[i]);
            if i < earlier.len() {
                assert(is_failure_notice(earlier[i]));
            }
        }
    }
}

/// A worker that reported a failing exit code, or ended without a code, gets
/// a failure, and the diagnostic contains everything it wrote to standard
/// error, before and after the report.
pub proof fn lemma_failing_exit_fails(events: Seq<StreamEvent>)
    requires
        reports_failure(events),
    ensures
        outcome_of(events) is Failure,
        contains(outcome_of(events)->Failure_0, stderr_text(events)),
{
    lemma_drained_gathers(events);
    let state = drained(events);
    lemma_failure_text_contains(state.exit->Some_0, utf8_lossy(state.stderr));
}

/// A worker that reported no failing exit and wrote to standard output gets
/// a success, and the payload is exactly what it wrote there: all the bytes
/// of its standard output, joined and decoded as text.
pub proof fn lemma_clean_exit_with_output_succeeds(events: Seq<StreamEvent>)
    requires
        !reports_failure(events),
        stdout_text(events).len() > 0,
    ensures
        outcome_of(events) == Outcome::Success(stdout_text(events)),
{
    lemma_drained_gathers(events);
}

/// A worker that reported no failing exit, wrote nothing to standard output
/// and something to standard error gets a failure, with what it wrote to
/// standard error as the diagnostic.
pub proof fn lemma_stderr_only_fails(events: Seq<StreamEvent>)
    requires
        !reports_failure(events),
        stdout_text(events).len() == 0,
        stderr_text(events).len() > 0,
    ensures
        outcome_of(events) == Outcome::Failure(stderr_text(events)),
{
    lemma_drained_gathers(events);
}

} // verus!
