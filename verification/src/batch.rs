//! What holds of every run of the engine through one batch of pending
//! counters.

use vstd::prelude::*;
use crate::codec::counter_account_of;
use crate::engine::{next_step, pending_range, Decision, EngineState, Event};

verus! {

/// Whether the engine is working through a batch of pending counters.
pub open spec fn in_batch(state: EngineState) -> bool {
    state is Draining || state is Submitting
}

/// Whether the counter a state works on lies below the batch's end.
pub open spec fn well_formed(state: EngineState) -> bool {
    match state {
        EngineState::Draining { next, end } => next < end,
        EngineState::Submitting { counter, end } => counter < end,
        _ => true,
    }
}

/// The exclusive end of the batch a state belongs to.
pub open spec fn batch_end(state: EngineState) -> u64 {
    match state {
        EngineState::Draining { end, .. } => end,
        EngineState::Submitting { end, .. } => end,
        _ => 0,
    }
}

/// The first counter that is neither submitted nor skipped yet; `end` once
/// the batch is drained.
pub open spec fn frontier(state: EngineState, end: u64) -> int {
    match state {
        EngineState::Draining { next, .. } => next as int,
        EngineState::Submitting { counter, .. } => counter + 1,
        EngineState::Sleeping => end as int,
        _ => 0,
    }
}

/// The state in which a run ends: when the events run out or the batch is
/// left.
pub open spec fn state_after(state: EngineState, events: Seq<Event>) -> EngineState
    decreases events.len(),
{
    if events.len() == 0 || !in_batch(state) {
        state
    } else {
        state_after(next_step(state, events[0]).0, events.drop_first())
    }
}

/// The counters for which a run decides to submit, in the order of the
/// decisions.
pub open spec fn submissions(state: EngineState, events: Seq<Event>) -> Seq<u64>
    decreases events.len(),
{
    if events.len() == 0 || !in_batch(state) {
        Seq::empty()
    } else {
        let (then, decision) = next_step(state, events[0]);
        let rest = submissions(then, events.drop_first());
        match decision {
            Decision::Submit { counter, .. } => seq![counter] + rest,
            _ => rest,
        }
    }
}

/// The counters a run passes over because their descriptor account does not
/// exist.
pub open spec fn skips(state: EngineState, events: Seq<Event>) -> Seq<u64>
    decreases events.len(),
{
    if events.len() == 0 || !in_batch(state) {
        Seq::empty()
    } else {
        let rest = skips(next_step(state, events[0]).0, events.drop_first());
        match (state, events[0]) {
            (EngineState::Draining { next, .. }, Event::NotFound) => seq![next] + rest,
            _ => rest,
        }
    }
}

/// Every step keeps the counter in work below the batch's end, and a step
/// within a batch keeps the batch's end.
pub proof fn lemma_step_keeps_well_formed(state: EngineState, event: Event)
    requires
        well_formed(state),
    ensures
        well_formed(next_step(state, event).0),
        in_batch(state) && in_batch(next_step(state, event).0) ==> batch_end(
            next_step(state, event).0,
        ) == batch_end(state),
{
}

/// Monotonic ordering: whatever events arrive, the submissions of a batch
/// come in strictly ascending order of their counters, none below the first
/// counter not yet dealt with and none at or above the batch's end.
pub proof fn lemma_submissions_ascend(state: EngineState, events: Seq<Event>)
    requires
        well_formed(state),
    ensures
        forall|i: int|
            0 <= i < submissions(state, events).len() ==> frontier(state, 0) <= (
            #[trigger] submissions(state, events)[i]) < batch_end(state),
        forall|i: int, j: int|
            0 <= i < j < submissions(state, events).len() ==> submissions(state, events)[i]
                < submissions(state, events)[j],
    decreases events.len(),
{
    if events.len() > 0 {
        let (then, decision) = next_step(state, events[0]);
        let rest = submissions(then, events.drop_first());
        lemma_step_keeps_well_formed(state, events[0]);
        if in_batch(then) {
            lemma_submissions_ascend(then, events.drop_first());
            assert(frontier(state, 0) <= frontier(then, 0));
            assert(decision is Submit ==> decision->Submit_counter < frontier(then, 0));
        } else {
            assert(rest.len() == 0);
        }
    }
}

/// No counter is passed over for the sake of order: every counter between
/// where a run starts and where it ends was either submitted or skipped
/// because its descriptor account does not exist.
pub proof fn lemma_no_counter_left_out(state: EngineState, events: Seq<Event>, c: u64)
    requires
        well_formed(state),
        frontier(state, 0) <= c < frontier(state_after(state, events), batch_end(state)),
    ensures
        submissions(state, events).contains(c) || skips(state, events).contains(c),
    decreases events.len(),
{
    if events.len() > 0 {
        let (then, decision) = next_step(state, events[0]);
        let tail = events.drop_first();
        let subs = submissions(then, tail);
        let skipped = skips(then, tail);
        lemma_step_keeps_well_formed(state, events[0]);
        if c < frontier(then, batch_end(state)) && frontier(state, 0) <= c && !(in_batch(then)
            && frontier(then, 0) <= c) {
            // The step itself moved past `c`.
            match decision {
                Decision::Submit { counter, .. } => {
                    assert(counter == c);
                    assert((seq![counter] + subs)[0] == c);
                },
                _ => {
                    assert(state is Draining && events[0] is NotFound);
                    assert((seq![c] + skipped)[0] == c);
                },
            }
        } else if in_batch(then) {
            lemma_no_counter_left_out(then, tail, c);
            if subs.contains(c) {
                let k = choose|k: int| 0 <= k < subs.len() && subs[k] == c;
                match decision {
                    Decision::Submit { counter, .. } => {
                        assert((seq![counter] + subs)[k + 1] == c);
                    },
                    _ => {},
                }
            } else {
                let k = choose|k: int| 0 <= k < skipped.len() && skipped[k] == c;
                match (state, events[0]) {
                    (EngineState::Draining { next, .. }, Event::NotFound) => {
                        assert((seq![next] + skipped)[k + 1] == c);
                    },
                    _ => {},
                }
            }
        }
    }
}

/// Idempotent resume: once the counters from `d` up to `s` are relayed and
/// the destination mirrors the source counter `s`, nothing is pending, and a
/// fresh pass that reads these counters goes to sleep without a submission.
pub proof fn lemma_resume_finds_nothing_pending(d: u64, s: u64, counter_account: Vec<u8>)
    requires
        d < s,
        counter_account_of(counter_account@) is Ok,
        counter_account_of(counter_account@)->Ok_0.source_mirror_counter == s,
    ensures
        pending_range(s, d).len() == s - d,
        pending_range(s, s).len() == 0,
        next_step(
            EngineState::FetchingDestinationCounter { watched: s },
            Event::AccountData(counter_account),
        ) == (EngineState::Sleeping, Decision::Sleep { seconds: 60 }),
{
}

/// The pass that follows the reading of both counters starts at the first
/// pending counter, and sleeps exactly where none is pending.
pub proof fn lemma_pass_starts_at_first_pending(watched: u64, counter_account: Vec<u8>)
    requires
        counter_account_of(counter_account@) is Ok,
    ensures
        ({
            let mirror = counter_account_of(counter_account@)->Ok_0.source_mirror_counter;
            let pending = pending_range(watched, mirror);
            let step = next_step(
                EngineState::FetchingDestinationCounter { watched },
                Event::AccountData(counter_account),
            );
            &&& pending.len() == 0 <==> watched <= mirror
            &&& pending.len() == 0 ==> step == (
                EngineState::Sleeping,
                Decision::Sleep { seconds: 60 },
            )
            &&& pending.len() > 0 ==> step == (
                EngineState::Draining { next: pending[0], end: watched },
                Decision::ReadDescriptor { counter: pending[0] },
            )
            &&& forall|i: int| 0 <= i < pending.len() ==> #[trigger] pending[i] == mirror + i
        }),
{
}

} // verus!
