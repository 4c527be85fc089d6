//! The reconciliation state machine: from the current state and what the
//! ledgers answered to the next state and what to do next.

use vstd::prelude::*;
use crate::address::Address;
use crate::codec::{
    counter_account_of, descriptor_of, watched_account_of, DecodeError, DestinationCounterState,
    Layout, NonceStatus, TransferDescriptor,
};

verus! {

/// Seconds between two reconciliation passes.
pub const POLL_INTERVAL_SECS: u64 = 60;

/// What the relay remembers between passes, for observation only.
#[derive(Clone, Copy, Debug, PartialEq, Eq)]
pub struct RelayProgress {
    pub last_seen_destination_counter: Option<u64>,
}

/// Where a reconciliation pass stands.
#[derive(Clone, Copy, Debug, PartialEq, Eq)]
pub enum EngineState {
    /// Between passes.
    Idle,
    /// Waiting for the watched account's bytes.
    FetchingSourceCounter,
    /// Waiting for the counter-account's bytes.
    FetchingDestinationCounter { watched: u64 },
    /// Waiting for the descriptor account of `next`; counters up to `end`
    /// (exclusive) are pending.
    Draining { next: u64, end: u64 },
    /// Waiting for the outcome of the submission for `counter`.
    Submitting { counter: u64, end: u64 },
    /// Waiting for the poll interval to pass.
    Sleeping,
}

/// What the outside world answered to the last decision.
#[derive(Clone, Debug, PartialEq, Eq)]
pub enum Event {
    /// A new pass may start.
    Tick,
    /// The account that was asked for, as bytes.
    AccountData(Vec<u8>),
    /// The account that was asked for does not exist.
    NotFound,
    /// The ledger could not be reached.
    ConnectionError,
    /// The submitted transaction was finalized.
    Confirmed,
    /// The ledger rejected the submitted transaction, possibly with the
    /// destination program's error code.
    Rejected { code: Option<u32> },
    /// The poll interval has passed.
    Woke,
}

/// Why a pass was abandoned.
#[derive(Clone, Copy, Debug, PartialEq, Eq)]
pub enum RelayError {
    /// An account's bytes do not fit its layout.
    Decode(DecodeError),
    /// The watched account or the counter-account does not exist.
    AccountMissing(Layout),
    /// The ledger could not be reached.
    Connection,
    /// The submission for `counter` was rejected.
    Rejected { counter: u64, code: Option<u32> },
    /// An event arrived that the current state does not wait for.
    UnexpectedEvent,
    /// No descriptor address can be derived for `counter`.
    NoDescriptorAddress { counter: u64 },
}

/// What to do next.
#[derive(Clone, Copy, Debug, PartialEq, Eq)]
pub enum Decision {
    ReadWatchedAccount,
    ReadCounterAccount,
    /// Read the descriptor account of `counter`.
    ReadDescriptor { counter: u64 },
    /// Assemble and submit the transfer recorded under `counter`.
    Submit { counter: u64, amount: u64, destination: Address },
    Sleep { seconds: u64 },
    /// Start the next pass.
    Proceed,
    /// Abandon the pass and surface the error.
    Fail(RelayError),
}

/// The counters still to relay: from the destination's mirror of the source
/// counter up to the watched counter, exclusive.
pub open spec fn pending_range(watched: u64, mirror: u64) -> Seq<u64> {
    Seq::new(
        if watched > mirror {
            (watched - mirror) as nat
        } else {
            0
        },
        |i: int| (mirror + i) as u64,
    )
}

/// Where a batch goes on once every counter below `next` is dealt with.
pub open spec fn resume_at(next: int, end: u64) -> (EngineState, Decision) {
    if next < end {
        (EngineState::Draining { next: next as u64, end }, Decision::ReadDescriptor { counter: next as u64 })
    } else {
        (EngineState::Sleeping, Decision::Sleep { seconds: 60 })
    }
}

/// An abandoned pass: back to idle, with the error.
pub open spec fn abandon(error: RelayError) -> (EngineState, Decision) {
    (EngineState::Idle, Decision::Fail(error))
}

/// The transition function.
pub open spec fn next_step(state: EngineState, event: Event) -> (EngineState, Decision) {
    match state {
        EngineState::Idle => match event {
            Event::Tick => (EngineState::FetchingSourceCounter, Decision::ReadWatchedAccount),
            _ => abandon(RelayError::UnexpectedEvent),
        },
        EngineState::FetchingSourceCounter => match event {
            Event::AccountData(data) => match watched_account_of(data@) {
                Ok(status) => (
                    EngineState::FetchingDestinationCounter { watched: status.nonce },
                    Decision::ReadCounterAccount,
                ),
                Err(e) => abandon(RelayError::Decode(e)),
            },
            Event::NotFound => abandon(RelayError::AccountMissing(Layout::WatchedAccount)),
            Event::ConnectionError => abandon(RelayError::Connection),
            _ => abandon(RelayError::UnexpectedEvent),
        },
        EngineState::FetchingDestinationCounter { watched } => match event {
            Event::AccountData(data) => match counter_account_of(data@) {
                Ok(counters) => resume_at(counters.source_mirror_counter as int, watched),
                Err(e) => abandon(RelayError::Decode(e)),
            },
            Event::NotFound => abandon(RelayError::AccountMissing(Layout::CounterAccount)),
            Event::ConnectionError => abandon(RelayError::Connection),
            _ => abandon(RelayError::UnexpectedEvent),
        },
        EngineState::Draining { next, end } => match event {
            Event::AccountData(data) => match descriptor_of(data@) {
                Ok(descriptor) => (
                    EngineState::Submitting { counter: next, end },
                    Decision::Submit {
                        counter: next,
                        amount: descriptor.amount,
                        destination: descriptor.destination_address,
                    },
                ),
                Err(e) => abandon(RelayError::Decode(e)),
            },
            Event::NotFound => resume_at(next + 1, end),
            Event::ConnectionError => abandon(RelayError::Connection),
            _ => abandon(RelayError::UnexpectedEvent),
        },
        EngineState::Submitting { counter, end } => match event {
            Event::Confirmed => resume_at(counter + 1, end),
            Event::Rejected { code } => abandon(RelayError::Rejected { counter, code }),
            Event::ConnectionError => abandon(RelayError::Connection),
            _ => abandon(RelayError::UnexpectedEvent),
        },
        EngineState::Sleeping => match event {
            Event::Woke => (EngineState::Idle, Decision::Proceed),
            _ => abandon(RelayError::UnexpectedEvent),
        },
    }
}

/// The progress cache after a step: the mirrored source counter whenever the
/// counter-account was decoded, else what it was.
pub open spec fn next_progress(
    state: EngineState,
    event: Event,
    progress: RelayProgress,
) -> RelayProgress {
    match (state, event) {
        (EngineState::FetchingDestinationCounter { .. }, Event::AccountData(data)) => match counter_account_of(
            data@,
        ) {
            Ok(counters) => RelayProgress {
                last_seen_destination_counter: Some(counters.source_mirror_counter),
            },
            Err(_) => progress,
        },
        _ => progress,
    }
}

/// The reconciliation engine: its state and its progress cache.
#[derive(Clone, Copy, Debug, PartialEq, Eq)]
pub struct Engine {
    pub state: EngineState,
    pub progress: RelayProgress,
}

/// Goes on with the batch at `next`, or sleeps where nothing is pending.
fn resume(next: u64, end: u64) -> (r: (EngineState, Decision))
    ensures
        r == resume_at(next as int, end),
{
    if next < end {
        (EngineState::Draining { next, end }, Decision::ReadDescriptor { counter: next })
    } else {
        (EngineState::Sleeping, Decision::Sleep { seconds: POLL_INTERVAL_SECS })
    }
}

/// Goes on with the batch behind `counter`.
fn resume_after(counter: u64, end: u64) -> (r: (EngineState, Decision))
    ensures
        r == resume_at(counter + 1, end),
{
    if counter < end {
        resume(counter + 1, end)
    } else {
        (EngineState::Sleeping, Decision::Sleep { seconds: POLL_INTERVAL_SECS })
    }
}

impl Engine {
    /// An idle engine that has seen nothing yet.
    pub fn new() -> (e: Engine)
        ensures
            e.state == EngineState::Idle,
            e.progress.last_seen_destination_counter is None,
    {
        Engine {
            state: EngineState::Idle,
            progress: RelayProgress { last_seen_destination_counter: None },
        }
    }

    /// Takes one event, moves to the next state and says what to do next.
    pub fn step(&mut self, event: &Event) -> (decision: Decision)
        ensures
            (final(self).state, decision) == next_step(old(self).state, *event),
            final(self).progress == next_progress(old(self).state, *event, old(self).progress),
    {
        let unexpected = (EngineState::Idle, Decision::Fail(RelayError::UnexpectedEvent));
        let lost = (EngineState::Idle, Decision::Fail(RelayError::Connection));
        let (state, decision) = match self.state {
            EngineState::Idle => match event {
                Event::Tick => (EngineState::FetchingSourceCounter, Decision::ReadWatchedAccount),
                _ => unexpected,
            },
            EngineState::FetchingSourceCounter => match event {
                Event::AccountData(data) => match NonceStatus::from_bytes(data.as_slice()) {
                    Ok(status) => (
                        EngineState::FetchingDestinationCounter { watched: status.nonce },
                        Decision::ReadCounterAccount,
                    ),
                    Err(e) => (EngineState::Idle, Decision::Fail(RelayError::Decode(e))),
                },
                Event::NotFound => (
                    EngineState::Idle,
                    Decision::Fail(RelayError::AccountMissing(Layout::WatchedAccount)),
                ),
                Event::ConnectionError => lost,
                _ => unexpected,
            },
            EngineState::FetchingDestinationCounter { watched } => match event {
                Event::AccountData(data) => match DestinationCounterState::from_bytes(
                    data.as_slice(),
                ) {
                    Ok(counters) => {
                        self.progress = RelayProgress {
                            last_seen_destination_counter: Some(counters.source_mirror_counter),
                        };
                        resume(counters.source_mirror_counter, watched)
                    },
                    Err(e) => (EngineState::Idle, Decision::Fail(RelayError::Decode(e))),
                },
                Event::NotFound => (
                    EngineState::Idle,
                    Decision::Fail(RelayError::AccountMissing(Layout::CounterAccount)),
                ),
                Event::ConnectionError => lost,
                _ => unexpected,
            },
            EngineState::Draining { next, end } => match event {
                Event::AccountData(data) => match TransferDescriptor::from_bytes(data.as_slice()) {
                    Ok(descriptor) => (
                        EngineState::Submitting { counter: next, end },
                        Decision::Submit {
                            counter: next,
                            amount: descriptor.amount,
                            destination: descriptor.destination_address,
                        },
                    ),
                    Err(e) => (EngineState::Idle, Decision::Fail(RelayError::Decode(e))),
                },
                Event::NotFound => resume_after(next, end),
                Event::ConnectionError => lost,
                _ => unexpected,
            },
            EngineState::Submitting { counter, end } => match event {
                Event::Confirmed => resume_after(counter, end),
                Event::Rejected { code } => (
                    EngineState::Idle,
                    Decision::Fail(RelayError::Rejected { counter, code: *code }),
                ),
                Event::ConnectionError => lost,
                _ => unexpected,
            },
            EngineState::Sleeping => match event {
                Event::Woke => (EngineState::Idle, Decision::Proceed),
                _ => unexpected,
            },
        };
        self.state = state;
        decision
    }
}

} // verus!
