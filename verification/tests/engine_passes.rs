use bridge_relayer::address::Address;
use bridge_relayer::codec::{DecodeError, Layout};
use bridge_relayer::engine::{
    Decision, Engine, EngineState, Event, RelayError, RelayProgress, POLL_INTERVAL_SECS,
};

fn watched_bytes(counter: u64) -> Vec<u8> {
    let mut data = vec![0u8; 16];
    data[8..16].copy_from_slice(&counter.to_le_bytes());
    data
}

fn counter_bytes(mirror: u64, destination: u64) -> Vec<u8> {
    let mut data = vec![0u8; 24];
    data[8..16].copy_from_slice(&mirror.to_le_bytes());
    data[16..24].copy_from_slice(&destination.to_le_bytes());
    data
}

fn descriptor_bytes(destination: [u8; 32], amount: u64) -> Vec<u8> {
    let mut data = vec![0u8; 87];
    data[40..72].copy_from_slice(&destination);
    data[72..80].copy_from_slice(&amount.to_le_bytes());
    data
}

fn engine_after_counters(watched: u64, mirror: u64) -> (Engine, Decision) {
    let mut engine = Engine::new();
    assert_eq!(engine.step(&Event::Tick), Decision::ReadWatchedAccount);
    assert_eq!(
        engine.step(&Event::AccountData(watched_bytes(watched))),
        Decision::ReadCounterAccount
    );
    let decision = engine.step(&Event::AccountData(counter_bytes(mirror, mirror)));
    (engine, decision)
}

#[test]
fn equal_counters_leave_nothing_to_submit() {
    let (engine, decision) = engine_after_counters(5, 5);
    assert_eq!(decision, Decision::Sleep { seconds: 60 });
    assert_eq!(engine.state, EngineState::Sleeping);
    assert_eq!(engine.progress, RelayProgress { last_seen_destination_counter: Some(5) });
}

#[test]
fn destination_ahead_of_source_leaves_nothing_to_submit() {
    let (engine, decision) = engine_after_counters(3, 9);
    assert_eq!(decision, Decision::Sleep { seconds: POLL_INTERVAL_SECS });
    assert_eq!(engine.state, EngineState::Sleeping);
}

#[test]
fn missing_descriptor_is_skipped_without_error() {
    let x = [0x58u8; 32];
    let (mut engine, decision) = engine_after_counters(7, 5);
    assert_eq!(decision, Decision::ReadDescriptor { counter: 5 });
    assert_eq!(engine.state, EngineState::Draining { next: 5, end: 7 });
    assert_eq!(
        engine.step(&Event::AccountData(descriptor_bytes(x, 1000))),
        Decision::Submit { counter: 5, amount: 1000, destination: Address { bytes: x } }
    );
    assert_eq!(engine.state, EngineState::Submitting { counter: 5, end: 7 });
    assert_eq!(engine.step(&Event::Confirmed), Decision::ReadDescriptor { counter: 6 });
    assert_eq!(engine.step(&Event::NotFound), Decision::Sleep { seconds: 60 });
    assert_eq!(engine.state, EngineState::Sleeping);
    assert_eq!(engine.step(&Event::Woke), Decision::Proceed);
    assert_eq!(engine.state, EngineState::Idle);
}

#[test]
fn rejection_stops_the_batch_and_the_next_pass_starts_over() {
    let x = [1u8; 32];
    let (mut engine, decision) = engine_after_counters(8, 5);
    assert_eq!(decision, Decision::ReadDescriptor { counter: 5 });
    assert!(matches!(
        engine.step(&Event::AccountData(descriptor_bytes(x, 10))),
        Decision::Submit { counter: 5, .. }
    ));
    assert_eq!(
        engine.step(&Event::Rejected { code: Some(6001) }),
        Decision::Fail(RelayError::Rejected { counter: 5, code: Some(6001) })
    );
    assert_eq!(engine.state, EngineState::Idle);
    // The destination did not advance: the next pass finds counter 5 again.
    assert_eq!(engine.step(&Event::Tick), Decision::ReadWatchedAccount);
    assert_eq!(engine.step(&Event::AccountData(watched_bytes(8))), Decision::ReadCounterAccount);
    assert_eq!(
        engine.step(&Event::AccountData(counter_bytes(5, 5))),
        Decision::ReadDescriptor { counter: 5 }
    );
}

#[test]
fn rejection_without_a_program_code_is_surfaced_too() {
    let mut engine =
        Engine { state: EngineState::Submitting { counter: 11, end: 12 }, progress: RelayProgress {
            last_seen_destination_counter: Some(11),
        } };
    assert_eq!(
        engine.step(&Event::Rejected { code: None }),
        Decision::Fail(RelayError::Rejected { counter: 11, code: None })
    );
    assert_eq!(engine.state, EngineState::Idle);
    assert_eq!(engine.progress, RelayProgress { last_seen_destination_counter: Some(11) });
}

#[test]
fn submissions_come_in_ascending_order() {
    let (mut engine, mut decision) = engine_after_counters(14, 10);
    let mut submitted = Vec::new();
    let mut asked = Vec::new();
    loop {
        match decision {
            Decision::ReadDescriptor { counter } => {
                asked.push(counter);
                decision = if counter == 12 {
                    engine.step(&Event::NotFound)
                } else {
                    engine.step(&Event::AccountData(descriptor_bytes([2u8; 32], counter * 10)))
                };
            }
            Decision::Submit { counter, amount, .. } => {
                assert_eq!(amount, counter * 10);
                submitted.push(counter);
                decision = engine.step(&Event::Confirmed);
            }
            other => {
                assert_eq!(other, Decision::Sleep { seconds: 60 });
                break;
            }
        }
    }
    assert_eq!(asked, vec![10, 11, 12, 13]);
    assert_eq!(submitted, vec![10, 11, 13]);
}

#[test]
fn after_a_full_relay_a_fresh_pass_finds_nothing() {
    let (mut engine, mut decision) = engine_after_counters(7, 5);
    let mut relayed: u64 = 0;
    while decision != (Decision::Sleep { seconds: 60 }) {
        decision = match decision {
            Decision::ReadDescriptor { .. } => {
                engine.step(&Event::AccountData(descriptor_bytes([4u8; 32], 1)))
            }
            Decision::Submit { .. } => {
                relayed += 1;
                engine.step(&Event::Confirmed)
            }
            other => panic!("unexpected decision {:?}", other),
        };
    }
    assert_eq!(relayed, 2);
    assert_eq!(engine.step(&Event::Woke), Decision::Proceed);
    assert_eq!(engine.step(&Event::Tick), Decision::ReadWatchedAccount);
    assert_eq!(engine.step(&Event::AccountData(watched_bytes(7))), Decision::ReadCounterAccount);
    assert_eq!(
        engine.step(&Event::AccountData(counter_bytes(5 + relayed, 5 + relayed))),
        Decision::Sleep { seconds: 60 }
    );
}

#[test]
fn last_pending_counter_below_the_maximum_is_handled() {
    let mut engine = Engine {
        state: EngineState::Draining { next: u64::MAX - 1, end: u64::MAX },
        progress: RelayProgress { last_seen_destination_counter: None },
    };
    assert_eq!(engine.step(&Event::NotFound), Decision::Sleep { seconds: 60 });
    let mut odd = Engine {
        state: EngineState::Draining { next: u64::MAX, end: 3 },
        progress: RelayProgress { last_seen_destination_counter: None },
    };
    assert_eq!(odd.step(&Event::NotFound), Decision::Sleep { seconds: 60 });
}

#[test]
fn read_failures_abandon_the_pass() {
    let mut engine = Engine::new();
    engine.step(&Event::Tick);
    assert_eq!(
        engine.step(&Event::NotFound),
        Decision::Fail(RelayError::AccountMissing(Layout::WatchedAccount))
    );
    assert_eq!(engine.state, EngineState::Idle);

    engine.step(&Event::Tick);
    assert_eq!(engine.step(&Event::ConnectionError), Decision::Fail(RelayError::Connection));

    engine.step(&Event::Tick);
    engine.step(&Event::AccountData(watched_bytes(3)));
    assert_eq!(
        engine.step(&Event::NotFound),
        Decision::Fail(RelayError::AccountMissing(Layout::CounterAccount))
    );

    let (mut engine, _) = engine_after_counters(7, 5);
    assert_eq!(engine.step(&Event::ConnectionError), Decision::Fail(RelayError::Connection));
    assert_eq!(engine.state, EngineState::Idle);
}

#[test]
fn malformed_accounts_abandon_the_pass_with_the_layout() {
    let mut engine = Engine::new();
    engine.step(&Event::Tick);
    assert_eq!(
        engine.step(&Event::AccountData(vec![0u8; 15])),
        Decision::Fail(RelayError::Decode(DecodeError::TooShort {
            layout: Layout::WatchedAccount,
            expected: 16,
            actual: 15
        }))
    );
    engine.step(&Event::Tick);
    engine.step(&Event::AccountData(watched_bytes(3)));
    assert_eq!(
        engine.step(&Event::AccountData(vec![0u8; 23])),
        Decision::Fail(RelayError::Decode(DecodeError::TooShort {
            layout: Layout::CounterAccount,
            expected: 24,
            actual: 23
        }))
    );
    assert_eq!(engine.progress, RelayProgress { last_seen_destination_counter: None });
    let (mut engine, _) = engine_after_counters(7, 5);
    assert_eq!(
        engine.step(&Event::AccountData(vec![0u8; 86])),
        Decision::Fail(RelayError::Decode(DecodeError::TooShort {
            layout: Layout::TransferDescriptor,
            expected: 87,
            actual: 86
        }))
    );
    assert_eq!(engine.state, EngineState::Idle);
}

#[test]
fn events_nobody_waits_for_abandon_the_pass() {
    let mut engine = Engine::new();
    assert_eq!(engine.step(&Event::Confirmed), Decision::Fail(RelayError::UnexpectedEvent));
    assert_eq!(engine.state, EngineState::Idle);
    let mut engine = Engine {
        state: EngineState::Sleeping,
        progress: RelayProgress { last_seen_destination_counter: Some(1) },
    };
    assert_eq!(engine.step(&Event::Tick), Decision::Fail(RelayError::UnexpectedEvent));
    assert_eq!(engine.state, EngineState::Idle);
}
