use cobalt::bridge::{next_action, phase, step, Action, BridgeState, Event, Phase, WriteTarget};
use cobalt::value::TagValue;
use cobalt::words::RegisterPair;

/// Drives the machine through one event per entry, collecting the action
/// pending before each event.
fn drive(mut s: BridgeState, events: &[Event]) -> (Vec<Action>, BridgeState) {
    let mut actions = Vec::new();
    for e in events {
        actions.push(next_action(&s));
        s = step(s, *e);
    }
    (actions, s)
}

fn successful_cycle_events() -> Vec<Event> {
    vec![
        Event::RegistersRead(RegisterPair { first: 0x4120, second: 0x0000 }),
        Event::RegistersRead(RegisterPair { first: 0x447A, second: 0x0000 }),
        Event::TagRead(TagValue::Float32(0x40A0_0000)),
        Event::TagRead(TagValue::Float32(0x41A0_0000)),
        Event::Computed { corrected: 0x4700_1234 },
        Event::Written,
        Event::Written,
        Event::Reported,
        Event::Slept,
    ]
}

#[test]
fn successful_cycle_writes_then_reports() {
    // A cycle with all reads and writes succeeding issues exactly two
    // writes (raw rate, then corrected rate) and exactly one report, in
    // that order, then sleeps and polls again.
    let (actions, end) = drive(BridgeState::PollVelocity, &successful_cycle_events());
    assert_eq!(
        actions,
        vec![
            Action::ReadVelocityRegisters,
            Action::ReadRateRegisters,
            Action::ReadPressureTag,
            Action::ReadTemperatureTag,
            Action::Compute {
                velocity: 0x4120_0000,
                pressure: 0x40A0_0000,
                temperature: 0x41A0_0000,
            },
            Action::WriteTag {
                target: WriteTarget::RawRate,
                value: TagValue::Float32(0x447A_0000),
            },
            Action::WriteTag {
                target: WriteTarget::CorrectedRate,
                value: TagValue::Float32(0x4700_1234),
            },
            Action::EmitReport {
                velocity: 0x4120_0000,
                pressure: 0x40A0_0000,
                temperature: 0x41A0_0000,
                corrected: 0x4700_1234,
            },
            Action::Sleep,
        ]
    );
    assert_eq!(end, BridgeState::PollVelocity);
}

#[test]
fn pressure_read_failure_faults_without_writes() {
    // A read failure on the pressure tag faults the loop; no write is
    // issued for that cycle and the machine stays faulted.
    let events = [
        Event::RegistersRead(RegisterPair { first: 0x4120, second: 0x0000 }),
        Event::RegistersRead(RegisterPair { first: 0x447A, second: 0x0000 }),
        Event::ReadFailed,
    ];
    let (actions, end) = drive(BridgeState::PollVelocity, &events);
    assert_eq!(
        actions,
        vec![Action::ReadVelocityRegisters, Action::ReadRateRegisters, Action::ReadPressureTag]
    );
    assert!(actions.iter().all(|a| !matches!(a, Action::WriteTag { .. })));
    assert_eq!(end, BridgeState::Faulted);
    assert_eq!(next_action(&end), Action::Halt);
    // Absorbing: no later event revives the loop.
    let after = step(end, Event::Slept);
    assert_eq!(after, BridgeState::Faulted);
}

#[test]
fn write_failure_faults() {
    let mut events = successful_cycle_events();
    events[5] = Event::WriteFailed;
    let (actions, end) = drive(BridgeState::PollVelocity, &events[..6]);
    assert_eq!(end, BridgeState::Faulted);
    // Exactly one write was attempted before the fault.
    let writes: Vec<&Action> =
        actions.iter().filter(|a| matches!(a, Action::WriteTag { .. })).collect();
    assert_eq!(writes.len(), 1);
}

#[test]
fn repeated_cycles_are_idempotent() {
    // Two consecutive cycles with unchanging inputs drive bit-identical
    // actions.
    let events = successful_cycle_events();
    let (first_actions, mid) = drive(BridgeState::PollVelocity, &events);
    assert_eq!(mid, BridgeState::PollVelocity);
    let (second_actions, end) = drive(mid, &events);
    assert_eq!(first_actions, second_actions);
    assert_eq!(end, BridgeState::PollVelocity);
}

#[test]
fn wrong_typed_tag_read_faults() {
    // A pressure read that comes back as anything but a Float32 is a
    // malformed response and faults the loop.
    let events = [
        Event::RegistersRead(RegisterPair { first: 0, second: 0 }),
        Event::RegistersRead(RegisterPair { first: 0, second: 0 }),
        Event::TagRead(TagValue::Int16(5)),
    ];
    let (_, end) = drive(BridgeState::PollVelocity, &events);
    assert_eq!(end, BridgeState::Faulted);
}

#[test]
fn mismatched_event_faults() {
    // An event that does not answer the pending action is a protocol
    // violation by the driver and faults the machine.
    let end = step(BridgeState::PollVelocity, Event::Written);
    assert_eq!(end, BridgeState::Faulted);
}

#[test]
fn idle_starts_polling() {
    let s = step(BridgeState::Idle, Event::Started);
    assert_eq!(s, BridgeState::PollVelocity);
    assert_eq!(next_action(&BridgeState::Idle), Action::Start);
}

#[test]
fn phases_follow_the_cycle() {
    let events = successful_cycle_events();
    let mut s = BridgeState::Idle;
    assert_eq!(phase(&s), Phase::Idle);
    s = step(s, Event::Started);
    let expected = [
        Phase::Polling,
        Phase::Polling,
        Phase::Polling,
        Phase::Polling,
        Phase::Correcting,
        Phase::Writing,
        Phase::Writing,
        Phase::Reporting,
        Phase::Sleeping,
    ];
    for (e, want) in events.iter().zip(expected.iter()) {
        assert_eq!(phase(&s), *want);
        s = step(s, *e);
    }
    assert_eq!(phase(&s), Phase::Polling);
    assert_eq!(phase(&BridgeState::Faulted), Phase::Faulted);
}
