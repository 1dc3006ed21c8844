//! Cycle orchestrator.
//!
//! Once per fixed interval the bridge reads two register pairs from the
//! field instrument and two tags from the controller, corrects the decoded
//! flow rate to base conditions, writes the raw and corrected rates back
//! to the controller, and reports one status line. The orchestrator here
//! is that loop's decision core: a total step function from state and
//! event to the next state, together with the action pending in each
//! state. The embedding program performs each pending [`Action`] — a
//! protocol exchange, the floating-point correction, the status line, the
//! inter-cycle sleep — and feeds the outcome back as an [`Event`].
//!
//! Any failed read or write, and any response that does not match the
//! pending action, drives the machine into the absorbing [`Faulted`]
//! state, from which nothing further is asked of either bus.
//!
//! [`Faulted`]: BridgeState::Faulted

use vstd::prelude::*;
use crate::value::TagValue;
use crate::words::{combine_words, spec_combine, RegisterPair};

verus! {

/// The fixed inter-cycle interval, in milliseconds: how long the loop
/// suspends between one cycle's writes and the next cycle's reads.
pub const CYCLE_INTERVAL_MS: u64 = 500;

/// The phases of the loop: each cycle runs `Polling` through `Sleeping` in
/// order and returns to `Polling`; `Faulted` is absorbing.
#[derive(Clone, Copy, PartialEq, Eq, Structural, Debug)]
pub enum Phase {
    Idle,
    Polling,
    Correcting,
    Writing,
    Reporting,
    Sleeping,
    Faulted,
}

/// The two controller tags a cycle writes, in this order.
#[derive(Clone, Copy, PartialEq, Eq, Structural, Debug)]
pub enum WriteTarget {
    /// The rate as decoded from the instrument, in engineering units.
    RawRate,
    /// The rate corrected to base conditions.
    CorrectedRate,
}

/// One cycle's measurements. Every field is an IEEE-754 binary32 bit
/// pattern; a sample is produced fresh each cycle and never persisted.
#[derive(Clone, Copy, PartialEq, Eq, Structural, Debug)]
pub struct FlowSample {
    /// Flow velocity decoded from the instrument.
    pub velocity: u32,
    /// Volumetric rate decoded from the instrument.
    pub raw_rate: u32,
    /// Rate corrected to base conditions.
    pub corrected_rate: u32,
}

/// What the embedding program must do next. Values handed out are binary32
/// bit patterns; tag writes carry a typed [`TagValue`].
#[derive(Clone, Copy, PartialEq, Eq, Structural, Debug)]
pub enum Action {
    /// Begin the first cycle (both clients are connected).
    Start,
    /// Read the register pair holding the velocity.
    ReadVelocityRegisters,
    /// Read the register pair holding the raw rate.
    ReadRateRegisters,
    /// Read the pressure tag from the controller.
    ReadPressureTag,
    /// Read the temperature tag from the controller.
    ReadTemperatureTag,
    /// Correct the decoded velocity to a base-condition rate at the live
    /// pressure and temperature.
    Compute { velocity: u32, pressure: u32, temperature: u32 },
    /// Write one value to one of the two rate tags.
    WriteTag { target: WriteTarget, value: TagValue },
    /// Emit one status line with the cycle's four values.
    EmitReport { velocity: u32, pressure: u32, temperature: u32, corrected: u32 },
    /// Suspend for the fixed inter-cycle interval.
    Sleep,
    /// The loop has faulted: perform no further protocol work.
    Halt,
}

/// The outcome of a performed action, fed back into the machine.
#[derive(Clone, Copy, PartialEq, Eq, Structural, Debug)]
pub enum Event {
    /// The loop was started.
    Started,
    /// A register-pair read succeeded.
    RegistersRead(RegisterPair),
    /// A tag read succeeded with this value.
    TagRead(TagValue),
    /// A register or tag read failed.
    ReadFailed,
    /// The correction produced this binary32 pattern.
    Computed { corrected: u32 },
    /// A tag write succeeded.
    Written,
    /// A tag write failed.
    WriteFailed,
    /// The status line was emitted.
    Reported,
    /// The inter-cycle interval elapsed.
    Slept,
}

/// The orchestrator's state. The polling and writing phases carry the
/// values gathered so far, each as a binary32 bit pattern.
#[derive(Clone, Copy, PartialEq, Eq, Structural, Debug)]
pub enum BridgeState {
    /// Initial state, entered once both protocol clients are connected.
    Idle,
    /// Awaiting the velocity register pair.
    PollVelocity,
    /// Awaiting the raw-rate register pair.
    PollRate { velocity: u32 },
    /// Awaiting the pressure tag.
    PollPressure { velocity: u32, raw_rate: u32 },
    /// Awaiting the temperature tag.
    PollTemperature { velocity: u32, raw_rate: u32, pressure: u32 },
    /// Awaiting the corrected rate.
    Correcting { velocity: u32, raw_rate: u32, pressure: u32, temperature: u32 },
    /// Awaiting the raw-rate write.
    WriteRaw { sample: FlowSample, pressure: u32, temperature: u32 },
    /// Awaiting the corrected-rate write.
    WriteCorrected { sample: FlowSample, pressure: u32, temperature: u32 },
    /// Awaiting the status line.
    Reporting { sample: FlowSample, pressure: u32, temperature: u32 },
    /// Awaiting the inter-cycle interval.
    Sleeping,
    /// Absorbing failure state: no further cycles execute.
    Faulted,
}

/// The phase a state belongs to.
pub open spec fn spec_phase(s: BridgeState) -> Phase {
    match s {
        BridgeState::Idle => Phase::Idle,
        BridgeState::PollVelocity => Phase::Polling,
        BridgeState::PollRate { .. } => Phase::Polling,
        BridgeState::PollPressure { .. } => Phase::Polling,
        BridgeState::PollTemperature { .. } => Phase::Polling,
        BridgeState::Correcting { .. } => Phase::Correcting,
        BridgeState::WriteRaw { .. } => Phase::Writing,
        BridgeState::WriteCorrected { .. } => Phase::Writing,
        BridgeState::Reporting { .. } => Phase::Reporting,
        BridgeState::Sleeping => Phase::Sleeping,
        BridgeState::Faulted => Phase::Faulted,
    }
}

/// The action pending in a state.
pub open spec fn spec_action(s: BridgeState) -> Action {
    match s {
        BridgeState::Idle => Action::Start,
        BridgeState::PollVelocity => Action::ReadVelocityRegisters,
        BridgeState::PollRate { .. } => Action::ReadRateRegisters,
        BridgeState::PollPressure { .. } => Action::ReadPressureTag,
        BridgeState::PollTemperature { .. } => Action::ReadTemperatureTag,
        BridgeState::Correcting { velocity, pressure, temperature, .. } => Action::Compute {
            velocity,
            pressure,
            temperature,
        },
        BridgeState::WriteRaw { sample, .. } => Action::WriteTag {
            target: WriteTarget::RawRate,
            value: TagValue::Float32(sample.raw_rate),
        },
        BridgeState::WriteCorrected { sample, .. } => Action::WriteTag {
            target: WriteTarget::CorrectedRate,
            value: TagValue::Float32(sample.corrected_rate),
        },
        BridgeState::Reporting { sample, pressure, temperature } => Action::EmitReport {
            velocity: sample.velocity,
            pressure,
            temperature,
            corrected: sample.corrected_rate,
        },
        BridgeState::Sleeping => Action::Sleep,
        BridgeState::Faulted => Action::Halt,
    }
}

/// The transition table. An event that answers the pending action advances
/// the cycle; a failed read or write, a tag value of the wrong type, and
/// any event that does not answer the pending action fault the machine;
/// `Faulted` absorbs everything.
pub open spec fn spec_step(s: BridgeState, e: Event) -> BridgeState {
    match (s, e) {
        (BridgeState::Idle, Event::Started) => BridgeState::PollVelocity,
        (BridgeState::PollVelocity, Event::RegistersRead(pair)) => BridgeState::PollRate {
            velocity: spec_combine(pair.first, pair.second),
        },
        (BridgeState::PollRate { velocity }, Event::RegistersRead(pair)) =>
            BridgeState::PollPressure {
                velocity,
                raw_rate: spec_combine(pair.first, pair.second),
            },
        (
            BridgeState::PollPressure { velocity, raw_rate },
            Event::TagRead(TagValue::Float32(bits)),
        ) => BridgeState::PollTemperature { velocity, raw_rate, pressure: bits },
        (
            BridgeState::PollTemperature { velocity, raw_rate, pressure },
            Event::TagRead(TagValue::Float32(bits)),
        ) => BridgeState::Correcting { velocity, raw_rate, pressure, temperature: bits },
        (
            BridgeState::Correcting { velocity, raw_rate, pressure, temperature },
            Event::Computed { corrected },
        ) => BridgeState::WriteRaw {
            sample: FlowSample { velocity, raw_rate, corrected_rate: corrected },
            pressure,
            temperature,
        },
        (BridgeState::WriteRaw { sample, pressure, temperature }, Event::Written) =>
            BridgeState::WriteCorrected { sample, pressure, temperature },
        (BridgeState::WriteCorrected { sample, pressure, temperature }, Event::Written) =>
            BridgeState::Reporting { sample, pressure, temperature },
        (BridgeState::Reporting { .. }, Event::Reported) => BridgeState::Sleeping,
        (BridgeState::Sleeping, Event::Slept) => BridgeState::PollVelocity,
        _ => BridgeState::Faulted,
    }
}

/// Returns the action pending in a state.
pub fn next_action(s: &BridgeState) -> (a: Action)
    ensures
        a == spec_action(*s),
{
    match s {
        BridgeState::Idle => Action::Start,
        BridgeState::PollVelocity => Action::ReadVelocityRegisters,
        BridgeState::PollRate { .. } => Action::ReadRateRegisters,
        BridgeState::PollPressure { .. } => Action::ReadPressureTag,
        BridgeState::PollTemperature { .. } => Action::ReadTemperatureTag,
        BridgeState::Correcting { velocity, pressure, temperature, .. } => Action::Compute {
            velocity: *velocity,
            pressure: *pressure,
            temperature: *temperature,
        },
        BridgeState::WriteRaw { sample, .. } => Action::WriteTag {
            target: WriteTarget::RawRate,
            value: TagValue::Float32(sample.raw_rate),
        },
        BridgeState::WriteCorrected { sample, .. } => Action::WriteTag {
            target: WriteTarget::CorrectedRate,
            value: TagValue::Float32(sample.corrected_rate),
        },
        BridgeState::Reporting { sample, pressure, temperature } => Action::EmitReport {
            velocity: sample.velocity,
            pressure: *pressure,
            temperature: *temperature,
            corrected: sample.corrected_rate,
        },
        BridgeState::Sleeping => Action::Sleep,
        BridgeState::Faulted => Action::Halt,
    }
}

/// Returns the phase a state belongs to.
pub fn phase(s: &BridgeState) -> (p: Phase)
    ensures
        p == spec_phase(*s),
{
    match s {
        BridgeState::Idle => Phase::Idle,
        BridgeState::PollVelocity => Phase::Polling,
        BridgeState::PollRate { .. } => Phase::Polling,
        BridgeState::PollPressure { .. } => Phase::Polling,
        BridgeState::PollTemperature { .. } => Phase::Polling,
        BridgeState::Correcting { .. } => Phase::Correcting,
        BridgeState::WriteRaw { .. } => Phase::Writing,
        BridgeState::WriteCorrected { .. } => Phase::Writing,
        BridgeState::Reporting { .. } => Phase::Reporting,
        BridgeState::Sleeping => Phase::Sleeping,
        BridgeState::Faulted => Phase::Faulted,
    }
}

/// Advances the machine by one event, exactly as the transition table
/// [`spec_step`] says.
pub fn step(s: BridgeState, e: Event) -> (next: BridgeState)
    ensures
        next == spec_step(s, e),
{
    match (s, e) {
        (BridgeState::Idle, Event::Started) => BridgeState::PollVelocity,
        (BridgeState::PollVelocity, Event::RegistersRead(pair)) => BridgeState::PollRate {
            velocity: combine_words(pair),
        },
        (BridgeState::PollRate { velocity }, Event::RegistersRead(pair)) =>
            BridgeState::PollPressure {
                velocity,
                raw_rate: combine_words(pair),
            },
        (
            BridgeState::PollPressure { velocity, raw_rate },
            Event::TagRead(TagValue::Float32(bits)),
        ) => BridgeState::PollTemperature { velocity, raw_rate, pressure: bits },
        (
            BridgeState::PollTemperature { velocity, raw_rate, pressure },
            Event::TagRead(TagValue::Float32(bits)),
        ) => BridgeState::Correcting { velocity, raw_rate, pressure, temperature: bits },
        (
            BridgeState::Correcting { velocity, raw_rate, pressure, temperature },
            Event::Computed { corrected },
        ) => BridgeState::WriteRaw {
            sample: FlowSample { velocity, raw_rate, corrected_rate: corrected },
            pressure,
            temperature,
        },
        (BridgeState::WriteRaw { sample, pressure, temperature }, Event::Written) =>
            BridgeState::WriteCorrected { sample, pressure, temperature },
        (BridgeState::WriteCorrected { sample, pressure, temperature }, Event::Written) =>
            BridgeState::Reporting { sample, pressure, temperature },
        (BridgeState::Reporting { .. }, Event::Reported) => BridgeState::Sleeping,
        (BridgeState::Sleeping, Event::Slept) => BridgeState::PollVelocity,
        _ => BridgeState::Faulted,
    }
}

/// The state after a whole run of events.
pub open spec fn spec_run(s: BridgeState, events: Seq<Event>) -> BridgeState
    decreases events.len(),
{
    if events.len() == 0 {
        s
    } else {
        spec_run(spec_step(s, events.first()), events.drop_first())
    }
}

/// The actions a run performs: before each event, the action pending in
/// the state the event answers.
pub open spec fn spec_trace(s: BridgeState, events: Seq<Event>) -> Seq<Action>
    decreases events.len(),
{
    if events.len() == 0 {
        Seq::empty()
    } else {
        seq![spec_action(s)] + spec_trace(spec_step(s, events.first()), events.drop_first())
    }
}

/// Whether an action writes a controller tag.
pub open spec fn spec_is_write(a: Action) -> bool {
    a matches Action::WriteTag { .. }
}

/// One unfolding of a run: the head event is answered first.
pub proof fn lemma_run_step(s: BridgeState, e: Event, events: Seq<Event>)
    ensures
        spec_run(s, seq![e] + events) == spec_run(spec_step(s, e), events),
        spec_trace(s, seq![e] + events) == seq![spec_action(s)] + spec_trace(
            spec_step(s, e),
            events,
        ),
{
    assert((seq![e] + events).first() == e);
    assert((seq![e] + events).drop_first() =~= events);
}

/// Runs compose: answering `a` and then `b` is answering `a + b`.
pub proof fn lemma_run_append(s: BridgeState, a: Seq<Event>, b: Seq<Event>)
    ensures
        spec_run(s, a + b) == spec_run(spec_run(s, a), b),
    decreases a.len(),
{
    if a.len() == 0 {
        assert(a + b =~= b);
    } else {
        assert((a + b).first() == a.first());
        assert((a + b).drop_first() =~= a.drop_first() + b);
        lemma_run_append(spec_step(s, a.first()), a.drop_first(), b);
    }
}

/// Traces compose the same way runs do.
pub proof fn lemma_trace_append(s: BridgeState, a: Seq<Event>, b: Seq<Event>)
    ensures
        spec_trace(s, a + b) == spec_trace(s, a) + spec_trace(spec_run(s, a), b),
    decreases a.len(),
{
    if a.len() == 0 {
        assert(a + b =~= b);
        assert(spec_trace(s, a) + spec_trace(s, b) =~= spec_trace(s, b));
    } else {
        assert((a + b).first() == a.first());
        assert((a + b).drop_first() =~= a.drop_first() + b);
        let s1 = spec_step(s, a.first());
        lemma_trace_append(s1, a.drop_first(), b);
        assert(spec_trace(s, a + b) =~= spec_trace(s, a) + spec_trace(spec_run(s, a), b));
    }
}

/// A failed read in any polling state faults the loop.
pub proof fn lemma_read_failure_faults(s: BridgeState)
    requires
        spec_phase(s) == Phase::Polling,
    ensures
        spec_step(s, Event::ReadFailed) == BridgeState::Faulted,
{
}

/// A failed write in either writing state faults the loop.
pub proof fn lemma_write_failure_faults(s: BridgeState)
    requires
        spec_phase(s) == Phase::Writing,
    ensures
        spec_step(s, Event::WriteFailed) == BridgeState::Faulted,
{
}

/// `Faulted` is absorbing: no event leaves it, and its only pending action
/// is to halt, so a faulted loop never asks for another read, write, or
/// report.
pub proof fn lemma_faulted_absorbing(e: Event)
    ensures
        spec_step(BridgeState::Faulted, e) == BridgeState::Faulted,
        spec_action(BridgeState::Faulted) == Action::Halt,
{
}

/// A cycle whose pressure-tag read fails transitions the loop to `Faulted`
/// without issuing any write for that cycle: the cycle's only actions are
/// its three reads.
pub proof fn lemma_pressure_read_failure_faults(velocity: RegisterPair, raw_rate: RegisterPair)
    ensures
        ({
            let events = seq![
                Event::RegistersRead(velocity),
                Event::RegistersRead(raw_rate),
                Event::ReadFailed,
            ];
            let actions = spec_trace(BridgeState::PollVelocity, events);
            &&& spec_run(BridgeState::PollVelocity, events) == BridgeState::Faulted
            &&& actions == seq![
                Action::ReadVelocityRegisters,
                Action::ReadRateRegisters,
                Action::ReadPressureTag,
            ]
            &&& forall|i: int| 0 <= i < actions.len() ==> !spec_is_write(#[trigger] actions[i])
        }),
{
    let e0 = Event::RegistersRead(velocity);
    let e1 = Event::RegistersRead(raw_rate);
    let e2 = Event::ReadFailed;
    let s0 = BridgeState::PollVelocity;
    let s1 = spec_step(s0, e0);
    let s2 = spec_step(s1, e1);
    assert(seq![e0, e1, e2] =~= seq![e0] + seq![e1, e2]);
    lemma_run_step(s0, e0, seq![e1, e2]);
    assert(seq![e1, e2] =~= seq![e1] + seq![e2]);
    lemma_run_step(s1, e1, seq![e2]);
    lemma_run_step(s2, e2, Seq::empty());
    assert(seq![e2] =~= seq![e2] + Seq::<Event>::empty());
    assert(spec_trace(BridgeState::PollVelocity, seq![e0, e1, e2]) =~= seq![
        Action::ReadVelocityRegisters,
        Action::ReadRateRegisters,
        Action::ReadPressureTag,
    ]);
}

/// The events of one fully successful cycle, in the order the loop asks
/// for them.
pub open spec fn spec_cycle_events(
    velocity: RegisterPair,
    raw_rate: RegisterPair,
    pressure: u32,
    temperature: u32,
    corrected: u32,
) -> Seq<Event> {
    seq![
        Event::RegistersRead(velocity),
        Event::RegistersRead(raw_rate),
        Event::TagRead(TagValue::Float32(pressure)),
        Event::TagRead(TagValue::Float32(temperature)),
        Event::Computed { corrected },
        Event::Written,
        Event::Written,
        Event::Reported,
        Event::Slept,
    ]
}

/// A cycle in which every read and write succeeds issues exactly two tag
/// writes — the raw rate first, the corrected rate second — and exactly
/// one status report, after the writes; the loop then sleeps and returns
/// to polling.
pub proof fn lemma_successful_cycle(
    velocity: RegisterPair,
    raw_rate: RegisterPair,
    pressure: u32,
    temperature: u32,
    corrected: u32,
)
    ensures
        ({
            let events = spec_cycle_events(velocity, raw_rate, pressure, temperature, corrected);
            let v = spec_combine(velocity.first, velocity.second);
            let q = spec_combine(raw_rate.first, raw_rate.second);
            &&& spec_run(BridgeState::PollVelocity, events) == BridgeState::PollVelocity
            &&& spec_trace(BridgeState::PollVelocity, events) == seq![
                Action::ReadVelocityRegisters,
                Action::ReadRateRegisters,
                Action::ReadPressureTag,
                Action::ReadTemperatureTag,
                Action::Compute { velocity: v, pressure, temperature },
                Action::WriteTag {
                    target: WriteTarget::RawRate,
                    value: TagValue::Float32(q),
                },
                Action::WriteTag {
                    target: WriteTarget::CorrectedRate,
                    value: TagValue::Float32(corrected),
                },
                Action::EmitReport { velocity: v, pressure, temperature, corrected },
                Action::Sleep,
            ]
        }),
{
    let e0 = Event::RegistersRead(velocity);
    let e1 = Event::RegistersRead(raw_rate);
    let e2 = Event::TagRead(TagValue::Float32(pressure));
    let e3 = Event::TagRead(TagValue::Float32(temperature));
    let e4 = Event::Computed { corrected };
    let e5 = Event::Written;
    let e6 = Event::Written;
    let e7 = Event::Reported;
    let e8 = Event::Slept;
    let s0 = BridgeState::PollVelocity;
    let s1 = spec_step(s0, e0);
    let s2 = spec_step(s1, e1);
    let s3 = spec_step(s2, e2);
    let s4 = spec_step(s3, e3);
    let s5 = spec_step(s4, e4);
    let s6 = spec_step(s5, e5);
    let s7 = spec_step(s6, e6);
    let s8 = spec_step(s7, e7);
    assert(seq![e0, e1, e2, e3, e4, e5, e6, e7, e8] =~= seq![e0] + seq![
        e1,
        e2,
        e3,
        e4,
        e5,
        e6,
        e7,
        e8,
    ]);
    lemma_run_step(s0, e0, seq![e1, e2, e3, e4, e5, e6, e7, e8]);
    assert(seq![e1, e2, e3, e4, e5, e6, e7, e8] =~= seq![e1] + seq![e2, e3, e4, e5, e6, e7, e8]);
    lemma_run_step(s1, e1, seq![e2, e3, e4, e5, e6, e7, e8]);
    assert(seq![e2, e3, e4, e5, e6, e7, e8] =~= seq![e2] + seq![e3, e4, e5, e6, e7, e8]);
    lemma_run_step(s2, e2, seq![e3, e4, e5, e6, e7, e8]);
    assert(seq![e3, e4, e5, e6, e7, e8] =~= seq![e3] + seq![e4, e5, e6, e7, e8]);
    lemma_run_step(s3, e3, seq![e4, e5, e6, e7, e8]);
    assert(seq![e4, e5, e6, e7, e8] =~= seq![e4] + seq![e5, e6, e7, e8]);
    lemma_run_step(s4, e4, seq![e5, e6, e7, e8]);
    assert(seq![e5, e6, e7, e8] =~= seq![e5] + seq![e6, e7, e8]);
    lemma_run_step(s5, e5, seq![e6, e7, e8]);
    assert(seq![e6, e7, e8] =~= seq![e6] + seq![e7, e8]);
    lemma_run_step(s6, e6, seq![e7, e8]);
    assert(seq![e7, e8] =~= seq![e7] + seq![e8]);
    lemma_run_step(s7, e7, seq![e8]);
    assert(seq![e8] =~= seq![e8] + Seq::<Event>::empty());
    lemma_run_step(s8, e8, Seq::empty());
    let v = spec_combine(velocity.first, velocity.second);
    let q = spec_combine(raw_rate.first, raw_rate.second);
    assert(spec_trace(s0, seq![e0, e1, e2, e3, e4, e5, e6, e7, e8]) =~= seq![
        Action::ReadVelocityRegisters,
        Action::ReadRateRegisters,
        Action::ReadPressureTag,
        Action::ReadTemperatureTag,
        Action::Compute { velocity: v, pressure, temperature },
        Action::WriteTag { target: WriteTarget::RawRate, value: TagValue::Float32(q) },
        Action::WriteTag { target: WriteTarget::CorrectedRate, value: TagValue::Float32(corrected) },
        Action::EmitReport { velocity: v, pressure, temperature, corrected },
        Action::Sleep,
    ]);
}

/// Repeated cycles with unchanging inputs produce unchanging outputs: a
/// block of events that returns the machine to its starting state drives,
/// when replayed, exactly the same actions again. With
/// [`lemma_successful_cycle`] this makes consecutive identical cycles
/// bit-identical in what they write and report.
pub proof fn lemma_constant_inputs_idempotent(s: BridgeState, events: Seq<Event>)
    requires
        spec_run(s, events) == s,
    ensures
        spec_run(s, events + events) == s,
        spec_trace(s, events + events) == spec_trace(s, events) + spec_trace(s, events),
{
    lemma_run_append(s, events, events);
    lemma_trace_append(s, events, events);
}

/// Two consecutive successful cycles that see the same instrument and
/// controller values drive bit-identical actions, and leave the machine
/// polling again: idempotence under constant input, for the bridge's own
/// cycle.
pub proof fn lemma_repeated_cycle(
    velocity: RegisterPair,
    raw_rate: RegisterPair,
    pressure: u32,
    temperature: u32,
    corrected: u32,
)
    ensures
        ({
            let events = spec_cycle_events(velocity, raw_rate, pressure, temperature, corrected);
            let s = BridgeState::PollVelocity;
            &&& spec_run(s, events + events) == s
            &&& spec_trace(s, events + events) == spec_trace(s, events) + spec_trace(s, events)
        }),
{
    let events = spec_cycle_events(velocity, raw_rate, pressure, temperature, corrected);
    lemma_successful_cycle(velocity, raw_rate, pressure, temperature, corrected);
    lemma_constant_inputs_idempotent(BridgeState::PollVelocity, events);
}

} // verus!
