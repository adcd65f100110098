//! The two-phase register transaction: write the command, wait the settle
//! delay, read the response, decode it. A [`Transaction`] prescribes one
//! [`Action`] at a time; the caller performs it against the bus and timer
//! and reports the outcome back as an [`Event`]. The contracts pin the
//! order down: the read is never prescribed before the write succeeded and
//! the delay fully elapsed, and a transport failure ends the attempt at
//! once.

use vstd::prelude::*;
use crate::codec::{decode_of, decode_response, Reading};
use crate::protocol::{Channel, RegisterCommand, SETTLE_DELAY_MS};

verus! {

/// Where a measurement attempt failed: at the command write or at the
/// response read. The transport's own error value travels outside the core,
/// alongside this classification.
#[derive(Clone, Copy, PartialEq, Eq, Structural, Debug)]
pub enum SensorError {
    WriteFailed,
    ReadFailed,
}

/// The outcome the caller reports for the step the transaction prescribed.
#[derive(Clone, PartialEq, Debug)]
pub enum Event {
    /// The command write completed successfully.
    WriteOk,
    /// The command write failed at the transport.
    WriteError,
    /// The settle delay fully elapsed.
    DelayElapsed,
    /// The response read filled the whole buffer; the bytes read.
    ReadOk(Vec<u8>),
    /// The response read failed or came up short at the transport.
    ReadError,
}

/// The single bus or timer step the caller must perform next, or the final
/// outcome of the attempt.
#[derive(Clone, Copy, PartialEq, Debug)]
pub enum Action {
    /// Write the two command bytes `[base, sub]` to the device.
    Write(RegisterCommand),
    /// Block for this many milliseconds.
    Wait(u64),
    /// Read exactly this many response bytes from the device.
    Read(usize),
    /// The attempt is over; nothing further may be performed.
    Finish(Result<Reading, SensorError>),
}

/// Progress of one register transaction. No state persists between
/// transactions: every measurement starts a fresh one at `Idle`.
#[derive(Clone, Copy, PartialEq, Debug)]
pub enum Phase {
    /// Nothing issued yet; the command write is owed.
    Idle,
    /// The command write succeeded; the settle delay is owed.
    CommandSent,
    /// The settle delay fully elapsed; the response read is owed.
    Settled,
    /// The response was read in full and decoded.
    Decoded(Reading),
    /// The transport failed at the recorded stage; no value was produced.
    Failed(SensorError),
}

/// Whether the given event may be reported at the given phase: each phase
/// accepts only the outcomes of the one step it prescribed, a full response
/// must match the channel's exact length, and a finished transaction
/// accepts nothing.
pub open spec fn step_allowed(channel: Channel, phase: Phase, event: Event) -> bool {
    match (phase, event) {
        (Phase::Idle, Event::WriteOk) => true,
        (Phase::Idle, Event::WriteError) => true,
        (Phase::CommandSent, Event::DelayElapsed) => true,
        (Phase::Settled, Event::ReadOk(bytes)) => bytes@.len() == channel.spec_response_len(),
        (Phase::Settled, Event::ReadError) => true,
        _ => false,
    }
}

/// The phase after one permitted event.
pub open spec fn step(channel: Channel, phase: Phase, event: Event) -> Phase
    recommends
        step_allowed(channel, phase, event),
{
    match (phase, event) {
        (Phase::Idle, Event::WriteOk) => Phase::CommandSent,
        (Phase::Idle, Event::WriteError) => Phase::Failed(SensorError::WriteFailed),
        (Phase::CommandSent, Event::DelayElapsed) => Phase::Settled,
        (Phase::Settled, Event::ReadOk(bytes)) => Phase::Decoded(decode_of(channel, bytes@)),
        (Phase::Settled, Event::ReadError) => Phase::Failed(SensorError::ReadFailed),
        _ => phase,
    }
}

/// The step a phase prescribes.
pub open spec fn prescribed_action(channel: Channel, phase: Phase) -> Action {
    match phase {
        Phase::Idle => Action::Write(channel.spec_command()),
        Phase::CommandSent => Action::Wait(SETTLE_DELAY_MS),
        Phase::Settled => Action::Read(channel.spec_response_len()),
        Phase::Decoded(r) => Action::Finish(Ok(r)),
        Phase::Failed(e) => Action::Finish(Err(e)),
    }
}

/// The phase after feeding a sequence of events, first event first.
pub open spec fn run(channel: Channel, phase: Phase, events: Seq<Event>) -> Phase
    decreases events.len(),
{
    if events.len() == 0 {
        phase
    } else {
        run(channel, step(channel, phase, events[0]), events.skip(1))
    }
}

/// Whether every event of the sequence is permitted at the phase it meets.
pub open spec fn run_allowed(channel: Channel, phase: Phase, events: Seq<Event>) -> bool
    decreases events.len(),
{
    events.len() == 0 || (step_allowed(channel, phase, events[0]) && run_allowed(
        channel,
        step(channel, phase, events[0]),
        events.skip(1),
    ))
}

/// The event sequence of a fully successful transaction whose response read
/// returned the given bytes.
pub open spec fn successful_run(bytes: Vec<u8>) -> Seq<Event> {
    seq![Event::WriteOk, Event::DelayElapsed, Event::ReadOk(bytes)]
}

/// One in-flight register transaction on one channel.
pub struct Transaction {
    channel: Channel,
    phase: Phase,
}

impl Transaction {
    /// The channel this transaction measures.
    pub closed spec fn spec_channel(self) -> Channel {
        self.channel
    }

    /// The current phase.
    pub closed spec fn spec_phase(self) -> Phase {
        self.phase
    }

    /// Starts a fresh transaction: nothing has been issued, and the command
    /// write is the first step owed.
    pub fn new(channel: Channel) -> (t: Self)
        ensures
            t.spec_channel() == channel,
            t.spec_phase() == Phase::Idle,
    {
        Transaction { channel, phase: Phase::Idle }
    }

    /// The channel this transaction measures.
    pub fn channel(&self) -> (c: Channel)
        ensures
            c == self.spec_channel(),
    {
        self.channel
    }

    /// The step the caller must perform next: exactly the action the
    /// current phase prescribes.
    pub fn next_action(&self) -> (a: Action)
        ensures
            a == prescribed_action(self.spec_channel(), self.spec_phase()),
    {
        match &self.phase {
            Phase::Idle => Action::Write(self.channel.command()),
            Phase::CommandSent => Action::Wait(SETTLE_DELAY_MS),
            Phase::Settled => Action::Read(self.channel.response_len()),
            Phase::Decoded(r) => Action::Finish(Ok(*r)),
            Phase::Failed(e) => Action::Finish(Err(*e)),
        }
    }

    /// Reports the outcome of the prescribed step. Only an outcome the
    /// current phase permits may be reported; the transaction then moves
    /// exactly as the transition relation says, and its channel never
    /// changes.
    pub fn handle(&mut self, event: Event)
        requires
            step_allowed(old(self).spec_channel(), old(self).spec_phase(), event),
        ensures
            final(self).spec_channel() == old(self).spec_channel(),
            final(self).spec_phase() == step(
                old(self).spec_channel(),
                old(self).spec_phase(),
                event,
            ),
    {
        match event {
            Event::WriteOk => {
                self.phase = Phase::CommandSent;
            },
            Event::WriteError => {
                self.phase = Phase::Failed(SensorError::WriteFailed);
            },
            Event::DelayElapsed => {
                self.phase = Phase::Settled;
            },
            Event::ReadOk(bytes) => {
                let reading = decode_response(self.channel, &bytes);
                self.phase = Phase::Decoded(reading);
            },
            Event::ReadError => {
                self.phase = Phase::Failed(SensorError::ReadFailed);
            },
        }
    }
}

/// A finished transaction accepts no further event: the only permitted
/// event sequence from a decoded or failed phase is the empty one.
pub proof fn lemma_finished_accepts_nothing(channel: Channel, phase: Phase, events: Seq<Event>)
    requires
        run_allowed(channel, phase, events),
        phase is Decoded || phase is Failed,
    ensures
        events.len() == 0,
        run(channel, phase, events) == phase,
{
    if events.len() > 0 {
        assert(!step_allowed(channel, phase, events[0]));
    }
}

/// Before the response read is prescribed, the command write must have
/// succeeded and the settle delay must have fully elapsed, in that order:
/// the only permitted event sequence that brings a fresh transaction to the
/// phase that owes the read is a successful write followed by the elapsed
/// delay.
pub proof fn lemma_read_requires_write_then_delay(channel: Channel, events: Seq<Event>)
    requires
        run_allowed(channel, Phase::Idle, events),
        run(channel, Phase::Idle, events) is Settled,
    ensures
        events =~= seq![Event::WriteOk, Event::DelayElapsed],
{
    assert(events.len() > 0);
    let e0 = events[0];
    let rest = events.skip(1);
    if e0 is WriteError {
        lemma_finished_accepts_nothing(channel, Phase::Failed(SensorError::WriteFailed), rest);
        assert(false);
    } else {
        assert(e0 is WriteOk);
        assert(run_allowed(channel, Phase::CommandSent, rest));
        assert(run(channel, Phase::CommandSent, rest) is Settled);
        assert(rest.len() > 0);
        assert(rest[0] is DelayElapsed);
        let rest2 = rest.skip(1);
        assert(run_allowed(channel, Phase::Settled, rest2));
        assert(run(channel, Phase::Settled, rest2) is Settled);
        if rest2.len() > 0 {
            let p2 = step(channel, Phase::Settled, rest2[0]);
            assert(p2 is Decoded || p2 is Failed);
            lemma_finished_accepts_nothing(channel, p2, rest2.skip(1));
            assert(false);
        }
        assert(events.len() == 2);
        assert(events[1] == rest[0]);
    }
}

/// A transport failure at the write step ends the attempt at once: no later
/// event — in particular no read — is permitted, and the outcome is the
/// write-stage failure with no value produced.
pub proof fn lemma_write_failure_prevents_read(channel: Channel, events: Seq<Event>)
    requires
        run_allowed(channel, Phase::Idle, events),
        events.len() >= 1,
        events[0] == Event::WriteError,
    ensures
        events.len() == 1,
        run(channel, Phase::Idle, events) == Phase::Failed(SensorError::WriteFailed),
{
    lemma_finished_accepts_nothing(
        channel,
        Phase::Failed(SensorError::WriteFailed),
        events.skip(1),
    );
}

/// A transport failure at the read step can only come after the write
/// succeeded and the delay elapsed, and it surfaces as the read-stage
/// failure — distinct from the write-stage one and from any decoded value.
pub proof fn lemma_read_failure_follows_successful_write(channel: Channel, events: Seq<Event>)
    requires
        run_allowed(channel, Phase::Idle, events),
        exists|i: int| 0 <= i < events.len() && events[i] == Event::ReadError,
    ensures
        events =~= seq![Event::WriteOk, Event::DelayElapsed, Event::ReadError],
        run(channel, Phase::Idle, events) == Phase::Failed(SensorError::ReadFailed),
{
    let i = choose|i: int| 0 <= i < events.len() && events[i] == Event::ReadError;
    assert(events.len() > 0);
    let e0 = events[0];
    let rest = events.skip(1);
    if e0 is WriteError {
        lemma_finished_accepts_nothing(channel, Phase::Failed(SensorError::WriteFailed), rest);
        assert(events.len() == 1);
        assert(false);
    } else {
        assert(e0 is WriteOk);
        assert(run_allowed(channel, Phase::CommandSent, rest));
        assert(rest.len() > 0) by {
            if rest.len() == 0 {
                assert(events.len() == 1);
                assert(false);
            }
        }
        assert(rest[0] is DelayElapsed);
        let rest2 = rest.skip(1);
        assert(run_allowed(channel, Phase::Settled, rest2));
        assert(rest2.len() > 0) by {
            if rest2.len() == 0 {
                assert(events.len() == 2);
                assert(events[1] == rest[0]);
                assert(false);
            }
        }
        let e2 = rest2[0];
        let p2 = step(channel, Phase::Settled, e2);
        assert(p2 is Decoded || p2 is Failed);
        lemma_finished_accepts_nothing(channel, p2, rest2.skip(1));
        assert(events.len() == 3);
        assert(events[1] == rest[0]);
        assert(events[2] == rest2[0]);
        assert(e2 is ReadError) by {
            if !(e2 is ReadError) {
                assert(e2 is ReadOk);
                assert(i == 2);
                assert(false);
            }
        }
        assert(step(channel, Phase::Settled, e2) == Phase::Failed(SensorError::ReadFailed));
        assert(run(channel, Phase::Idle, events) == run(channel, Phase::CommandSent, rest));
        assert(run(channel, Phase::CommandSent, rest) == run(channel, Phase::Settled, rest2));
        assert(run(channel, Phase::Settled, rest2) == run(
            channel,
            Phase::Failed(SensorError::ReadFailed),
            rest2.skip(1),
        ));
    }
}

/// The outcome of a completed transaction is a function of the channel and
/// of that transaction's own response bytes alone. Driving two fresh
/// transactions to completion with different injected response bytes
/// decodes each independently: no value from the first can reach the
/// second, because no state persists between runs.
pub proof fn lemma_consecutive_reads_independent(channel: Channel, first: Vec<u8>, second: Vec<u8>)
    requires
        first@.len() == channel.spec_response_len(),
        second@.len() == channel.spec_response_len(),
    ensures
        run_allowed(channel, Phase::Idle, successful_run(first)),
        run(channel, Phase::Idle, successful_run(first)) == Phase::Decoded(
            decode_of(channel, first@),
        ),
        run_allowed(channel, Phase::Idle, successful_run(second)),
        run(channel, Phase::Idle, successful_run(second)) == Phase::Decoded(
            decode_of(channel, second@),
        ),
{
    lemma_successful_run_decodes(channel, first);
    lemma_successful_run_decodes(channel, second);
}

/// A fully successful run from a fresh transaction ends decoded, with
/// exactly the decode of the bytes its own read returned.
pub proof fn lemma_successful_run_decodes(channel: Channel, bytes: Vec<u8>)
    requires
        bytes@.len() == channel.spec_response_len(),
    ensures
        run_allowed(channel, Phase::Idle, successful_run(bytes)),
        run(channel, Phase::Idle, successful_run(bytes)) == Phase::Decoded(
            decode_of(channel, bytes@),
        ),
{
    let s = successful_run(bytes);
    let s1 = s.skip(1);
    let s2 = s1.skip(1);
    let s3 = s2.skip(1);
    assert(s1 =~= seq![Event::DelayElapsed, Event::ReadOk(bytes)]);
    assert(s2 =~= seq![Event::ReadOk(bytes)]);
    assert(s3 =~= Seq::<Event>::empty());
    let decoded = Phase::Decoded(decode_of(channel, bytes@));
    assert(step(channel, Phase::Idle, s[0]) == Phase::CommandSent);
    assert(step(channel, Phase::CommandSent, s1[0]) == Phase::Settled);
    assert(step(channel, Phase::Settled, s2[0]) == decoded);
    assert(run(channel, Phase::Idle, s) == run(channel, Phase::CommandSent, s1));
    assert(run(channel, Phase::CommandSent, s1) == run(channel, Phase::Settled, s2));
    assert(run(channel, Phase::Settled, s2) == run(channel, decoded, s3));
    assert(run(channel, decoded, s3) == decoded);
    assert(run_allowed(channel, decoded, s3));
    assert(run_allowed(channel, Phase::Settled, s2));
    assert(run_allowed(channel, Phase::CommandSent, s1));
    assert(run_allowed(channel, Phase::Idle, s));
}

} // verus!
