//! The echo worker: what the server does with each datagram.
//!
//! The worker itself touches no socket and no clock. It is a state machine:
//! it tells its driver what to do next, and the driver reports back what
//! came of it. One exchange runs
//! `WaitForDatagram -> Reply -> RecordSample -> WaitForDatagram`;
//! a failed receive ends the worker.

use vstd::prelude::*;
use crate::ipv4::IpAddress;
use crate::metric::Metric;

verus! {

/// Size in bytes of the buffer that a datagram is received into.
pub const RECEIVE_BUFFER_SIZE: usize = 2048;

/// The reply to every datagram: the six bytes `PONG\r\n`.
pub const REPLY: [u8; 6] = [0x50, 0x4f, 0x4e, 0x47, 0x0d, 0x0a];

/// The address and port of a UDP peer.
#[derive(Clone, Copy, Debug, PartialEq, Eq, Hash, Structural)]
pub struct Endpoint {
    pub addr: IpAddress,
    pub port: u16,
}

/// One latency measurement: two readings of the clock source and the metric
/// that they count for.
#[derive(Clone, Copy, Debug, PartialEq, Eq, Hash, Structural)]
pub struct Sample {
    /// The clock when the datagram had arrived.
    pub start: u64,
    /// The clock when the reply had been handed to the stack.
    pub end: u64,
    pub metric: Metric,
}

/// Where the worker stands.
#[derive(Clone, Copy, Debug, PartialEq, Eq, Hash, Structural)]
pub enum WorkerState {
    /// A receive is under way.
    WaitForDatagram,
    /// A datagram came in at `start`; the reply to its sender is under way.
    Reply { start: u64 },
    /// The sample of the exchange is being handed to the collector.
    RecordSample,
    /// A receive failed. The worker does nothing any more.
    Terminated,
}

/// What the driver reports to the worker.
#[derive(Clone, Copy, Debug, PartialEq, Eq, Hash, Structural)]
pub enum WorkerEvent {
    /// A datagram of `length` bytes arrived from `peer`; right after, the
    /// clock read `clock`.
    Datagram { length: usize, peer: Endpoint, clock: u64 },
    /// The receive failed.
    ReceiveFailed,
    /// The send has returned, with or without success; right after, the
    /// clock read `clock`.
    ReplyDone { delivered: bool, clock: u64 },
    /// The sample was offered to the collector, which took it or did not.
    SampleOffered { accepted: bool },
}

/// What the worker asks of its driver.
#[derive(Clone, Copy, Debug, PartialEq, Eq, Hash)]
pub enum WorkerAction {
    /// Wait for the next datagram, with a buffer of `capacity` bytes.
    Receive { capacity: usize },
    /// Send `payload` to `peer`, once, and do not retry.
    SendReply { peer: Endpoint, payload: [u8; 6] },
    /// Offer `sample` to the collector.
    Record { sample: Sample },
    /// Stop driving the worker.
    Stop,
}

/// The receive that opens every exchange.
pub open spec fn receive_action() -> WorkerAction {
    WorkerAction::Receive { capacity: RECEIVE_BUFFER_SIZE }
}

/// The worker's transition: the state after `event` and the action it asks
/// for. An event that does not answer the action last asked for ends the
/// worker, as a failed receive does.
pub open spec fn spec_step(state: WorkerState, event: WorkerEvent) -> (WorkerState, WorkerAction) {
    match (state, event) {
        (WorkerState::WaitForDatagram, WorkerEvent::Datagram { length, peer, clock }) => (
            WorkerState::Reply { start: clock },
            WorkerAction::SendReply { peer, payload: REPLY },
        ),
        (WorkerState::Reply { start }, WorkerEvent::ReplyDone { delivered, clock }) => (
            WorkerState::RecordSample,
            WorkerAction::Record { sample: Sample { start, end: clock, metric: Metric::Okay } },
        ),
        (WorkerState::RecordSample, WorkerEvent::SampleOffered { accepted }) => (
            WorkerState::WaitForDatagram,
            receive_action(),
        ),
        _ => (WorkerState::Terminated, WorkerAction::Stop),
    }
}

/// The state in which the worker starts and the first thing it asks for.
pub fn start() -> (begin: (WorkerState, WorkerAction))
    ensures
        begin == (WorkerState::WaitForDatagram, receive_action()),
{
    (WorkerState::WaitForDatagram, WorkerAction::Receive { capacity: RECEIVE_BUFFER_SIZE })
}

/// Takes the driver's report and says what comes next.
///
/// The reply does not depend on the datagram's length or content, and a
/// reply that could not be sent is recorded like one that was.
pub fn step(state: WorkerState, event: WorkerEvent) -> (next: (WorkerState, WorkerAction))
    ensures
        next == spec_step(state, event),
{
    match (state, event) {
        (WorkerState::WaitForDatagram, WorkerEvent::Datagram { length, peer, clock }) => (
            WorkerState::Reply { start: clock },
            WorkerAction::SendReply { peer, payload: REPLY },
        ),
        (WorkerState::Reply { start }, WorkerEvent::ReplyDone { delivered, clock }) => (
            WorkerState::RecordSample,
            WorkerAction::Record { sample: Sample { start, end: clock, metric: Metric::Okay } },
        ),
        (WorkerState::RecordSample, WorkerEvent::SampleOffered { accepted }) => (
            WorkerState::WaitForDatagram,
            WorkerAction::Receive { capacity: RECEIVE_BUFFER_SIZE },
        ),
        _ => (WorkerState::Terminated, WorkerAction::Stop),
    }
}

/// Where the worker stands after a sequence of reports, and all that it
/// asked for on the way, in order.
pub open spec fn run(state: WorkerState, events: Seq<WorkerEvent>) -> (WorkerState, Seq<WorkerAction>)
    decreases events.len(),
{
    if events.len() == 0 {
        (state, Seq::empty())
    } else {
        let (before, asked) = run(state, events.drop_last());
        let (after, action) = spec_step(before, events.last());
        (after, asked.push(action))
    }
}

/// Runs the worker over a recorded sequence of reports.
pub fn replay(state: WorkerState, events: &Vec<WorkerEvent>) -> (end: (WorkerState, Vec<WorkerAction>))
    ensures
        end.0 == run(state, events@).0,
        end.1@ == run(state, events@).1,
{
    let mut current = state;
    let mut asked: Vec<WorkerAction> = Vec::new();
    let mut i: usize = 0;
    while i < events.len()
        invariant
            i <= events.len(),
            current == run(state, events@.subrange(0, i as int)).0,
            asked@ == run(state, events@.subrange(0, i as int)).1,
        decreases events.len() - i,
    {
        proof {
            let longer = events@.subrange(0, i + 1);
            assert(longer.drop_last() =~= events@.subrange(0, i as int));
            assert(longer.last() == events@[i as int]);
        }
        let (next, action) = step(current, events[i]);
        current = next;
        asked.push(action);
        i = i + 1;
    }
    proof {
        assert(events@.subrange(0, i as int) =~= events@);
    }
    (current, asked)
}

/// One datagram's worth of reports, from arrival to the offered sample.
pub struct Exchange {
    /// Length of the datagram.
    pub length: usize,
    /// Who sent it.
    pub peer: Endpoint,
    /// The clock right after it arrived.
    pub received_at: u64,
    /// Whether the reply could be sent.
    pub delivered: bool,
    /// The clock right after the send returned.
    pub replied_at: u64,
    /// Whether the collector took the sample.
    pub accepted: bool,
}

impl Exchange {
    /// The three reports that make up the exchange.
    pub open spec fn events(self) -> Seq<WorkerEvent> {
        seq![
            WorkerEvent::Datagram { length: self.length, peer: self.peer, clock: self.received_at },
            WorkerEvent::ReplyDone { delivered: self.delivered, clock: self.replied_at },
            WorkerEvent::SampleOffered { accepted: self.accepted },
        ]
    }

    /// The sample that the exchange is measured by.
    pub open spec fn sample(self) -> Sample {
        Sample { start: self.received_at, end: self.replied_at, metric: Metric::Okay }
    }

    /// What the worker asks for in the course of the exchange: one reply to
    /// the sender, one sample, and the next receive.
    pub open spec fn actions(self) -> Seq<WorkerAction> {
        seq![
            WorkerAction::SendReply { peer: self.peer, payload: REPLY },
            WorkerAction::Record { sample: self.sample() },
            receive_action(),
        ]
    }
}

/// The reports of a series of exchanges, one after the other.
pub open spec fn events_of(exchanges: Seq<Exchange>) -> Seq<WorkerEvent>
    decreases exchanges.len(),
{
    if exchanges.len() == 0 {
        Seq::empty()
    } else {
        events_of(exchanges.drop_last()) + exchanges.last().events()
    }
}

/// What the worker asks for over a series of exchanges.
pub open spec fn actions_of(exchanges: Seq<Exchange>) -> Seq<WorkerAction>
    decreases exchanges.len(),
{
    if exchanges.len() == 0 {
        Seq::empty()
    } else {
        actions_of(exchanges.drop_last()) + exchanges.last().actions()
    }
}

/// How many replies a sequence of actions holds.
pub open spec fn replies_in(actions: Seq<WorkerAction>) -> nat
    decreases actions.len(),
{
    if actions.len() == 0 {
        0
    } else {
        replies_in(actions.drop_last()) + if actions.last() is SendReply {
            1nat
        } else {
            0nat
        }
    }
}

/// How many samples a sequence of actions holds.
pub open spec fn samples_in(actions: Seq<WorkerAction>) -> nat
    decreases actions.len(),
{
    if actions.len() == 0 {
        0
    } else {
        samples_in(actions.drop_last()) + if actions.last() is Record {
            1nat
        } else {
            0nat
        }
    }
}

/// Running over two sequences of reports in a row is running over the first
/// and going on from there over the second.
pub proof fn lemma_run_append(state: WorkerState, first: Seq<WorkerEvent>, second: Seq<WorkerEvent>)
    ensures
        run(state, first + second).0 == run(run(state, first).0, second).0,
        run(state, first + second).1 == run(state, first).1 + run(run(state, first).0, second).1,
    decreases second.len(),
{
    if second.len() == 0 {
        assert(first + second =~= first);
        assert(run(state, first).1 + Seq::<WorkerAction>::empty() =~= run(state, first).1);
    } else {
        assert((first + second).drop_last() =~= first + second.drop_last());
        assert((first + second).last() == second.last());
        lemma_run_append(state, first, second.drop_last());
        let middle = run(state, first).0;
        let (before, asked) = run(middle, second.drop_last());
        let (after, action) = spec_step(before, second.last());
        assert((run(state, first).1 + asked).push(action) =~= run(state, first).1 + asked.push(
            action,
        ));
    }
}

/// A worker that waits for a datagram goes through one exchange by asking
/// for exactly one reply, to the sender, with the fixed payload, then for
/// one sample, then for the next receive; and it waits again. This holds
/// whatever the datagram's length, whether or not the reply could be sent,
/// and whether or not the collector took the sample.
pub proof fn lemma_one_exchange(exchange: Exchange)
    ensures
        run(WorkerState::WaitForDatagram, exchange.events()) == (
            WorkerState::WaitForDatagram,
            exchange.actions(),
        ),
{
    let events = exchange.events();
    let e0 = events.drop_last().drop_last();
    let e1 = events.drop_last();
    assert(e0.drop_last() =~= Seq::<WorkerEvent>::empty());
    let r0 = run(WorkerState::WaitForDatagram, e0.drop_last());
    assert(r0.1 =~= Seq::<WorkerAction>::empty());
    let r1 = run(WorkerState::WaitForDatagram, e0);
    assert(e0.last() == events[0]);
    assert(r1.0 == (WorkerState::Reply { start: exchange.received_at }));
    let r2 = run(WorkerState::WaitForDatagram, e1);
    assert(e1.last() == events[1]);
    assert(r2.0 == WorkerState::RecordSample);
    let r3 = run(WorkerState::WaitForDatagram, events);
    assert(events.last() == events[2]);
    assert(r3.1 =~= exchange.actions());
}

/// Over any number of exchanges the worker asks for what each exchange asks
/// for, in order, and ends up waiting for the next datagram.
pub proof fn lemma_exchanges(exchanges: Seq<Exchange>)
    ensures
        run(WorkerState::WaitForDatagram, events_of(exchanges)) == (
            WorkerState::WaitForDatagram,
            actions_of(exchanges),
        ),
    decreases exchanges.len(),
{
    if exchanges.len() == 0 {
    } else {
        lemma_exchanges(exchanges.drop_last());
        lemma_one_exchange(exchanges.last());
        lemma_run_append(
            WorkerState::WaitForDatagram,
            events_of(exchanges.drop_last()),
            exchanges.last().events(),
        );
    }
}

/// Replies and samples are counted piece by piece.
pub proof fn lemma_counts_append(first: Seq<WorkerAction>, second: Seq<WorkerAction>)
    ensures
        replies_in(first + second) == replies_in(first) + replies_in(second),
        samples_in(first + second) == samples_in(first) + samples_in(second),
    decreases second.len(),
{
    if second.len() == 0 {
        assert(first + second =~= first);
    } else {
        assert((first + second).drop_last() =~= first + second.drop_last());
        assert((first + second).last() == second.last());
        lemma_counts_append(first, second.drop_last());
    }
}

/// One exchange holds one reply and one sample.
pub proof fn lemma_counts_of_exchange(exchange: Exchange)
    ensures
        replies_in(exchange.actions()) == 1,
        samples_in(exchange.actions()) == 1,
{
    let a3 = exchange.actions();
    let a2 = a3.drop_last();
    let a1 = a2.drop_last();
    assert(a1.drop_last() =~= Seq::<WorkerAction>::empty());
    assert(a1.last() == a3[0]);
    assert(a2.last() == a3[1]);
    assert(a3.last() == a3[2]);
    assert(replies_in(a1.drop_last()) == 0);
    assert(samples_in(a1.drop_last()) == 0);
    assert(replies_in(a1) == 1);
    assert(samples_in(a1) == 0);
    assert(replies_in(a2) == 1);
    assert(samples_in(a2) == 1);
}

/// The actions of a series of exchanges come three to an exchange: the
/// reply to that exchange's sender, its sample, and the next receive.
pub proof fn lemma_actions_layout(exchanges: Seq<Exchange>, i: int)
    requires
        0 <= i < exchanges.len(),
    ensures
        actions_of(exchanges).len() == 3 * exchanges.len(),
        actions_of(exchanges)[3 * i] == (WorkerAction::SendReply {
            peer: exchanges[i].peer,
            payload: REPLY,
        }),
        actions_of(exchanges)[3 * i + 1] == (WorkerAction::Record { sample: exchanges[i].sample() }),
        actions_of(exchanges)[3 * i + 2] == receive_action(),
    decreases exchanges.len(),
{
    lemma_actions_len(exchanges.drop_last());
    if i < exchanges.len() - 1 {
        lemma_actions_layout(exchanges.drop_last(), i);
    }
}

/// A series of exchanges asks for three actions per exchange.
pub proof fn lemma_actions_len(exchanges: Seq<Exchange>)
    ensures
        actions_of(exchanges).len() == 3 * exchanges.len(),
    decreases exchanges.len(),
{
    if exchanges.len() > 0 {
        lemma_actions_len(exchanges.drop_last());
    }
}

/// Every datagram is answered exactly once: over any series of exchanges
/// the worker asks for as many replies as datagrams came in, each of them
/// to the sender of its datagram and each with the same six bytes, whatever
/// the datagrams held.
pub proof fn lemma_one_reply_per_datagram(exchanges: Seq<Exchange>)
    ensures
        replies_in(run(WorkerState::WaitForDatagram, events_of(exchanges)).1) == exchanges.len(),
        forall|i: int|
            0 <= i < exchanges.len() ==> #[trigger] run(
                WorkerState::WaitForDatagram,
                events_of(exchanges),
            ).1[3 * i] == (WorkerAction::SendReply { peer: exchanges[i].peer, payload: REPLY }),
        REPLY@ == seq![0x50u8, 0x4fu8, 0x4eu8, 0x47u8, 0x0du8, 0x0au8],
    decreases exchanges.len(),
{
    lemma_exchanges(exchanges);
    lemma_counts_of_series(exchanges);
    assert forall|i: int| 0 <= i < exchanges.len() implies #[trigger] actions_of(exchanges)[3 * i]
        == (WorkerAction::SendReply { peer: exchanges[i].peer, payload: REPLY }) by {
        lemma_actions_layout(exchanges, i);
    }
}

/// Every answered datagram gives exactly one sample: over any series of
/// exchanges the worker records as many samples as datagrams came in, each
/// tagged `Okay` and spanning the two clock readings of its exchange, so
/// that with a clock that never runs backwards no sample ends before it
/// starts.
pub proof fn lemma_one_sample_per_datagram(exchanges: Seq<Exchange>)
    ensures
        samples_in(run(WorkerState::WaitForDatagram, events_of(exchanges)).1) == exchanges.len(),
        forall|i: int|
            0 <= i < exchanges.len() ==> #[trigger] run(
                WorkerState::WaitForDatagram,
                events_of(exchanges),
            ).1[3 * i + 1] == (WorkerAction::Record {
                sample: Sample {
                    start: exchanges[i].received_at,
                    end: exchanges[i].replied_at,
                    metric: Metric::Okay,
                },
            }),
        forall|i: int|
            0 <= i < exchanges.len() && exchanges[i].received_at <= exchanges[i].replied_at
                ==> (#[trigger] exchanges[i]).sample().start <= exchanges[i].sample().end,
{
    lemma_exchanges(exchanges);
    lemma_counts_of_series(exchanges);
    assert forall|i: int| 0 <= i < exchanges.len() implies #[trigger] actions_of(exchanges)[3 * i
        + 1] == (WorkerAction::Record { sample: exchanges[i].sample() }) by {
        lemma_actions_layout(exchanges, i);
    }
}

/// A series of exchanges holds one reply and one sample per exchange.
pub proof fn lemma_counts_of_series(exchanges: Seq<Exchange>)
    ensures
        replies_in(actions_of(exchanges)) == exchanges.len(),
        samples_in(actions_of(exchanges)) == exchanges.len(),
    decreases exchanges.len(),
{
    if exchanges.len() > 0 {
        lemma_counts_of_series(exchanges.drop_last());
        lemma_counts_of_exchange(exchanges.last());
        lemma_counts_append(actions_of(exchanges.drop_last()), exchanges.last().actions());
    }
}

/// A worker that has ended stays ended: whatever is reported to it, it asks
/// for no further reply and no further sample.
pub proof fn lemma_terminated_is_final(events: Seq<WorkerEvent>)
    ensures
        run(WorkerState::Terminated, events).0 == WorkerState::Terminated,
        run(WorkerState::Terminated, events).1.len() == events.len(),
        forall|i: int|
            0 <= i < events.len() ==> #[trigger] run(WorkerState::Terminated, events).1[i]
                == WorkerAction::Stop,
        replies_in(run(WorkerState::Terminated, events).1) == 0,
        samples_in(run(WorkerState::Terminated, events).1) == 0,
    decreases events.len(),
{
    if events.len() > 0 {
        lemma_terminated_is_final(events.drop_last());
        let asked = run(WorkerState::Terminated, events).1;
        assert(asked.drop_last() =~= run(WorkerState::Terminated, events.drop_last()).1);
    }
}

/// A failed receive ends the worker, in whatever state it is reported.
pub proof fn lemma_receive_failure_ends(state: WorkerState)
    ensures
        spec_step(state, WorkerEvent::ReceiveFailed) == (WorkerState::Terminated, WorkerAction::Stop),
{
}

} // verus!
