//! The delivery schedule: when to send a batch, when to send a heartbeat, and
//! what to do when the agent is told to stop.
//!
//! The scheduler performs no I/O. A driver owns the timer and the network: it
//! reports what happened as an [`Event`], together with the current reading of
//! a monotonic clock, and carries out the [`Action`] it gets back. One tick of
//! the timer is a `Sample` event, followed by the result of each call that the
//! scheduler asked for.

use vstd::prelude::*;
use crate::buffer::{after_failure, at_or_above_threshold, ceiling, overflows, BoundedBatchBuffer};

verus! {

/// Time between two heartbeats, in nanoseconds: five minutes.
pub const HEARTBEAT_INTERVAL: u64 = 300_000_000_000;

/// Where the scheduler stands between two events.
#[derive(Clone, Copy, Debug, PartialEq, Eq, Structural)]
pub enum Phase {
    /// Running, between two ticks.
    Idle,
    /// Running, inside a tick, with a batch on its way.
    Flushing,
    /// Running, inside a tick, with a heartbeat on its way.
    Heartbeating,
    /// Shutting down, with the last batch on its way.
    Draining,
    /// Shut down. No event is accepted any more.
    Stopped,
}

/// What the driver reports to the scheduler.
pub enum Event<T> {
    /// The timer fired and the metrics source produced this snapshot.
    Sample(T),
    /// The batch that was asked for has been delivered.
    BatchDelivered,
    /// The batch that was asked for could not be delivered.
    BatchFailed,
    /// The heartbeat that was asked for has been delivered.
    HeartbeatDelivered,
    /// The heartbeat that was asked for could not be delivered.
    HeartbeatFailed,
    /// The agent was told to stop.
    Cancel,
}

/// What the driver has to do next.
#[derive(Clone, Copy, Debug, PartialEq, Eq, Structural)]
pub enum Action {
    /// Sleep until the timer fires or the agent is told to stop.
    Wait,
    /// Send every queued snapshot in one call and report the result.
    SendBatch,
    /// Send a heartbeat and report the result.
    SendHeartbeat,
    /// Leave the loop.
    Exit,
}

/// The answer to one event.
#[derive(Clone, Copy, Debug, PartialEq, Eq, Structural)]
pub struct Outcome {
    /// What the driver has to do next.
    pub action: Action,
    /// How many queued snapshots the eviction policy dropped at this event.
    pub dropped: usize,
}

/// The scheduler as a mathematical value.
pub struct State<T> {
    /// The undelivered snapshots, oldest first.
    pub queue: Seq<T>,
    /// The number of queued snapshots at which a batch is sent.
    pub batch_size: usize,
    /// The clock reading at the last delivered heartbeat, or at the start.
    pub last_heartbeat: u64,
    /// Where the scheduler stands.
    pub phase: Phase,
}

/// Time passed between two clock readings. A clock that is read as going
/// backwards counts as standing still.
pub open spec fn elapsed(since: u64, now: u64) -> int {
    if now >= since {
        now - since
    } else {
        0
    }
}

/// Whether a heartbeat is due at `now`.
pub open spec fn heartbeat_due(last_heartbeat: u64, now: u64) -> bool {
    elapsed(last_heartbeat, now) >= HEARTBEAT_INTERVAL as int
}

/// Whether `event` can occur in `phase`.
pub open spec fn accepts<T>(phase: Phase, event: Event<T>) -> bool {
    match (phase, event) {
        (Phase::Idle, Event::Sample(_)) => true,
        (Phase::Idle, Event::Cancel) => true,
        (Phase::Flushing, Event::BatchDelivered) => true,
        (Phase::Flushing, Event::BatchFailed) => true,
        (Phase::Heartbeating, Event::HeartbeatDelivered) => true,
        (Phase::Heartbeating, Event::HeartbeatFailed) => true,
        (Phase::Draining, Event::BatchDelivered) => true,
        (Phase::Draining, Event::BatchFailed) => true,
        _ => false,
    }
}

/// The second half of a tick: with the batch settled and `queue` left over,
/// either ask for a heartbeat or go back to waiting.
pub open spec fn settle<T>(s: State<T>, queue: Seq<T>, dropped: usize, now: u64) -> (State<T>, Outcome) {
    if heartbeat_due(s.last_heartbeat, now) {
        (
            State { queue, phase: Phase::Heartbeating, ..s },
            Outcome { action: Action::SendHeartbeat, dropped },
        )
    } else {
        (State { queue, phase: Phase::Idle, ..s }, Outcome { action: Action::Wait, dropped })
    }
}

/// The state after `event` at clock reading `now`, and the answer to it.
/// An event that cannot occur in the current phase changes nothing.
pub open spec fn next<T>(s: State<T>, event: Event<T>, now: u64) -> (State<T>, Option<Outcome>) {
    match (s.phase, event) {
        (Phase::Idle, Event::Sample(snapshot)) => {
            let queue = s.queue.push(snapshot);
            if at_or_above_threshold(queue.len(), s.batch_size) {
                (
                    State { queue, phase: Phase::Flushing, ..s },
                    Some(Outcome { action: Action::SendBatch, dropped: 0 }),
                )
            } else {
                let (after, outcome) = settle(s, queue, 0, now);
                (after, Some(outcome))
            }
        },
        (Phase::Idle, Event::Cancel) => {
            if s.queue.len() > 0 {
                (
                    State { phase: Phase::Draining, ..s },
                    Some(Outcome { action: Action::SendBatch, dropped: 0 }),
                )
            } else {
                (
                    State { phase: Phase::Stopped, ..s },
                    Some(Outcome { action: Action::Exit, dropped: 0 }),
                )
            }
        },
        (Phase::Flushing, Event::BatchDelivered) => {
            let (after, outcome) = settle(s, Seq::empty(), 0, now);
            (after, Some(outcome))
        },
        (Phase::Flushing, Event::BatchFailed) => {
            let dropped: usize = if overflows(s.queue.len(), s.batch_size) {
                s.queue.len() as usize
            } else {
                0
            };
            let (after, outcome) = settle(s, after_failure(s.queue, s.batch_size), dropped, now);
            (after, Some(outcome))
        },
        (Phase::Heartbeating, Event::HeartbeatDelivered) => (
            State { last_heartbeat: now, phase: Phase::Idle, ..s },
            Some(Outcome { action: Action::Wait, dropped: 0 }),
        ),
        (Phase::Heartbeating, Event::HeartbeatFailed) => (
            State { phase: Phase::Idle, ..s },
            Some(Outcome { action: Action::Wait, dropped: 0 }),
        ),
        (Phase::Draining, Event::BatchDelivered) => (
            State { queue: Seq::empty(), phase: Phase::Stopped, ..s },
            Some(Outcome { action: Action::Exit, dropped: 0 }),
        ),
        (Phase::Draining, Event::BatchFailed) => (
            State { phase: Phase::Stopped, ..s },
            Some(Outcome { action: Action::Exit, dropped: 0 }),
        ),
        _ => (s, None),
    }
}

/// The queue bound that every reachable state keeps: between two ticks no more
/// than `OVERFLOW_FACTOR` batches are queued, and a batch that is on its way
/// is at most one snapshot above that.
pub open spec fn bounded<T>(s: State<T>) -> bool {
    match s.phase {
        Phase::Flushing => {
            &&& s.queue.len() >= s.batch_size
            &&& s.queue.len() <= ceiling(s.batch_size) + 1
        },
        Phase::Draining => 0 < s.queue.len() <= ceiling(s.batch_size),
        _ => s.queue.len() <= ceiling(s.batch_size),
    }
}

/// The state after a whole sequence of events, each with its clock reading.
pub open spec fn run<T>(s: State<T>, events: Seq<(Event<T>, u64)>) -> State<T>
    decreases events.len(),
{
    if events.len() == 0 {
        s
    } else {
        let (event, now) = events.last();
        next(run(s, events.drop_last()), event, now).0
    }
}

/// Decides when batches and heartbeats are sent, and owns the queue.
pub struct DeliveryScheduler<T> {
    buffer: BoundedBatchBuffer<T>,
    batch_size: usize,
    last_heartbeat: u64,
    phase: Phase,
}

impl<T> View for DeliveryScheduler<T> {
    type V = State<T>;

    closed spec fn view(&self) -> State<T> {
        State {
            queue: self.buffer@,
            batch_size: self.batch_size,
            last_heartbeat: self.last_heartbeat,
            phase: self.phase,
        }
    }
}

impl<T> DeliveryScheduler<T> {
    /// A running scheduler with an empty queue. The heartbeat timer starts at
    /// `now`, so the first heartbeat is due one interval later.
    pub fn new(batch_size: usize, now: u64) -> (scheduler: Self)
        ensures
            scheduler@ == (State {
                queue: Seq::<T>::empty(),
                batch_size,
                last_heartbeat: now,
                phase: Phase::Idle,
            }),
            bounded(scheduler@),
    {
        assert(ceiling(batch_size) >= 0);
        DeliveryScheduler {
            buffer: BoundedBatchBuffer::new(),
            batch_size,
            last_heartbeat: now,
            phase: Phase::Idle,
        }
    }

    /// Where the scheduler stands.
    pub fn phase(&self) -> (phase: Phase)
        ensures
            phase == self@.phase,
    {
        self.phase
    }

    /// The number of queued snapshots at which a batch is sent.
    pub fn batch_size(&self) -> (batch_size: usize)
        ensures
            batch_size == self@.batch_size,
    {
        self.batch_size
    }

    /// The clock reading at the last delivered heartbeat, or at the start.
    pub fn last_heartbeat(&self) -> (at: u64)
        ensures
            at == self@.last_heartbeat,
    {
        self.last_heartbeat
    }

    /// The number of queued snapshots.
    pub fn queued(&self) -> (n: usize)
        ensures
            n == self@.queue.len(),
    {
        self.buffer.len()
    }

    /// The queued snapshots, oldest first: what a `SendBatch` has to carry.
    pub fn pending(&self) -> (items: &Vec<T>)
        ensures
            items@ == self@.queue,
    {
        self.buffer.pending()
    }

    /// Whether the loop still runs: false once shutdown has begun.
    pub fn is_running(&self) -> (running: bool)
        ensures
            running == (self@.phase != Phase::Draining && self@.phase != Phase::Stopped),
    {
        match self.phase {
            Phase::Draining => false,
            Phase::Stopped => false,
            _ => true,
        }
    }

    /// Whether a heartbeat is due at clock reading `now`.
    pub fn is_heartbeat_due(&self, now: u64) -> (due: bool)
        ensures
            due == heartbeat_due(self@.last_heartbeat, now),
    {
        now >= self.last_heartbeat && now - self.last_heartbeat >= HEARTBEAT_INTERVAL
    }

    /// Finishes a tick once the batch is settled.
    fn settle_tick(&mut self, dropped: usize, now: u64) -> (outcome: Outcome)
        ensures
            (final(self)@, outcome) == settle(old(self)@, old(self)@.queue, dropped, now),
    {
        if self.is_heartbeat_due(now) {
            self.phase = Phase::Heartbeating;
            Outcome { action: Action::SendHeartbeat, dropped }
        } else {
            self.phase = Phase::Idle;
            Outcome { action: Action::Wait, dropped }
        }
    }

    /// Takes one event, read at clock reading `now`, and says what to do next.
    ///
    /// Returns `None`, and changes nothing, exactly when the event cannot occur
    /// in the current phase. Otherwise state and answer are those of [`next`].
    pub fn step(&mut self, event: Event<T>, now: u64) -> (outcome: Option<Outcome>)
        ensures
            (final(self)@, outcome) == next(old(self)@, event, now),
            outcome is Some <==> accepts(old(self)@.phase, event),
            bounded(old(self)@) ==> bounded(final(self)@),
    {
        proof {
            if bounded(self@) {
                lemma_next_keeps_bound(self@, event, now);
            }
        }
        match (self.phase, event) {
            (Phase::Idle, Event::Sample(snapshot)) => {
                self.buffer.push(snapshot);
                if self.buffer.is_at_or_above_threshold(self.batch_size) {
                    self.phase = Phase::Flushing;
                    Some(Outcome { action: Action::SendBatch, dropped: 0 })
                } else {
                    Some(self.settle_tick(0, now))
                }
            },
            (Phase::Idle, Event::Cancel) => {
                if self.buffer.is_empty() {
                    self.phase = Phase::Stopped;
                    Some(Outcome { action: Action::Exit, dropped: 0 })
                } else {
                    self.phase = Phase::Draining;
                    Some(Outcome { action: Action::SendBatch, dropped: 0 })
                }
            },
            (Phase::Flushing, Event::BatchDelivered) => {
                self.buffer.clear();
                Some(self.settle_tick(0, now))
            },
            (Phase::Flushing, Event::BatchFailed) => {
                let dropped: usize = self.buffer.evict_after_failure(self.batch_size);
                Some(self.settle_tick(dropped, now))
            },
            (Phase::Heartbeating, Event::HeartbeatDelivered) => {
                self.last_heartbeat = now;
                self.phase = Phase::Idle;
                Some(Outcome { action: Action::Wait, dropped: 0 })
            },
            (Phase::Heartbeating, Event::HeartbeatFailed) => {
                self.phase = Phase::Idle;
                Some(Outcome { action: Action::Wait, dropped: 0 })
            },
            (Phase::Draining, Event::BatchDelivered) => {
                self.buffer.clear();
                self.phase = Phase::Stopped;
                Some(Outcome { action: Action::Exit, dropped: 0 })
            },
            (Phase::Draining, Event::BatchFailed) => {
                self.phase = Phase::Stopped;
                Some(Outcome { action: Action::Exit, dropped: 0 })
            },
            _ => None,
        }
    }
}

/// One event keeps the queue bound.
pub proof fn lemma_next_keeps_bound<T>(s: State<T>, event: Event<T>, now: u64)
    requires
        bounded(s),
    ensures
        bounded(next(s, event, now).0),
{
}

/// Whatever the driver reports, in whatever order, the queue stays within its
/// bound: no sequence of samples and failed deliveries makes it grow beyond
/// `OVERFLOW_FACTOR` batches between two ticks.
pub proof fn lemma_run_keeps_bound<T>(s: State<T>, events: Seq<(Event<T>, u64)>)
    requires
        bounded(s),
    ensures
        bounded(run(s, events)),
        run(s, events).batch_size == s.batch_size,
    decreases events.len(),
{
    if events.len() > 0 {
        lemma_run_keeps_bound(s, events.drop_last());
        let (event, now) = events.last();
        lemma_next_keeps_bound(run(s, events.drop_last()), event, now);
    }
}

/// A failed delivery clears the queue if and only if it holds more than
/// `OVERFLOW_FACTOR` batches. Otherwise the queue is kept as it is, and in
/// both cases what is left is within that ceiling.
pub proof fn lemma_failed_flush_evicts_only_on_overflow<T>(s: State<T>, now: u64)
    requires
        s.phase == Phase::Flushing,
    ensures
        s.queue.len() > ceiling(s.batch_size) ==> next(s, Event::BatchFailed, now).0.queue
            == Seq::<T>::empty(),
        s.queue.len() <= ceiling(s.batch_size) ==> next(s, Event::BatchFailed, now).0.queue
            == s.queue,
        next(s, Event::BatchFailed, now).0.queue.len() <= ceiling(s.batch_size),
{
}

/// A tick sends a batch if and only if, with the new sample queued, the queue
/// has reached the batch size.
pub proof fn lemma_flush_iff_threshold<T>(s: State<T>, snapshot: T, now: u64)
    requires
        s.phase == Phase::Idle,
    ensures
        next(s, Event::Sample(snapshot), now).1 is Some,
        next(s, Event::Sample(snapshot), now).1->0.action == Action::SendBatch <==> s.queue.len()
            + 1 >= s.batch_size,
        next(s, Event::Sample(snapshot), now).0.queue == s.queue.push(snapshot),
{
}

/// While the scheduler runs, a batch is sent at no other point than a tick at
/// which the queue has reached the batch size. The only other batch is the
/// last one, sent when the agent is told to stop with snapshots still queued.
pub proof fn lemma_flush_only_at_threshold<T>(s: State<T>, event: Event<T>, now: u64)
    requires
        next(s, event, now).1 is Some,
        next(s, event, now).1->0.action == Action::SendBatch,
    ensures
        s.phase == Phase::Idle,
        event is Sample || event is Cancel,
        event is Sample ==> next(s, event, now).0.queue.len() >= s.batch_size,
        event is Cancel ==> s.queue.len() > 0 && next(s, event, now).0.phase == Phase::Draining,
{
}

/// Right after a batch has been delivered the queue is empty, be it the batch
/// of a tick or the last one.
pub proof fn lemma_delivered_batch_empties_queue<T>(s: State<T>, now: u64)
    requires
        s.phase == Phase::Flushing || s.phase == Phase::Draining,
    ensures
        next(s, Event::BatchDelivered, now).0.queue == Seq::<T>::empty(),
{
}

/// Once the batch of a tick is settled, a heartbeat is sent if and only if a
/// full interval has passed since the last delivered heartbeat. This holds
/// whether the tick sent no batch, delivered one, or failed to.
pub proof fn lemma_heartbeat_iff_due<T>(s: State<T>, event: Event<T>, now: u64)
    requires
        (s.phase == Phase::Idle && event is Sample && s.queue.len() + 1 < s.batch_size) || (s.phase
            == Phase::Flushing && (event is BatchDelivered || event is BatchFailed)),
    ensures
        next(s, event, now).1 is Some,
        next(s, event, now).1->0.action == Action::SendHeartbeat <==> heartbeat_due(
            s.last_heartbeat,
            now,
        ),
        next(s, event, now).1->0.action == Action::SendHeartbeat || next(s, event, now).1->0.action
            == Action::Wait,
{
}

/// A heartbeat is sent at no other point than the end of a tick at which it is
/// due.
pub proof fn lemma_heartbeat_only_when_due<T>(s: State<T>, event: Event<T>, now: u64)
    requires
        next(s, event, now).1 is Some,
        next(s, event, now).1->0.action == Action::SendHeartbeat,
    ensures
        heartbeat_due(s.last_heartbeat, now),
        next(s, event, now).0.phase == Phase::Heartbeating,
{
}

/// Only a delivered heartbeat moves the heartbeat timer, and it moves it to
/// the clock reading of the delivery.
pub proof fn lemma_timer_moves_only_on_delivery<T>(s: State<T>, event: Event<T>, now: u64)
    ensures
        s.phase == Phase::Heartbeating && event is HeartbeatDelivered ==> next(
            s,
            event,
            now,
        ).0.last_heartbeat == now,
        !(s.phase == Phase::Heartbeating && event is HeartbeatDelivered) ==> next(
            s,
            event,
            now,
        ).0.last_heartbeat == s.last_heartbeat,
{
}

/// A failed heartbeat is tried again at the very next tick: the timer is where
/// it was, so at any later clock reading the heartbeat is still due.
pub proof fn lemma_failed_heartbeat_is_retried<T>(
    s: State<T>,
    due_at: u64,
    failed_at: u64,
    snapshot: T,
    next_tick: u64,
)
    requires
        s.phase == Phase::Heartbeating,
        heartbeat_due(s.last_heartbeat, due_at),
        due_at <= next_tick,
        s.queue.len() + 1 < s.batch_size,
    ensures
        next(s, Event::HeartbeatFailed, failed_at).0.phase == Phase::Idle,
        next(s, Event::HeartbeatFailed, failed_at).0.last_heartbeat == s.last_heartbeat,
        next(
            next(s, Event::HeartbeatFailed, failed_at).0,
            Event::Sample(snapshot),
            next_tick,
        ).1 == Some(Outcome { action: Action::SendHeartbeat, dropped: 0 }),
{
}

/// Shutdown asks for at most one more batch: once the agent is told to stop,
/// the result of that batch, whatever it is, ends the loop, and nothing is
/// accepted afterwards.
pub proof fn lemma_shutdown_flushes_once<T>(s: State<T>, result: Event<T>, later: Event<T>, now: u64)
    requires
        s.phase == Phase::Idle,
        result is BatchDelivered || result is BatchFailed,
    ensures
        s.queue.len() == 0 ==> next(s, Event::Cancel, now) == (
            State { phase: Phase::Stopped, ..s },
            Some(Outcome { action: Action::Exit, dropped: 0 }),
        ),
        s.queue.len() > 0 ==> next(s, Event::Cancel, now) == (
            State { phase: Phase::Draining, ..s },
            Some(Outcome { action: Action::SendBatch, dropped: 0 }),
        ),
        next(State { phase: Phase::Draining, ..s }, result, now).1 == Some(
            Outcome { action: Action::Exit, dropped: 0 },
        ),
        next(State { phase: Phase::Draining, ..s }, result, now).0.phase == Phase::Stopped,
        next(State { phase: Phase::Stopped, ..s }, later, now) == (
            State { phase: Phase::Stopped, ..s },
            None::<Outcome>,
        ),
{
}

} // verus!
