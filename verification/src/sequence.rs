//! The start-up sequence as a state machine over plain values.
//!
//! A manager lines up the ids it owns and releases them one at a time. It
//! pushes the first onto the start-up queue itself; each ready notification
//! pushes one more id. Each id that comes off the start-up queue releases the
//! next shard in line; the shard's connection attempt begins once the
//! cool-down has passed, and the consumer takes no further id until that
//! attempt has resolved.

use crate::channel::{MessageStream, QueueFailure};
use crate::strategy::{ShardManagerOptions, ShardRange, ShardingStrategy, StrategyError};
use futures::sync::mpsc::Receiver;
use vstd::prelude::*;

verus! {

/// How many ids the start-up queue buffers beyond the one slot of its sender.
pub const STARTUP_QUEUE_BUFFER: usize = 10;

/// The least number of seconds between the release of a shard and the
/// beginning of its connection attempt, and between two attempts.
pub const COOLDOWN_SECS: u64 = 6;

/// Where the start-up consumer stands.
#[derive(Clone, Copy, Debug, PartialEq, Eq, Structural)]
pub enum Phase {
    /// Waiting for the next id on the start-up queue.
    Idle,
    /// A shard has been released at `taken_at`; its cool-down is running.
    Cooling { shard_id: u64, taken_at: u64 },
    /// The connection attempt of a shard is in flight.
    Connecting { shard_id: u64 },
}

/// What the event loop reports to the start-up consumer. Times are seconds on
/// a clock of the event loop's choosing.
#[derive(Clone, Copy, Debug, PartialEq, Eq, Structural)]
pub enum QueueEvent {
    /// An id came off the start-up queue at `now`.
    Taken { now: u64 },
    /// The sleep that was asked for has ended, at `now`.
    TimerFired { now: u64 },
    /// The sleep that was asked for could not be had.
    TimerFailed,
    /// The connection attempt has succeeded.
    Connected,
    /// The connection attempt has failed.
    ConnectFailed,
}

/// What the start-up consumer asks of the event loop.
#[derive(Clone, Copy, Debug, PartialEq, Eq, Structural)]
pub enum QueueAction {
    /// Take the next id off the start-up queue, waiting for it if need be.
    AwaitNext,
    /// Sleep for `secs` seconds, then report `TimerFired`.
    Sleep { secs: u64 },
    /// Begin the connection attempt of a shard, then report how it went.
    Connect { shard_id: u64, shards_total: u64 },
    /// The shard is registered: forward its frames into the merged stream,
    /// then take the next id off the start-up queue.
    Forward { shard_id: u64 },
    /// The event does not belong to the current phase, or it reports an id
    /// that the manager has not pushed; nothing has changed.
    Ignore,
}

/// Why a manager did not start.
#[derive(Clone, Copy, Debug, PartialEq, Eq, Structural)]
pub enum StartError {
    /// The manager has been started before.
    AlreadyStarted,
    /// The strategy names no range of shards.
    Strategy(StrategyError),
    /// The strategy owns no shard.
    NoShards,
    /// The start-up queue did not take the first id.
    FirstShardRefused(QueueFailure),
}

/// Why the merged message stream cannot be handed out.
#[derive(Clone, Copy, Debug, PartialEq, Eq, Structural)]
pub enum StreamError {
    /// The manager has not been started, so there is no stream yet.
    NotStarted,
    /// The stream has been handed out before.
    AlreadyTaken,
}

/// What the manager made of a gateway event.
#[derive(Clone, Copy, Debug, PartialEq, Eq, Structural)]
pub enum ProcessOutcome {
    /// The event is no ready notification; nothing was done.
    Ignored,
    /// A ready notification without a shard id; nothing was done.
    MissingShardId,
    /// The id of the ready shard went back onto the start-up queue.
    Requeued(u64),
    /// The start-up queue did not take the id of the ready shard; the
    /// notification is lost.
    Dropped { shard_id: u64, reason: QueueFailure },
}

/// The manager as the contracts see it.
pub struct ManagerState {
    pub strategy: ShardingStrategy,
    pub token: Seq<char>,
    pub ws_uri: Seq<char>,
    /// The id that `start` pushed onto the start-up queue, until the consumer
    /// has released its shard.
    pub first: Option<u64>,
    /// The ids that await their release behind it, next first.
    pub pending: Seq<u64>,
    /// The ids the manager has pushed onto the start-up queue so far, oldest
    /// first.
    pub queued: Seq<u64>,
    /// The buffer size of the start-up queue.
    pub queue_buffer: usize,
    /// The consuming ends that hand out what the manager pushes onto the
    /// start-up queue.
    pub queue_feeds: Set<Receiver<u64>>,
    /// How many of the ids that the manager has pushed the consumer has not
    /// yet reported as taken.
    pub unclaimed: u64,
    /// The ids of the shards whose connection has come up.
    pub registered: Set<u64>,
    pub phase: Phase,
    /// The number of shards in the whole deployment, once started.
    pub shards_total: u64,
    /// When the latest connection attempt began.
    pub last_attempt: Option<u64>,
    /// The consuming end of the start-up queue, for as long as the manager
    /// holds it: `start` hands it out.
    pub queue_receiver: Option<Receiver<u64>>,
    /// The merged message stream, from `start` until it is taken.
    pub stream: Option<MessageStream>,
}

impl ManagerState {
    /// Whether `start` has succeeded.
    pub open spec fn started(self) -> bool {
        self.queue_receiver is None
    }

    /// The ids whose shards are still to be released, next first: the id
    /// that `start` pushed, then the pending ones.
    pub open spec fn upcoming(self) -> Seq<u64> {
        match self.first {
            Some(shard_id) => seq![shard_id] + self.pending,
            None => self.pending,
        }
    }
}

/// One more, as far as the counter goes.
pub open spec fn one_more(n: u64) -> u64 {
    if n < u64::MAX {
        (n + 1) as u64
    } else {
        n
    }
}

/// The state of a manager that has just been made from `options` and holds
/// the consuming end `queue_receiver` of its start-up queue, when what it
/// pushes onto the queue comes out of the consuming ends `queue_feeds`.
pub open spec fn initial_state(
    options: ShardManagerOptions,
    queue_receiver: Receiver<u64>,
    queue_feeds: Set<Receiver<u64>>,
) -> ManagerState {
    ManagerState {
        strategy: options.strategy,
        token: options.token@,
        ws_uri: options.ws_uri@,
        first: None,
        pending: Seq::empty(),
        queued: Seq::empty(),
        queue_buffer: STARTUP_QUEUE_BUFFER,
        queue_feeds,
        unclaimed: 0,
        registered: Set::empty(),
        phase: Phase::Idle,
        shards_total: 0,
        last_attempt: None,
        queue_receiver: Some(queue_receiver),
        stream: None,
    }
}

/// Why `start` refuses a manager in state `s`, if it does.
pub open spec fn start_refusal(s: ManagerState) -> Option<StartError> {
    if s.started() {
        Some(StartError::AlreadyStarted)
    } else {
        match s.strategy.resolved() {
            Err(e) => Some(StartError::Strategy(e)),
            Ok(range) => if range.count == 0 {
                Some(StartError::NoShards)
            } else {
                None
            },
        }
    }
}

/// Why a start on `range` cannot be completed in state `s` once the start-up
/// queue has answered `delivery` to the offer of the first id, if it cannot.
pub open spec fn finish_refusal(s: ManagerState, range: ShardRange, delivery: Result<(), QueueFailure>)
    -> Option<StartError> {
    if s.started() {
        Some(StartError::AlreadyStarted)
    } else if range.count == 0 {
        Some(StartError::NoShards)
    } else {
        match delivery {
            Err(reason) => Some(StartError::FirstShardRefused(reason)),
            Ok(_) => None,
        }
    }
}

/// The id that a start on `range` pushes onto the start-up queue when
/// `pending` is pending: the first of `pending` followed by the ids of the
/// range.
pub open spec fn first_of(pending: Seq<u64>, range: ShardRange) -> u64 {
    (pending + range.ids())[0]
}

/// The state in which the completion of a start on `range` leaves a manager
/// that was in state `s`, when the merged stream it has made is `stream`.
/// The ids of the range stand behind what was pending, in ascending order;
/// the first of them all is the one that went onto the start-up queue, and
/// the rest stay pending; the consuming end of the start-up queue is handed
/// out.
pub open spec fn settled(s: ManagerState, range: ShardRange, stream: MessageStream)
    -> ManagerState {
    ManagerState {
        first: Some(first_of(s.pending, range)),
        pending: (s.pending + range.ids()).subrange(1, (s.pending + range.ids()).len() as int),
        unclaimed: one_more(s.unclaimed),
        shards_total: range.total,
        queue_receiver: None,
        stream: Some(stream),
        ..s
    }
}

/// The state in which a successful `start` leaves a manager that was in state
/// `s`, when the merged stream it has made is `stream`: the first id has gone
/// onto the start-up queue, and the start on the range of the strategy is
/// completed.
pub open spec fn started_state(s: ManagerState, stream: MessageStream) -> ManagerState {
    let range = s.strategy.resolved()->Ok_0;
    ManagerState { queued: s.queued.push(first_of(s.pending, range)), ..settled(s, range, stream) }
}

/// What `messages` answers in state `s`: the stream where there is one to
/// take, else the reason why there is none.
pub open spec fn stream_answer(s: ManagerState) -> Result<MessageStream, StreamError> {
    match s.stream {
        Some(stream) => Ok(stream),
        None => if s.started() {
            Err(StreamError::AlreadyTaken)
        } else {
            Err(StreamError::NotStarted)
        },
    }
}

/// The state in which `messages` leaves a manager that was in state `s`.
pub open spec fn stream_taken(s: ManagerState) -> ManagerState {
    ManagerState { stream: None, ..s }
}

/// What `process` reports for the ready shard `shard_id` once the start-up
/// queue has answered.
pub open spec fn requeued(shard_id: u64, delivery: Result<(), QueueFailure>) -> ProcessOutcome {
    match delivery {
        Ok(_) => ProcessOutcome::Requeued(shard_id),
        Err(reason) => ProcessOutcome::Dropped { shard_id, reason },
    }
}

/// The state in which `process` leaves a manager that was in state `s` when
/// it reports `outcome`: an id that went back onto the start-up queue stands
/// at the end of what the manager has pushed and is one more for the consumer
/// to take, and nothing else has changed.
pub open spec fn after_process(s: ManagerState, outcome: ProcessOutcome) -> ManagerState {
    match outcome {
        ProcessOutcome::Requeued(shard_id) => ManagerState {
            queued: s.queued.push(shard_id),
            unclaimed: one_more(s.unclaimed),
            ..s
        },
        _ => s,
    }
}

/// How many seconds of the cool-down that began at `anchor` are left at
/// `now`. A clock that reads earlier than `anchor` gets the whole cool-down.
pub open spec fn wait_left(anchor: u64, now: u64) -> u64 {
    if now < anchor {
        COOLDOWN_SECS
    } else if now - anchor >= COOLDOWN_SECS {
        0
    } else {
        (COOLDOWN_SECS - (now - anchor)) as u64
    }
}

/// How long the consumer still has to sleep at `now` before the shard that
/// was released at `taken_at` may connect: until the cool-down has passed
/// both since the release and since the latest attempt.
pub open spec fn sleep_needed(last_attempt: Option<u64>, taken_at: u64, now: u64) -> u64 {
    let since_release = wait_left(taken_at, now);
    match last_attempt {
        Some(t) => if wait_left(t, now) > since_release {
            wait_left(t, now)
        } else {
            since_release
        },
        None => since_release,
    }
}

/// The state that follows `s` when the event loop reports `event`.
///
/// An id can come off the start-up queue only if the manager has pushed one
/// that was not taken before, so a `Taken` beyond what the manager has pushed
/// is not believed.
pub open spec fn advance_state(s: ManagerState, event: QueueEvent) -> ManagerState {
    match (s.phase, event) {
        (Phase::Idle, QueueEvent::Taken { now }) => if s.unclaimed == 0 {
            s
        } else if s.upcoming().len() > 0 {
            ManagerState {
                first: None,
                pending: s.upcoming().subrange(1, s.upcoming().len() as int),
                unclaimed: (s.unclaimed - 1) as u64,
                phase: Phase::Cooling { shard_id: s.upcoming()[0], taken_at: now },
                ..s
            }
        } else {
            ManagerState { unclaimed: (s.unclaimed - 1) as u64, ..s }
        },
        (Phase::Cooling { shard_id, taken_at }, QueueEvent::TimerFired { now }) => if sleep_needed(
            s.last_attempt,
            taken_at,
            now,
        ) == 0 {
            ManagerState { phase: Phase::Connecting { shard_id }, last_attempt: Some(now), ..s }
        } else {
            s
        },
        (Phase::Cooling { .. }, QueueEvent::TimerFailed) => ManagerState { phase: Phase::Idle, ..s },
        (Phase::Connecting { shard_id }, QueueEvent::Connected) => ManagerState {
            phase: Phase::Idle,
            registered: s.registered.insert(shard_id),
            ..s
        },
        (Phase::Connecting { .. }, QueueEvent::ConnectFailed) => ManagerState {
            phase: Phase::Idle,
            ..s
        },
        _ => s,
    }
}

/// What the consumer asks of the event loop when it reports `event` in state
/// `s`.
pub open spec fn advance_action(s: ManagerState, event: QueueEvent) -> QueueAction {
    match (s.phase, event) {
        (Phase::Idle, QueueEvent::Taken { now }) => if s.unclaimed == 0 {
            QueueAction::Ignore
        } else if s.upcoming().len() > 0 {
            QueueAction::Sleep { secs: COOLDOWN_SECS }
        } else {
            QueueAction::AwaitNext
        },
        (Phase::Cooling { shard_id, taken_at }, QueueEvent::TimerFired { now }) => if sleep_needed(
            s.last_attempt,
            taken_at,
            now,
        ) == 0 {
            QueueAction::Connect { shard_id, shards_total: s.shards_total }
        } else {
            QueueAction::Sleep { secs: sleep_needed(s.last_attempt, taken_at, now) }
        },
        (Phase::Cooling { .. }, QueueEvent::TimerFailed) => QueueAction::AwaitNext,
        (Phase::Connecting { shard_id }, QueueEvent::Connected) => QueueAction::Forward { shard_id },
        (Phase::Connecting { .. }, QueueEvent::ConnectFailed) => QueueAction::AwaitNext,
        _ => QueueAction::Ignore,
    }
}

/// Computes how many seconds of the cool-down that began at `anchor` are left
/// at `now`.
pub fn cooldown_left(anchor: u64, now: u64) -> (secs: u64)
    ensures
        secs == wait_left(anchor, now),
        secs <= COOLDOWN_SECS,
{
    if now < anchor {
        COOLDOWN_SECS
    } else if now - anchor >= COOLDOWN_SECS {
        0
    } else {
        COOLDOWN_SECS - (now - anchor)
    }
}

/// Computes how long the consumer still has to sleep at `now` before the
/// shard that was released at `taken_at` may connect.
pub fn sleep_for(last_attempt: Option<u64>, taken_at: u64, now: u64) -> (secs: u64)
    ensures
        secs == sleep_needed(last_attempt, taken_at, now),
        secs <= COOLDOWN_SECS,
{
    let since_release = cooldown_left(taken_at, now);
    match last_attempt {
        Some(t) => {
            let since_attempt = cooldown_left(t, now);
            if since_attempt > since_release {
                since_attempt
            } else {
                since_release
            }
        },
        None => since_release,
    }
}

/// Turns the answer of the start-up queue into the outcome that `process`
/// reports for the ready shard `shard_id`.
pub fn requeue_outcome(shard_id: u64, delivery: Result<(), QueueFailure>) -> (r: ProcessOutcome)
    ensures
        r == requeued(shard_id, delivery),
{
    match delivery {
        Ok(()) => ProcessOutcome::Requeued(shard_id),
        Err(reason) => ProcessOutcome::Dropped { shard_id, reason },
    }
}

} // verus!
