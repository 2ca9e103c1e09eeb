//! The shard manager: the caller's side of the start-up sequence.

use crate::channel::{
    buffer_of, feeds, feeds_queue, message_channel, sent_ids, sent_messages, startup_channel, try_send_id,
    MessageStream, QueueFailure, ShardMessage,
};
use crate::event::{GatewayEvent, ReadySignal};
use crate::sequence::{
    advance_action, advance_state, after_process, finish_refusal, first_of, initial_state,
    requeue_outcome, settled, sleep_for, start_refusal, started_state, stream_answer,
    stream_taken, ManagerState, Phase, ProcessOutcome, QueueAction, QueueEvent, StartError,
    StreamError, COOLDOWN_SECS, STARTUP_QUEUE_BUFFER,
};
use crate::strategy::{ShardManagerOptions, ShardRange, ShardingStrategy};
use futures::sync::mpsc::{Receiver, Sender, UnboundedSender};
use std::collections::{HashSet, VecDeque};
use std::rc::Rc;
use vstd::prelude::*;

verus! {

/// What `start` hands to the event loop.
#[derive(Debug)]
pub struct StartPlan {
    /// The consuming end of the start-up queue.
    pub queue_receiver: Receiver<u64>,
    /// The sending end of the merged message stream, to be cloned into the
    /// sink of each shard.
    pub sender: UnboundedSender<ShardMessage>,
    /// The id that was pushed onto the start-up queue.
    pub first_shard_id: u64,
    /// The number of shards in the whole deployment.
    pub shards_total: u64,
}

/// Orchestrates the shards of one process.
pub struct ShardManager {
    pub queue: VecDeque<u64>,
    shards: HashSet<u64>,
    pub strategy: ShardingStrategy,
    pub token: Rc<String>,
    pub ws_uri: Rc<String>,
    message_stream: Option<MessageStream>,
    queue_sender: Sender<u64>,
    queue_receiver: Option<Receiver<u64>>,
    phase: Phase,
    shards_total: u64,
    last_attempt: Option<u64>,
    first_shard: Option<u64>,
    unclaimed: u64,
}

impl View for ShardManager {
    type V = ManagerState;

    closed spec fn view(&self) -> ManagerState {
        ManagerState {
            strategy: self.strategy,
            token: self.token@,
            ws_uri: self.ws_uri@,
            first: self.first_shard,
            pending: self.queue@,
            queued: sent_ids(self.queue_sender),
            queue_buffer: buffer_of(self.queue_sender),
            queue_feeds: Set::new(|receiver: Receiver<u64>| feeds_queue(self.queue_sender, receiver)),
            unclaimed: self.unclaimed,
            registered: self.shards@,
            phase: self.phase,
            shards_total: self.shards_total,
            last_attempt: self.last_attempt,
            queue_receiver: self.queue_receiver,
            stream: self.message_stream,
        }
    }
}

/// One more, as far as the counter goes.
fn count_one_more(n: u64) -> (m: u64)
    ensures
        m == crate::sequence::one_more(n),
{
    if n < u64::MAX {
        n + 1
    } else {
        n
    }
}

/// Appends `ids` to the back of `queue`, in order.
fn extend_queue(queue: &mut VecDeque<u64>, ids: &Vec<u64>)
    ensures
        final(queue)@ == old(queue)@ + ids@,
{
    let mut k: usize = 0;
    while k < ids.len()
        invariant
            k <= ids@.len(),
            queue@ == old(queue)@ + ids@.subrange(0, k as int),
        decreases ids@.len() - k,
    {
        queue.push_back(ids[k]);
        k = k + 1;
    }
}

impl ShardManager {
    /// Makes a manager from its options. Nothing is connected and nothing is
    /// queued yet; the manager holds both ends of its start-up queue, and what
    /// it pushes onto the queue comes out of the consuming end it holds.
    pub fn new(options: ShardManagerOptions) -> (m: Self)
        ensures
            m@.queue_receiver is Some,
            m@.queue_feeds.contains(m@.queue_receiver->Some_0),
            m@ == initial_state(options, m@.queue_receiver->Some_0, m@.queue_feeds),
    {
        let (queue_sender, queue_receiver) = startup_channel(STARTUP_QUEUE_BUFFER);
        ShardManager {
            queue: VecDeque::new(),
            shards: HashSet::new(),
            strategy: options.strategy,
            token: options.token,
            ws_uri: options.ws_uri,
            message_stream: None,
            queue_sender,
            queue_receiver: Some(queue_receiver),
            phase: Phase::Idle,
            shards_total: 0,
            last_attempt: None,
            first_shard: None,
            unclaimed: 0,
        }
    }

    /// Starts the manager: resolves the strategy, lines the owned ids up in
    /// ascending order behind whatever is pending, and pushes the first id in
    /// line onto the start-up queue; that id leaves the line, the rest stay
    /// pending. It makes the merged message stream, on which nothing has been
    /// sent yet, and returns at once with what the event loop needs to run the
    /// start-up consumer; no shard is connected yet.
    ///
    /// A manager that was started before, a strategy that names no range, and
    /// a range without shards are refused, and so is the start when the
    /// start-up queue does not take the first id; a refusal changes nothing.
    pub fn start(&mut self) -> (r: Result<StartPlan, StartError>)
        ensures
            match start_refusal(old(self)@) {
                Some(e) => r matches Err(x) && x == e && final(self)@ == old(self)@,
                None => match r {
                    Ok(plan) => {
                        &&& final(self)@.stream is Some
                        &&& final(self)@ == started_state(old(self)@, final(self)@.stream->Some_0)
                        &&& plan.first_shard_id == first_of(
                            old(self)@.pending,
                            old(self)@.strategy.resolved()->Ok_0,
                        )
                        &&& plan.shards_total == old(self)@.strategy.resolved()->Ok_0.total
                        &&& Some(plan.queue_receiver) == old(self)@.queue_receiver
                        &&& feeds(plan.sender, final(self)@.stream->Some_0)
                        &&& sent_messages(plan.sender) == Seq::<ShardMessage>::empty()
                    },
                    Err(e) => e is FirstShardRefused && final(self)@ == old(self)@,
                },
            },
    {
        if self.queue_receiver.is_none() {
            return Err(StartError::AlreadyStarted);
        }
        let range = match self.strategy.resolve() {
            Ok(range) => range,
            Err(e) => {
                return Err(StartError::Strategy(e));
            },
        };
        if range.count == 0 {
            return Err(StartError::NoShards);
        }
        let first_shard_id = if self.queue.len() > 0 {
            self.queue[0]
        } else {
            range.index
        };
        let delivery = try_send_id(&mut self.queue_sender, first_shard_id);
        assert(self@.queue_feeds =~= old(self)@.queue_feeds);
        self.finish_start(range, delivery)
    }

    /// Completes a start on `range` once the start-up queue has answered
    /// `delivery` to the offer of the first id in line.
    ///
    /// Where the queue has taken the id, the ids of the range are lined up in
    /// ascending order behind whatever is pending, the first id in line
    /// leaves the line as the one that was pushed, the merged message stream
    /// is made, and the consuming end of the start-up queue is handed out
    /// with the sending end of the stream. Where the queue has refused the
    /// id, the start is refused with the queue's reason. A manager that was
    /// started before and a range without shards are refused whatever the
    /// queue has answered. A refusal changes nothing.
    pub fn finish_start(&mut self, range: ShardRange, delivery: Result<(), QueueFailure>) -> (r:
        Result<StartPlan, StartError>)
        requires
            range.wf(),
        ensures
            match finish_refusal(old(self)@, range, delivery) {
                Some(e) => r matches Err(x) && x == e && *final(self) == *old(self),
                None => {
                    &&& r is Ok
                    &&& final(self)@.stream is Some
                    &&& final(self)@ == settled(old(self)@, range, final(self)@.stream->Some_0)
                    &&& r->Ok_0.first_shard_id == first_of(old(self)@.pending, range)
                    &&& r->Ok_0.shards_total == range.total
                    &&& Some(r->Ok_0.queue_receiver) == old(self)@.queue_receiver
                    &&& feeds(r->Ok_0.sender, final(self)@.stream->Some_0)
                    &&& sent_messages(r->Ok_0.sender) == Seq::<ShardMessage>::empty()
                },
            },
    {
        if self.queue_receiver.is_none() {
            return Err(StartError::AlreadyStarted);
        }
        if range.count == 0 {
            return Err(StartError::NoShards);
        }
        match delivery {
            Ok(()) => {},
            Err(reason) => {
                return Err(StartError::FirstShardRefused(reason));
            },
        }
        let ids = range.shard_ids();
        extend_queue(&mut self.queue, &ids);
        let first_shard_id = self.queue.pop_front().unwrap();
        let (sender, receiver) = message_channel();
        self.message_stream = Some(receiver);
        self.shards_total = range.total;
        self.first_shard = Some(first_shard_id);
        self.unclaimed = count_one_more(self.unclaimed);
        let queue_receiver = self.queue_receiver.take().unwrap();
        Ok(StartPlan { queue_receiver, sender, first_shard_id, shards_total: range.total })
    }

    /// Hands out the merged message stream: the receiving end of the stream
    /// that `start` has made. It can be taken once: before `start` there is
    /// none, and after it has been taken it is gone.
    pub fn messages(&mut self) -> (r: Result<MessageStream, StreamError>)
        ensures
            r == stream_answer(old(self)@),
            final(self)@ == stream_taken(old(self)@),
    {
        match self.message_stream.take() {
            Some(stream) => Ok(stream),
            None => {
                if self.queue_receiver.is_none() {
                    Err(StreamError::AlreadyTaken)
                } else {
                    Err(StreamError::NotStarted)
                }
            },
        }
    }

    /// Lets the manager react to a gateway event. A ready notification puts
    /// the id of the ready shard back onto the start-up queue, whether or not
    /// the manager knows a shard of that id, which releases the next shard in
    /// line; the push does not wait, and an id the queue does not take is
    /// dropped. A ready notification without a shard id and any other event
    /// leave the manager as it was.
    pub fn process(&mut self, event: &GatewayEvent) -> (r: ProcessOutcome)
        ensures
            match event.ready_signal() {
                ReadySignal::NotReady => r == ProcessOutcome::Ignored,
                ReadySignal::MissingShardId => r == ProcessOutcome::MissingShardId,
                ReadySignal::Shard(id) => r == ProcessOutcome::Requeued(id) || (r matches ProcessOutcome::Dropped {
                    shard_id,
                    ..
                } && shard_id == id),
            },
            final(self)@ == after_process(old(self)@, r),
            !(event.ready_signal() is Shard) ==> *final(self) == *old(self),
    {
        match event.signal() {
            ReadySignal::NotReady => ProcessOutcome::Ignored,
            ReadySignal::MissingShardId => ProcessOutcome::MissingShardId,
            ReadySignal::Shard(shard_id) => {
                let delivery = try_send_id(&mut self.queue_sender, shard_id);
                assert(self@.queue_feeds =~= old(self)@.queue_feeds);
                if delivery.is_ok() {
                    self.unclaimed = count_one_more(self.unclaimed);
                }
                requeue_outcome(shard_id, delivery)
            },
        }
    }

    /// Advances the start-up consumer by one event of the event loop and says
    /// what the loop is to do next.
    ///
    /// An id taken off the start-up queue releases the next shard in line and
    /// asks for the cool-down, unless the manager has pushed no id that was
    /// not taken before; a shard connects once the cool-down has passed
    /// since its release and since the latest attempt; a shard that has
    /// connected is registered; one whose timer or connection failed is given
    /// up, neither queued again nor registered. An event that does not belong
    /// to the current phase changes nothing.
    pub fn advance(&mut self, event: QueueEvent) -> (action: QueueAction)
        ensures
            final(self)@ == advance_state(old(self)@, event),
            action == advance_action(old(self)@, event),
    {
        broadcast use vstd::std_specs::hash::group_hash_axioms;

        match (self.phase, event) {
            (Phase::Idle, QueueEvent::Taken { now }) => {
                if self.unclaimed == 0 {
                    return QueueAction::Ignore;
                }
                self.unclaimed = self.unclaimed - 1;
                let next = match self.first_shard.take() {
                    Some(shard_id) => Some(shard_id),
                    None => self.queue.pop_front(),
                };
                match next {
                    Some(shard_id) => {
                        self.phase = Phase::Cooling { shard_id, taken_at: now };
                        assert(self@.pending =~= old(self)@.upcoming().subrange(
                            1,
                            old(self)@.upcoming().len() as int,
                        ));
                        QueueAction::Sleep { secs: COOLDOWN_SECS }
                    },
                    None => QueueAction::AwaitNext,
                }
            },
            (Phase::Cooling { shard_id, taken_at }, QueueEvent::TimerFired { now }) => {
                let secs = sleep_for(self.last_attempt, taken_at, now);
                if secs == 0 {
                    self.phase = Phase::Connecting { shard_id };
                    self.last_attempt = Some(now);
                    QueueAction::Connect { shard_id, shards_total: self.shards_total }
                } else {
                    QueueAction::Sleep { secs }
                }
            },
            (Phase::Cooling { .. }, QueueEvent::TimerFailed) => {
                self.phase = Phase::Idle;
                QueueAction::AwaitNext
            },
            (Phase::Connecting { shard_id }, QueueEvent::Connected) => {
                self.phase = Phase::Idle;
                self.shards.insert(shard_id);
                QueueAction::Forward { shard_id }
            },
            (Phase::Connecting { .. }, QueueEvent::ConnectFailed) => {
                self.phase = Phase::Idle;
                QueueAction::AwaitNext
            },
            _ => QueueAction::Ignore,
        }
    }

    /// Where the start-up consumer stands.
    pub fn phase(&self) -> (phase: Phase)
        ensures
            phase == self@.phase,
    {
        self.phase
    }

    /// Whether the shard with this id has been registered.
    pub fn is_registered(&self, shard_id: u64) -> (known: bool)
        ensures
            known == self@.registered.contains(shard_id),
    {
        broadcast use vstd::std_specs::hash::group_hash_axioms;

        self.shards.contains(&shard_id)
    }

    /// When the latest connection attempt began, if there has been one.
    pub fn last_attempt(&self) -> (at: Option<u64>)
        ensures
            at == self@.last_attempt,
    {
        self.last_attempt
    }
}

} // verus!
