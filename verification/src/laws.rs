//! What holds of the start-up sequence as a whole.

use crate::channel::{MessageStream, SendProgress, ShardMessage};
use crate::sequence::{
    advance_action, advance_state, after_process, initial_state, start_refusal, started_state,
    stream_answer, stream_taken, ManagerState, Phase, ProcessOutcome, QueueAction, QueueEvent,
    StreamError, COOLDOWN_SECS,
};
use crate::sink::{after_send, MessageSinkError};
use crate::strategy::{ShardManagerOptions, ShardingStrategy};
use futures::sync::mpsc::Receiver;
use vstd::prelude::*;

verus! {

/// A range that lies within its deployment assigns exactly `count` ids to the
/// process: the consecutive ids from `index`, each below `total`.
pub proof fn range_owns_consecutive_ids(index: u64, count: u64, total: u64)
    requires
        index + count <= total,
    ensures
        ShardingStrategy::Range(index, count, total).owned_ids().len() == count,
        forall|k: int|
            0 <= k < count ==> {
                &&& #[trigger] ShardingStrategy::Range(index, count, total).owned_ids()[k] == index
                    + k
                &&& ShardingStrategy::Range(index, count, total).owned_ids()[k] < total
            },
{
}

/// A new manager whose range lies within its deployment and is not empty is
/// not refused. A successful start pushes the lowest id of the range onto the
/// start-up queue and leaves the ids behind it pending: the pushed id followed
/// by the pending ones are exactly the ids of the range, in ascending order,
/// each once.
pub proof fn start_lines_up_owned_ids(
    options: ShardManagerOptions,
    queue_receiver: Receiver<u64>,
    queue_feeds: Set<Receiver<u64>>,
    stream: MessageStream,
)
    requires
        options.strategy matches ShardingStrategy::Range(index, count, total) && count > 0 && index
            + count <= total,
    ensures
        start_refusal(initial_state(options, queue_receiver, queue_feeds)) is None,
        ({
            let started = started_state(initial_state(options, queue_receiver, queue_feeds), stream);
            &&& started.first == Some(options.strategy->Range_0)
            &&& started.queued == seq![options.strategy->Range_0]
            &&& started.unclaimed == 1
            &&& started.pending == options.strategy.owned_ids().subrange(
                1,
                options.strategy->Range_1 as int,
            )
            &&& started.upcoming() == options.strategy.owned_ids()
            &&& started.upcoming().len() == options.strategy->Range_1
            &&& started.shards_total == options.strategy->Range_2
        }),
{
}

/// A process that runs all `count` shards of a deployment owns the ids from 0
/// up to `count`.
pub proof fn multi_owns_every_id(count: u64)
    ensures
        ShardingStrategy::Range(0, count, count).owned_ids() == Seq::new(
            count as nat,
            |k: int| k as u64,
        ),
{
}

/// The single-shard strategy owns the id 0 and no other.
pub proof fn simple_owns_only_zero()
    ensures
        ShardingStrategy::Range(0, 1, 1).owned_ids() == seq![0u64],
{
}

/// The merged stream is handed out at most once: the first request gets the
/// stream that the manager holds, and whatever the state, the request after
/// it is refused; after a start the refusal says that the stream has been
/// taken.
pub proof fn stream_is_taken_once(s: ManagerState)
    ensures
        s.stream matches Some(stream) ==> stream_answer(s) == Ok::<MessageStream, StreamError>(
            stream,
        ),
        stream_answer(stream_taken(s)) is Err,
        s.started() ==> stream_answer(stream_taken(s)) == Err::<MessageStream, StreamError>(
            StreamError::AlreadyTaken,
        ),
{
}

/// Two frames that a sink takes one after the other enter the merged stream
/// in that order, each under the sink's tag and right behind what the sink had
/// sent before; an offer in between that the stream did not take changes
/// nothing of that.
pub proof fn frames_of_a_shard_keep_their_order(
    sent: Seq<ShardMessage>,
    tag: u64,
    first: tungstenite::Message,
    refused: tungstenite::Message,
    refusal: Result<SendProgress<tungstenite::Message>, MessageSinkError>,
    second: tungstenite::Message,
)
    requires
        !(refusal matches Ok(SendProgress::Ready)),
    ensures
        ({
            let taken = Ok::<SendProgress<tungstenite::Message>, MessageSinkError>(
                SendProgress::Ready,
            );
            let after_first = after_send(sent, tag, first, taken);
            let after_refusal = after_send(after_first, tag, refused, refusal);
            let after_second = after_send(after_refusal, tag, second, taken);
            &&& after_second == sent + seq![(tag, first), (tag, second)]
            &&& after_second[sent.len() as int] == (tag, first)
            &&& after_second[sent.len() as int + 1] == (tag, second)
        }),
{
}

/// The state after the consumer has been told `events`, one after the other,
/// from state `s`.
pub open spec fn run(s: ManagerState, events: Seq<QueueEvent>) -> ManagerState
    decreases events.len(),
{
    if events.len() == 0 {
        s
    } else {
        advance_state(run(s, events.drop_last()), events.last())
    }
}

/// What the consumer asks of the event loop in answer to the event at
/// position `i` of `events`, told from state `s`.
pub open spec fn action_at(s: ManagerState, events: Seq<QueueEvent>, i: int) -> QueueAction {
    advance_action(run(s, events.take(i)), events[i])
}

/// Whether a connection attempt begins in answer to the event at position
/// `i`, and then at time `at`.
pub open spec fn attempt_begins(s: ManagerState, events: Seq<QueueEvent>, i: int, at: u64) -> bool {
    &&& 0 <= i < events.len()
    &&& action_at(s, events, i) is Connect
    &&& events[i] == QueueEvent::TimerFired { now: at }
}

/// A connection attempt begins only in answer to a timer, for the shard that
/// is cooling down, and no sooner than the cool-down after that shard's
/// release and after the attempt before it.
pub proof fn connect_waits_for_cooldown(s: ManagerState, event: QueueEvent)
    requires
        advance_action(s, event) is Connect,
    ensures
        s.phase is Cooling,
        event is TimerFired,
        advance_action(s, event)->Connect_shard_id == s.phase->Cooling_shard_id,
        event->TimerFired_now - s.phase->Cooling_taken_at >= COOLDOWN_SECS,
        s.last_attempt matches Some(t) ==> event->TimerFired_now - t >= COOLDOWN_SECS,
        advance_state(s, event).last_attempt == Some(event->TimerFired_now),
{
}

/// Whether the event `event` releases a shard in state `s`: the consumer is
/// idle, it is told that an id came off the start-up queue, the manager has
/// pushed an id that was not taken before, and a shard is in line.
pub open spec fn releases(s: ManagerState, event: QueueEvent) -> bool {
    &&& s.phase is Idle
    &&& event is Taken
    &&& s.unclaimed > 0
    &&& s.upcoming().len() > 0
}

/// A shard is released only by an id taken off the start-up queue while the
/// consumer is idle, and only against an id that the manager has pushed and
/// that was not taken before. The shard released is the first in line, and
/// the line behind it stays as it was.
pub proof fn release_needs_a_taken_id(s: ManagerState, event: QueueEvent)
    requires
        advance_state(s, event).phase is Cooling,
        advance_state(s, event).phase != s.phase,
    ensures
        releases(s, event),
        advance_state(s, event).phase == (Phase::Cooling {
            shard_id: s.upcoming()[0],
            taken_at: event->Taken_now,
        }),
        advance_state(s, event).upcoming() == s.upcoming().subrange(
            1,
            s.upcoming().len() as int,
        ),
        advance_state(s, event).unclaimed == s.unclaimed - 1,
{
}

/// A shard whose timer or connection fails is given up alone: the consumer is
/// idle again, the shard is neither pending nor registered anew, and what was
/// pending and what was registered stay as they were.
pub proof fn failure_stays_with_its_shard(s: ManagerState, event: QueueEvent)
    requires
        (s.phase is Cooling && event is TimerFailed) || (s.phase is Connecting
            && event is ConnectFailed),
    ensures
        advance_state(s, event) == (ManagerState { phase: Phase::Idle, ..s }),
        advance_action(s, event) == QueueAction::AwaitNext,
{
}

/// Whatever the consumer is told, no shard leaves the registry, and a shard
/// enters it only when its connection attempt succeeds.
pub proof fn registry_only_grows(s: ManagerState, events: Seq<QueueEvent>)
    ensures
        s.registered.subset_of(run(s, events).registered),
        events.len() > 0 ==> {
            let before = run(s, events.drop_last());
            ||| run(s, events).registered == before.registered
            ||| {
                &&& before.phase matches Phase::Connecting { shard_id }
                &&& events.last() is Connected
                &&& run(s, events).registered == before.registered.insert(shard_id)
            }
        },
    decreases events.len(),
{
    if events.len() > 0 {
        registry_only_grows(s, events.drop_last());
    }
}

/// Whatever the consumer is told, the time of the latest attempt never moves
/// back.
proof fn last_attempt_never_moves_back(s: ManagerState, events: Seq<QueueEvent>)
    ensures
        s.last_attempt matches Some(t) ==> run(s, events).last_attempt matches Some(u) && u >= t,
    decreases events.len(),
{
    if events.len() > 0 {
        last_attempt_never_moves_back(s, events.drop_last());
    }
}

/// Whatever the consumer is told in whatever order, two connection attempts
/// begin at least the cool-down apart.
pub proof fn attempts_keep_the_cadence(
    s: ManagerState,
    events: Seq<QueueEvent>,
    i: int,
    j: int,
    first: u64,
    second: u64,
)
    requires
        i < j,
        attempt_begins(s, events, i, first),
        attempt_begins(s, events, j, second),
    ensures
        second - first >= COOLDOWN_SECS,
{
    let before = run(s, events.take(i));
    let after = run(s, events.take(i + 1));
    assert(events.take(i + 1).drop_last() =~= events.take(i));
    connect_waits_for_cooldown(before, events[i]);
    let between = events.subrange(i + 1, j);
    run_in_two_legs(s, events.take(i + 1), between);
    assert(events.take(i + 1) + between =~= events.take(j));
    last_attempt_never_moves_back(after, between);
    connect_waits_for_cooldown(run(s, events.take(j)), events[j]);
}

/// Whether every id in `ids` is larger than the one before it.
pub open spec fn ascending(ids: Seq<u64>) -> bool {
    forall|a: int, b: int| 0 <= a < b < ids.len() ==> ids[a] < ids[b]
}

/// Whether the shards of `s` stand in queue order: the ids in line ascend,
/// and the shard that is cooling down or connecting is lower than all of them.
pub open spec fn in_queue_order(s: ManagerState) -> bool {
    &&& ascending(s.upcoming())
    &&& s.phase matches Phase::Cooling { shard_id, .. } ==> forall|k: int|
        0 <= k < s.upcoming().len() ==> shard_id < s.upcoming()[k]
    &&& s.phase matches Phase::Connecting { shard_id } ==> forall|k: int|
        0 <= k < s.upcoming().len() ==> shard_id < s.upcoming()[k]
}

/// Whether all that is still to come in `s` lies above the shard `done`: the
/// ids in line and a shard that is cooling down are higher, a shard that is
/// connecting is `done` itself or higher.
spec fn lies_above(s: ManagerState, done: u64) -> bool {
    &&& in_queue_order(s)
    &&& forall|k: int| 0 <= k < s.upcoming().len() ==> done < s.upcoming()[k]
    &&& s.phase matches Phase::Cooling { shard_id, .. } ==> done < shard_id
    &&& s.phase matches Phase::Connecting { shard_id } ==> done <= shard_id
}

/// A manager that has just been started on a range within its deployment
/// holds its shards in queue order.
pub proof fn start_puts_shards_in_queue_order(
    options: ShardManagerOptions,
    queue_receiver: Receiver<u64>,
    queue_feeds: Set<Receiver<u64>>,
    stream: MessageStream,
)
    requires
        start_refusal(initial_state(options, queue_receiver, queue_feeds)) is None,
    ensures
        in_queue_order(started_state(initial_state(options, queue_receiver, queue_feeds), stream)),
{
}

/// One event leaves all that is still to come above `done`.
proof fn step_keeps_above(s: ManagerState, event: QueueEvent, done: u64)
    requires
        lies_above(s, done),
    ensures
        lies_above(advance_state(s, event), done),
{
}

/// Whatever the consumer is told, all that is still to come stays above
/// `done`.
proof fn run_keeps_above(s: ManagerState, events: Seq<QueueEvent>, done: u64)
    requires
        lies_above(s, done),
    ensures
        lies_above(run(s, events), done),
    decreases events.len(),
{
    if events.len() > 0 {
        run_keeps_above(s, events.drop_last(), done);
        step_keeps_above(run(s, events.drop_last()), events.last(), done);
    }
}

/// One event leaves the shards in queue order.
proof fn step_keeps_queue_order(s: ManagerState, event: QueueEvent)
    requires
        in_queue_order(s),
    ensures
        in_queue_order(advance_state(s, event)),
{
}

/// Whatever the consumer is told, shards that stand in queue order stay in
/// queue order.
pub proof fn run_keeps_queue_order(s: ManagerState, events: Seq<QueueEvent>)
    requires
        in_queue_order(s),
    ensures
        in_queue_order(run(s, events)),
    decreases events.len(),
{
    if events.len() > 0 {
        run_keeps_queue_order(s, events.drop_last());
        step_keeps_queue_order(run(s, events.drop_last()), events.last());
    }
}

/// Whatever the consumer is told, connection attempts begin in queue order:
/// of two attempts the later one is for the higher shard, so that no shard is
/// attempted twice.
pub proof fn attempts_follow_queue_order(
    s: ManagerState,
    events: Seq<QueueEvent>,
    i: int,
    j: int,
)
    requires
        in_queue_order(s),
        0 <= i < j < events.len(),
        action_at(s, events, i) is Connect,
        action_at(s, events, j) is Connect,
    ensures
        action_at(s, events, i)->Connect_shard_id < action_at(s, events, j)->Connect_shard_id,
{
    let done = action_at(s, events, i)->Connect_shard_id;
    let before = run(s, events.take(i));
    let after = run(s, events.take(i + 1));
    run_keeps_queue_order(s, events.take(i));
    assert(events.take(i + 1).drop_last() =~= events.take(i));
    connect_waits_for_cooldown(before, events[i]);
    let between = events.subrange(i + 1, j);
    run_in_two_legs(s, events.take(i + 1), between);
    assert(events.take(i + 1) + between =~= events.take(j));
    run_keeps_above(after, between, done);
    connect_waits_for_cooldown(run(s, events.take(j)), events[j]);
}

/// One thing that happens to a manager.
pub enum ManagerStep {
    /// `start` has been called and has made the merged stream `stream`, if it
    /// was not refused.
    Started { stream: MessageStream },
    /// `process` has reported `outcome`.
    Processed { outcome: ProcessOutcome },
    /// The consumer has been told `event`.
    Told { event: QueueEvent },
}

/// The state that follows `s` when `step` happens. A start that is refused
/// changes nothing.
pub open spec fn step_state(s: ManagerState, step: ManagerStep) -> ManagerState {
    match step {
        ManagerStep::Started { stream } => if start_refusal(s) is None {
            started_state(s, stream)
        } else {
            s
        },
        ManagerStep::Processed { outcome } => after_process(s, outcome),
        ManagerStep::Told { event } => advance_state(s, event),
    }
}

/// The state after `steps` have happened, one after the other, from state
/// `s`.
pub open spec fn history(s: ManagerState, steps: Seq<ManagerStep>) -> ManagerState
    decreases steps.len(),
{
    if steps.len() == 0 {
        s
    } else {
        step_state(history(s, steps.drop_last()), steps.last())
    }
}

/// Whether `step` pushes an id onto the start-up queue in state `s`: a start
/// that is not refused pushes the first id, and a ready notification whose id
/// the queue takes pushes that id.
pub open spec fn is_push(s: ManagerState, step: ManagerStep) -> bool {
    match step {
        ManagerStep::Started { .. } => start_refusal(s) is None,
        ManagerStep::Processed { outcome } => outcome is Requeued,
        ManagerStep::Told { .. } => false,
    }
}

/// How many of `steps`, happening from state `s`, push an id onto the
/// start-up queue.
pub open spec fn pushes_in(s: ManagerState, steps: Seq<ManagerStep>) -> nat
    decreases steps.len(),
{
    if steps.len() == 0 {
        0
    } else {
        pushes_in(s, steps.drop_last()) + if is_push(
            history(s, steps.drop_last()),
            steps.last(),
        ) {
            1nat
        } else {
            0nat
        }
    }
}

/// How many of `steps` are ready notifications whose id the start-up queue
/// has taken.
pub open spec fn requeues_in(steps: Seq<ManagerStep>) -> nat
    decreases steps.len(),
{
    if steps.len() == 0 {
        0
    } else {
        requeues_in(steps.drop_last()) + if steps.last() matches ManagerStep::Processed { outcome }
            && outcome is Requeued {
            1nat
        } else {
            0nat
        }
    }
}

/// How many of `steps`, happening from state `s`, release a shard.
pub open spec fn releases_in(s: ManagerState, steps: Seq<ManagerStep>) -> nat
    decreases steps.len(),
{
    if steps.len() == 0 {
        0
    } else {
        releases_in(s, steps.drop_last()) + if steps.last() matches ManagerStep::Told { event }
            && releases(history(s, steps.drop_last()), event) {
            1nat
        } else {
            0nat
        }
    }
}

/// Whatever happens in whatever order, every push is on record: what the
/// manager has pushed onto the start-up queue grows by one id with each push
/// and not otherwise.
pub proof fn pushes_are_on_record(s: ManagerState, steps: Seq<ManagerStep>)
    ensures
        history(s, steps).queued.len() == s.queued.len() + pushes_in(s, steps),
    decreases steps.len(),
{
    if steps.len() > 0 {
        pushes_are_on_record(s, steps.drop_last());
    }
}

/// Whatever happens in whatever order, the start-up queue keeps its ends:
/// what the manager pushes comes out of the same consuming ends as before, so
/// that the end which a start hands out is the one the manager was made
/// with.
pub proof fn queue_keeps_its_ends(s: ManagerState, steps: Seq<ManagerStep>)
    ensures
        history(s, steps).queue_feeds == s.queue_feeds,
        history(s, steps).queue_buffer == s.queue_buffer,
    decreases steps.len(),
{
    if steps.len() > 0 {
        queue_keeps_its_ends(s, steps.drop_last());
    }
}

/// Whatever happens in whatever order, a manager starts at most once, so that
/// all pushes but one are ready notifications.
pub proof fn one_push_is_the_start(s: ManagerState, steps: Seq<ManagerStep>)
    ensures
        s.started() ==> history(s, steps).started(),
        pushes_in(s, steps) <= requeues_in(steps) + if s.started() {
            0nat
        } else {
            1nat
        },
        !history(s, steps).started() ==> pushes_in(s, steps) == requeues_in(steps),
    decreases steps.len(),
{
    if steps.len() > 0 {
        one_push_is_the_start(s, steps.drop_last());
    }
}

/// Whatever happens in whatever order, shards are released only against
/// pushes: no more shards are released than ids were pushed and not taken
/// before.
pub proof fn releases_wait_for_pushes(s: ManagerState, steps: Seq<ManagerStep>)
    ensures
        releases_in(s, steps) + history(s, steps).unclaimed <= s.unclaimed + pushes_in(s, steps),
    decreases steps.len(),
{
    if steps.len() > 0 {
        releases_wait_for_pushes(s, steps.drop_last());
    }
}

/// From a new manager on, whatever happens in whatever order, the shards
/// released never outnumber the start and the ready notifications that the
/// start-up queue has taken: no shard is released before the start, the
/// second shard waits for the first such ready notification, the third for
/// the second, and so on.
pub proof fn releases_wait_for_ready(
    options: ShardManagerOptions,
    queue_receiver: Receiver<u64>,
    queue_feeds: Set<Receiver<u64>>,
    steps: Seq<ManagerStep>,
)
    ensures
        releases_in(initial_state(options, queue_receiver, queue_feeds), steps) <= 1 + requeues_in(
            steps,
        ),
        !history(initial_state(options, queue_receiver, queue_feeds), steps).started()
            ==> releases_in(initial_state(options, queue_receiver, queue_feeds), steps) == 0,
{
    let s = initial_state(options, queue_receiver, queue_feeds);
    releases_wait_for_pushes(s, steps);
    one_push_is_the_start(s, steps);
    releases_before_start(s, steps);
}

/// Before the start nothing is in line, so nothing is released.
proof fn releases_before_start(s: ManagerState, steps: Seq<ManagerStep>)
    requires
        s.upcoming().len() == 0,
    ensures
        !history(s, steps).started() ==> history(s, steps).upcoming().len() == 0 && releases_in(
            s,
            steps,
        ) == 0,
    decreases steps.len(),
{
    if steps.len() > 0 {
        releases_before_start(s, steps.drop_last());
        one_push_is_the_start(s, steps.drop_last());
        one_push_is_the_start(history(s, steps.drop_last()), seq![steps.last()]);
    }
}

/// While no id is pushed, a consumer against which no push stands open
/// releases no shard, whatever it is told: without a ready notification the
/// next shard in line stays in line.
pub proof fn no_release_without_a_push(s: ManagerState, events: Seq<QueueEvent>, i: int)
    requires
        s.unclaimed == 0,
        0 <= i < events.len(),
    ensures
        run(s, events.take(i)).unclaimed == 0,
        run(s, events.take(i)).upcoming() == s.upcoming(),
        !releases(run(s, events.take(i)), events[i]),
    decreases i,
{
    if i > 0 {
        no_release_without_a_push(s, events, i - 1);
        assert(events.take(i).drop_last() =~= events.take(i - 1));
    }
}

/// Telling the consumer `head` and then `tail` is telling it `head + tail`.
proof fn run_in_two_legs(s: ManagerState, head: Seq<QueueEvent>, tail: Seq<QueueEvent>)
    ensures
        run(s, head + tail) == run(run(s, head), tail),
    decreases tail.len(),
{
    if tail.len() > 0 {
        run_in_two_legs(s, head, tail.drop_last());
        assert((head + tail).drop_last() =~= head + tail.drop_last());
    }
}

} // verus!
