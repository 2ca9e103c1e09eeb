use futures::sync::mpsc::Receiver;
use futures::{future, Async, Future, Stream};
use shard_manager::event::{Event, GatewayEvent};
use shard_manager::manager::ShardManager;
use shard_manager::sequence::{
    cooldown_left, sleep_for, Phase, ProcessOutcome, QueueAction, QueueEvent, COOLDOWN_SECS,
};
use shard_manager::strategy::{ShardManagerOptions, ShardingStrategy};
use std::rc::Rc;

fn manager(strategy: ShardingStrategy) -> ShardManager {
    ShardManager::new(ShardManagerOptions {
        strategy,
        token: Rc::new(String::from("token")),
        ws_uri: Rc::new(String::from("wss://gateway")),
    })
}

fn ready(id: u64) -> GatewayEvent {
    GatewayEvent::Dispatch(1, Event::Ready { shard: Some(vec![id]) })
}

/// The next id on the start-up queue, if one is there right now.
fn take(receiver: &mut Receiver<u64>) -> Option<u64> {
    let polled = future::lazy(|| Ok::<_, ()>(receiver.poll())).wait();
    match polled {
        Ok(Ok(Async::Ready(Some(id)))) => Some(id),
        _ => None,
    }
}

fn pending(m: &ShardManager) -> Vec<u64> {
    m.queue.iter().cloned().collect()
}

#[test]
fn cooldown_is_six_seconds() {
    assert_eq!(COOLDOWN_SECS, 6);
}

#[test]
fn cooldown_left_counts_down_from_the_anchor() {
    assert_eq!(cooldown_left(10, 10), 6);
    assert_eq!(cooldown_left(10, 11), 5);
    assert_eq!(cooldown_left(10, 15), 1);
    assert_eq!(cooldown_left(10, 16), 0);
    assert_eq!(cooldown_left(10, 1000), 0);
    assert_eq!(cooldown_left(0, u64::MAX), 0);
}

#[test]
fn cooldown_left_is_whole_when_the_clock_reads_earlier() {
    assert_eq!(cooldown_left(10, 9), 6);
    assert_eq!(cooldown_left(u64::MAX, 0), 6);
}

#[test]
fn sleep_for_takes_the_longer_of_the_two_waits() {
    assert_eq!(sleep_for(None, 10, 12), 4);
    assert_eq!(sleep_for(Some(4), 10, 12), 4);
    assert_eq!(sleep_for(Some(11), 10, 12), 5);
    assert_eq!(sleep_for(Some(11), 10, 16), 1);
    assert_eq!(sleep_for(Some(11), 10, 17), 0);
    assert_eq!(sleep_for(None, 10, 16), 0);
}

#[test]
fn taken_id_releases_the_next_pending_shard() {
    let mut m = manager(ShardingStrategy::range(2, 2, 8));
    let _plan = m.start().unwrap();
    assert_eq!(m.advance(QueueEvent::Taken { now: 100 }), QueueAction::Sleep { secs: 6 });
    assert_eq!(m.phase(), Phase::Cooling { shard_id: 2, taken_at: 100 });
    assert_eq!(pending(&m), vec![3]);
}

#[test]
fn taken_id_with_nothing_in_line_releases_nothing() {
    let mut m = manager(ShardingStrategy::simple());
    assert_eq!(m.process(&ready(4)), ProcessOutcome::Requeued(4));
    assert_eq!(m.advance(QueueEvent::Taken { now: 5 }), QueueAction::AwaitNext);
    assert_eq!(m.phase(), Phase::Idle);
}

#[test]
fn taken_id_that_was_never_pushed_is_not_believed() {
    let mut m = manager(ShardingStrategy::multi(3));
    assert_eq!(m.advance(QueueEvent::Taken { now: 5 }), QueueAction::Ignore);
    let _plan = m.start().unwrap();
    assert_eq!(m.advance(QueueEvent::Taken { now: 5 }), QueueAction::Sleep { secs: 6 });
    m.advance(QueueEvent::TimerFired { now: 11 });
    m.advance(QueueEvent::Connected);
    // one id was pushed and one was taken: without a ready notification no
    // further shard is released
    assert_eq!(m.advance(QueueEvent::Taken { now: 20 }), QueueAction::Ignore);
    assert_eq!(m.advance(QueueEvent::Taken { now: 30 }), QueueAction::Ignore);
    assert_eq!(m.phase(), Phase::Idle);
    assert_eq!(pending(&m), vec![1, 2]);
    // a ready notification that the queue takes lets one more shard through
    assert_eq!(m.process(&ready(0)), ProcessOutcome::Requeued(0));
    assert_eq!(m.advance(QueueEvent::Taken { now: 40 }), QueueAction::Sleep { secs: 6 });
    assert_eq!(m.phase(), Phase::Cooling { shard_id: 1, taken_at: 40 });
    m.advance(QueueEvent::TimerFired { now: 46 });
    m.advance(QueueEvent::ConnectFailed);
    assert_eq!(m.advance(QueueEvent::Taken { now: 50 }), QueueAction::Ignore);
    assert_eq!(pending(&m), vec![2]);
}

#[test]
fn ready_notification_without_a_shard_lets_no_shard_through() {
    let mut m = manager(ShardingStrategy::multi(2));
    let _plan = m.start().unwrap();
    m.advance(QueueEvent::Taken { now: 0 });
    m.advance(QueueEvent::TimerFired { now: 6 });
    m.advance(QueueEvent::Connected);
    let nameless = GatewayEvent::Dispatch(1, Event::Ready { shard: None });
    assert_eq!(m.process(&nameless), ProcessOutcome::MissingShardId);
    assert_eq!(m.process(&GatewayEvent::Other), ProcessOutcome::Ignored);
    assert_eq!(m.advance(QueueEvent::Taken { now: 20 }), QueueAction::Ignore);
    assert_eq!(pending(&m), vec![1]);
}

#[test]
fn timer_before_the_cooldown_asks_for_the_rest() {
    let mut m = manager(ShardingStrategy::simple());
    let _plan = m.start().unwrap();
    m.advance(QueueEvent::Taken { now: 100 });
    assert_eq!(m.advance(QueueEvent::TimerFired { now: 104 }), QueueAction::Sleep { secs: 2 });
    assert_eq!(m.advance(QueueEvent::TimerFired { now: 99 }), QueueAction::Sleep { secs: 6 });
    assert_eq!(m.phase(), Phase::Cooling { shard_id: 0, taken_at: 100 });
    assert_eq!(m.last_attempt(), None);
}

#[test]
fn timer_after_the_cooldown_connects_the_shard() {
    let mut m = manager(ShardingStrategy::range(2, 2, 8));
    let _plan = m.start().unwrap();
    m.advance(QueueEvent::Taken { now: 100 });
    assert_eq!(
        m.advance(QueueEvent::TimerFired { now: 106 }),
        QueueAction::Connect { shard_id: 2, shards_total: 8 }
    );
    assert_eq!(m.phase(), Phase::Connecting { shard_id: 2 });
    assert_eq!(m.last_attempt(), Some(106));
    assert!(!m.is_registered(2));
}

#[test]
fn connected_shard_is_registered() {
    let mut m = manager(ShardingStrategy::range(2, 2, 8));
    let _plan = m.start().unwrap();
    m.advance(QueueEvent::Taken { now: 100 });
    m.advance(QueueEvent::TimerFired { now: 106 });
    assert_eq!(m.advance(QueueEvent::Connected), QueueAction::Forward { shard_id: 2 });
    assert_eq!(m.phase(), Phase::Idle);
    assert!(m.is_registered(2));
    assert!(!m.is_registered(3));
    assert_eq!(pending(&m), vec![3]);
}

#[test]
fn failed_connection_is_given_up() {
    let mut m = manager(ShardingStrategy::range(2, 2, 8));
    let _plan = m.start().unwrap();
    m.advance(QueueEvent::Taken { now: 100 });
    m.advance(QueueEvent::TimerFired { now: 106 });
    assert_eq!(m.advance(QueueEvent::ConnectFailed), QueueAction::AwaitNext);
    assert_eq!(m.phase(), Phase::Idle);
    assert!(!m.is_registered(2));
    assert_eq!(pending(&m), vec![3]);
    assert_eq!(m.last_attempt(), Some(106));
}

#[test]
fn failed_timer_gives_the_shard_up() {
    let mut m = manager(ShardingStrategy::range(2, 2, 8));
    let _plan = m.start().unwrap();
    m.advance(QueueEvent::Taken { now: 100 });
    assert_eq!(m.advance(QueueEvent::TimerFailed), QueueAction::AwaitNext);
    assert_eq!(m.phase(), Phase::Idle);
    assert_eq!(pending(&m), vec![3]);
    assert_eq!(m.last_attempt(), None);
}

#[test]
fn events_of_another_phase_are_ignored() {
    let mut m = manager(ShardingStrategy::multi(2));
    let _plan = m.start().unwrap();
    assert_eq!(m.advance(QueueEvent::TimerFired { now: 50 }), QueueAction::Ignore);
    assert_eq!(m.advance(QueueEvent::TimerFailed), QueueAction::Ignore);
    assert_eq!(m.advance(QueueEvent::Connected), QueueAction::Ignore);
    assert_eq!(m.advance(QueueEvent::ConnectFailed), QueueAction::Ignore);
    assert_eq!(m.phase(), Phase::Idle);
    m.advance(QueueEvent::Taken { now: 0 });
    assert_eq!(m.advance(QueueEvent::Taken { now: 1 }), QueueAction::Ignore);
    assert_eq!(m.advance(QueueEvent::Connected), QueueAction::Ignore);
    assert_eq!(m.advance(QueueEvent::ConnectFailed), QueueAction::Ignore);
    assert_eq!(m.phase(), Phase::Cooling { shard_id: 0, taken_at: 0 });
    assert_eq!(pending(&m), vec![1]);
    m.advance(QueueEvent::TimerFired { now: 6 });
    assert_eq!(m.advance(QueueEvent::Taken { now: 7 }), QueueAction::Ignore);
    assert_eq!(m.advance(QueueEvent::TimerFired { now: 20 }), QueueAction::Ignore);
    assert_eq!(m.advance(QueueEvent::TimerFailed), QueueAction::Ignore);
    assert_eq!(m.phase(), Phase::Connecting { shard_id: 0 });
    assert_eq!(m.last_attempt(), Some(6));
    assert!(!m.is_registered(0));
}

#[test]
fn attempt_waits_for_the_cooldown_since_the_latest_attempt() {
    let mut m = manager(ShardingStrategy::multi(2));
    let _plan = m.start().unwrap();
    m.advance(QueueEvent::Taken { now: 0 });
    m.advance(QueueEvent::TimerFired { now: 20 });
    m.advance(QueueEvent::Connected);
    assert_eq!(m.last_attempt(), Some(20));
    assert_eq!(m.process(&ready(0)), ProcessOutcome::Requeued(0));
    // a clock that reads earlier at the release than at the attempt before it
    m.advance(QueueEvent::Taken { now: 10 });
    assert_eq!(m.advance(QueueEvent::TimerFired { now: 16 }), QueueAction::Sleep { secs: 6 });
    assert_eq!(m.advance(QueueEvent::TimerFired { now: 25 }), QueueAction::Sleep { secs: 1 });
    assert_eq!(
        m.advance(QueueEvent::TimerFired { now: 26 }),
        QueueAction::Connect { shard_id: 1, shards_total: 2 }
    );
}

#[test]
fn owned_shards_start_in_order_a_cooldown_apart_and_after_ready() {
    let mut m = manager(ShardingStrategy::multi(3));
    let mut plan = m.start().unwrap();
    let mut attempts: Vec<(u64, u64)> = Vec::new();
    let mut readies: Vec<(u64, u64)> = Vec::new();
    let mut now: u64 = 0;
    for round in 0..3u64 {
        // the consumer finds the id that unblocks it
        assert!(take(&mut plan.queue_receiver).is_some());
        assert_eq!(m.advance(QueueEvent::Taken { now }), QueueAction::Sleep { secs: 6 });
        // a timer that fires early does not start the shard
        assert_eq!(
            m.advance(QueueEvent::TimerFired { now: now + 5 }),
            QueueAction::Sleep { secs: 1 }
        );
        now += 6;
        assert_eq!(
            m.advance(QueueEvent::TimerFired { now }),
            QueueAction::Connect { shard_id: round, shards_total: 3 }
        );
        attempts.push((round, now));
        now += 2;
        assert_eq!(m.advance(QueueEvent::Connected), QueueAction::Forward { shard_id: round });
        // until the shard is ready the queue stays empty: the next one is held back
        assert_eq!(take(&mut plan.queue_receiver), None);
        now += 3;
        assert_eq!(m.process(&ready(round)), ProcessOutcome::Requeued(round));
        readies.push((round, now));
    }
    assert_eq!(attempts, vec![(0, 6), (1, 17), (2, 28)]);
    assert_eq!(readies, vec![(0, 11), (1, 22), (2, 33)]);
    for k in 1..3 {
        let floor = std::cmp::max(attempts[k - 1].1 + COOLDOWN_SECS, readies[k - 1].1);
        assert!(attempts[k].1 >= floor);
    }
    // the last ready notification finds nothing left to release
    assert_eq!(take(&mut plan.queue_receiver), Some(2));
    assert_eq!(m.advance(QueueEvent::Taken { now }), QueueAction::AwaitNext);
    assert_eq!(m.phase(), Phase::Idle);
    assert!(m.is_registered(0) && m.is_registered(1) && m.is_registered(2));
}

#[test]
fn second_shard_connects_only_after_cooldown_and_ready() {
    let mut m = manager(ShardingStrategy::range(0, 2, 2));
    let mut plan = m.start().unwrap();
    assert_eq!(take(&mut plan.queue_receiver), Some(0));
    assert_eq!(m.advance(QueueEvent::Taken { now: 0 }), QueueAction::Sleep { secs: 6 });
    assert_eq!(
        m.advance(QueueEvent::TimerFired { now: 6 }),
        QueueAction::Connect { shard_id: 0, shards_total: 2 }
    );
    assert_eq!(m.advance(QueueEvent::Connected), QueueAction::Forward { shard_id: 0 });
    // the cool-down since the first attempt passes, but shard 0 is not ready yet
    assert_eq!(take(&mut plan.queue_receiver), None);
    assert_eq!(m.advance(QueueEvent::TimerFired { now: 30 }), QueueAction::Ignore);
    assert_eq!(m.advance(QueueEvent::Taken { now: 30 }), QueueAction::Ignore);
    assert_eq!(m.phase(), Phase::Idle);
    assert_eq!(pending(&m), vec![1]);
    // the ready notification of shard 0 arrives at 40
    assert_eq!(m.process(&ready(0)), ProcessOutcome::Requeued(0));
    assert_eq!(take(&mut plan.queue_receiver), Some(0));
    assert_eq!(m.advance(QueueEvent::Taken { now: 40 }), QueueAction::Sleep { secs: 6 });
    // the notification alone is not enough either: the cool-down runs again
    assert_eq!(m.advance(QueueEvent::TimerFired { now: 45 }), QueueAction::Sleep { secs: 1 });
    assert_eq!(m.phase(), Phase::Cooling { shard_id: 1, taken_at: 40 });
    assert_eq!(
        m.advance(QueueEvent::TimerFired { now: 46 }),
        QueueAction::Connect { shard_id: 1, shards_total: 2 }
    );
    assert_eq!(m.advance(QueueEvent::Connected), QueueAction::Forward { shard_id: 1 });
    assert!(m.is_registered(0) && m.is_registered(1));
    assert_eq!(pending(&m), Vec::<u64>::new());
}
