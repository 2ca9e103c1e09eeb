//! The two shapes of gateway event the manager tells apart.

use vstd::prelude::*;

verus! {

/// A dispatched event, reduced to what the manager reads of it.
#[derive(Clone, Debug, PartialEq, Eq)]
pub enum Event {
    /// A shard has finished its handshake. `shard` is the shard list of the
    /// notification, whose first entry is the id of the shard that is ready.
    Ready { shard: Option<Vec<u64>> },
    /// Any other dispatch.
    Other,
}

/// A gateway event, reduced to what the manager reads of it.
#[derive(Clone, Debug, PartialEq, Eq)]
pub enum GatewayEvent {
    /// A dispatch with its sequence number.
    Dispatch(u64, Event),
    /// Anything that is not a dispatch.
    Other,
}

/// What a gateway event means to the start-up sequence.
#[derive(Clone, Copy, Debug, PartialEq, Eq, Structural)]
pub enum ReadySignal {
    /// The event is no ready notification.
    NotReady,
    /// A ready notification that names no shard.
    MissingShardId,
    /// A ready notification for the shard with this id.
    Shard(u64),
}

impl GatewayEvent {
    /// The meaning of the event: a ready notification names the first id of its
    /// shard list, and names none where the list is absent or empty.
    pub open spec fn ready_signal(self) -> ReadySignal {
        match self {
            GatewayEvent::Dispatch(_, Event::Ready { shard: Some(ids) }) => if ids@.len() > 0 {
                ReadySignal::Shard(ids@[0])
            } else {
                ReadySignal::MissingShardId
            },
            GatewayEvent::Dispatch(_, Event::Ready { shard: None }) => ReadySignal::MissingShardId,
            _ => ReadySignal::NotReady,
        }
    }

    /// Reads the meaning of the event.
    pub fn signal(&self) -> (s: ReadySignal)
        ensures
            s == self.ready_signal(),
    {
        match self {
            GatewayEvent::Dispatch(_, Event::Ready { shard: Some(ids) }) => {
                if ids.len() > 0 {
                    ReadySignal::Shard(ids[0])
                } else {
                    ReadySignal::MissingShardId
                }
            },
            GatewayEvent::Dispatch(_, Event::Ready { shard: None }) => ReadySignal::MissingShardId,
            _ => ReadySignal::NotReady,
        }
    }
}

} // verus!
