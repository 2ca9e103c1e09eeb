//! The channels of the `futures` crate that carry shard ids to the start-up
//! consumer and tagged frames to the merged stream.
//!
//! Nothing in this file is proved: it declares the outside types and states,
//! for each outside function the library calls, what its source shows.

use futures::sync::mpsc::{Receiver, SendError, Sender, UnboundedReceiver, UnboundedSender};
use vstd::prelude::*;

verus! {

/// The sending half of a bounded `futures` channel.
#[verifier::external_type_specification]
#[verifier::external_body]
#[verifier::reject_recursive_types(T)]
pub struct ExSender<T>(Sender<T>);

/// The receiving half of a bounded `futures` channel.
#[verifier::external_type_specification]
#[verifier::external_body]
#[verifier::reject_recursive_types(T)]
pub struct ExReceiver<T>(Receiver<T>);

/// The sending half of an unbounded `futures` channel.
#[verifier::external_type_specification]
#[verifier::external_body]
#[verifier::reject_recursive_types(T)]
pub struct ExUnboundedSender<T>(UnboundedSender<T>);

/// The receiving half of an unbounded `futures` channel.
#[verifier::external_type_specification]
#[verifier::external_body]
#[verifier::reject_recursive_types(T)]
pub struct ExUnboundedReceiver<T>(UnboundedReceiver<T>);

/// The error of a send on a channel whose receiver is gone.
#[verifier::external_type_specification]
#[verifier::external_body]
#[verifier::reject_recursive_types(T)]
pub struct ExSendError<T>(SendError<T>);

/// A WebSocket frame as `tungstenite` hands it out.
#[verifier::external_type_specification]
#[verifier::external_body]
pub struct ExFrame(tungstenite::Message);

/// A WebSocket error of `tungstenite`.
#[verifier::external_type_specification]
#[verifier::external_body]
pub struct ExTransportError(tungstenite::Error);

/// A frame together with the id of the shard it came from.
pub type ShardMessage = (u64, tungstenite::Message);

/// The merged stream of tagged frames, as the caller receives it.
pub type MessageStream = UnboundedReceiver<ShardMessage>;

/// Why the start-up queue did not take an id.
#[derive(Clone, Copy, Debug, PartialEq, Eq, Structural)]
pub enum QueueFailure {
    /// The queue holds as many ids as it has room for.
    Full,
    /// The consumer of the queue is gone.
    Disconnected,
}

/// What a sink says to the start of a send.
#[derive(Debug, PartialEq)]
pub enum SendProgress<T> {
    /// The item was taken.
    Ready,
    /// The sink has no room; the item comes back.
    NotReady(T),
}

/// Whether a sink has nothing left to flush.
#[derive(Clone, Copy, Debug, PartialEq, Eq, Structural)]
pub enum Completion {
    Ready,
    NotReady,
}

/// The ids that a sending half of the start-up queue has put on the queue so
/// far, oldest first. What the receiving half has taken out since is not told
/// here.
pub uninterp spec fn sent_ids(sender: Sender<u64>) -> Seq<u64>;

/// The buffer size that the start-up queue of a sending half was made with.
pub uninterp spec fn buffer_of(sender: Sender<u64>) -> usize;

/// The messages that a sending half of the merged stream has put into the
/// stream so far, oldest first. What the receiving half has taken out since is
/// not told here.
pub uninterp spec fn sent_messages(sender: UnboundedSender<ShardMessage>) -> Seq<ShardMessage>;

/// Whether `sender` is a sending half of the start-up queue whose receiving
/// half is `receiver`: what the one pushes is what the other hands out.
pub uninterp spec fn feeds_queue(sender: Sender<u64>, receiver: Receiver<u64>) -> bool;

/// Whether `sender` is a sending half of the merged stream whose receiving
/// half is `receiver`: what the one pushes is what the other hands out.
pub uninterp spec fn feeds(
    sender: UnboundedSender<ShardMessage>,
    receiver: UnboundedReceiver<ShardMessage>,
) -> bool;

/// The text by which `tungstenite` describes one of its errors.
pub uninterp spec fn transport_description(error: tungstenite::Error) -> Seq<char>;

/// `futures::sync::mpsc::channel`: a bounded channel for shard ids, made with
/// the buffer size `buffer`, on which nothing has been sent yet. Its two
/// halves belong together: they share the one queue that the source makes for
/// them. The source panics when `buffer` is not below its `MAX_BUFFER`, a
/// quarter of the address space.
#[verifier::external_body]
pub(crate) fn startup_channel(buffer: usize) -> (ends: (Sender<u64>, Receiver<u64>))
    requires
        buffer < usize::MAX / 4,
    ensures
        buffer_of(ends.0) == buffer,
        sent_ids(ends.0) == Seq::<u64>::empty(),
        feeds_queue(ends.0, ends.1),
{
    futures::sync::mpsc::channel(buffer)
}

/// `futures::sync::mpsc::unbounded`: an unbounded channel for tagged frames,
/// on which nothing has been sent yet. Its two halves belong together: they
/// share the one queue that the source makes for them.
#[verifier::external_body]
pub(crate) fn message_channel() -> (ends: (
    UnboundedSender<ShardMessage>,
    UnboundedReceiver<ShardMessage>,
))
    ensures
        sent_messages(ends.0) == Seq::<ShardMessage>::empty(),
        feeds(ends.0, ends.1),
{
    futures::sync::mpsc::unbounded()
}

/// `Sender::try_send`: offers `id` to the queue without waiting. An id that
/// is taken is pushed onto the queue; one that is refused is not, and the
/// refusal is told apart by `is_full`. Whether the queue takes the id depends
/// on what its consumer has taken out so far, so nothing is claimed of that.
/// The sender stays the sending half of the queue it was made for.
#[verifier::external_body]
pub(crate) fn try_send_id(sender: &mut Sender<u64>, id: u64) -> (r: Result<(), QueueFailure>)
    ensures
        buffer_of(*final(sender)) == buffer_of(*old(sender)),
        forall|receiver: Receiver<u64>|
            feeds_queue(*final(sender), receiver) == feeds_queue(*old(sender), receiver),
        r is Ok ==> sent_ids(*final(sender)) == sent_ids(*old(sender)).push(id),
        r is Err ==> sent_ids(*final(sender)) == sent_ids(*old(sender)),
{
    match sender.try_send(id) {
        Ok(()) => Ok(()),
        Err(e) => Err(if e.is_full() { QueueFailure::Full } else { QueueFailure::Disconnected }),
    }
}

/// `Sink::start_send` of an `UnboundedSender`: starts the send of `message`.
/// A message that is taken is pushed into the stream. A sink that is not
/// ready gives back the value it was offered and pushes nothing, and neither
/// does a send that fails.
#[verifier::external_body]
pub(crate) fn start_send_message(
    sender: &mut UnboundedSender<ShardMessage>,
    message: ShardMessage,
) -> (r: Result<SendProgress<ShardMessage>, SendError<ShardMessage>>)
    ensures
        r matches Ok(SendProgress::Ready) ==> sent_messages(*final(sender)) == sent_messages(
            *old(sender),
        ).push(message),
        r matches Ok(SendProgress::NotReady(back)) ==> back == message,
        !(r matches Ok(SendProgress::Ready)) ==> sent_messages(*final(sender)) == sent_messages(
            *old(sender),
        ),
{
    match futures::Sink::start_send(sender, message) {
        Ok(futures::AsyncSink::Ready) => Ok(SendProgress::Ready),
        Ok(futures::AsyncSink::NotReady(back)) => Ok(SendProgress::NotReady(back)),
        Err(e) => Err(e),
    }
}

/// `Sink::poll_complete` of an `UnboundedSender`: asks whether everything
/// sent so far has been handed on. It sends nothing, and its answer is always
/// `Ready`. In the source the answer is that of the bounded sender inside,
/// which turns every error of its `poll_ready` into `Ready` and else answers
/// `Ready` unless the sender is parked; a sender is parked only by a send that
/// finds more messages queued than the buffer of its channel holds, and the
/// channel that `unbounded` makes has no buffer limit.
#[verifier::external_body]
pub(crate) fn poll_complete_messages(sender: &mut UnboundedSender<ShardMessage>) -> (r: Result<
    Completion,
    SendError<ShardMessage>,
>)
    ensures
        sent_messages(*final(sender)) == sent_messages(*old(sender)),
        r is Ok,
        r->Ok_0 == Completion::Ready,
{
    match futures::Sink::poll_complete(sender) {
        Ok(futures::Async::Ready(())) => Ok(Completion::Ready),
        Ok(futures::Async::NotReady) => Ok(Completion::NotReady),
        Err(e) => Err(e),
    }
}

/// `std::error::Error::description` of a `SendError`, which is one fixed
/// text in the source.
#[verifier::external_body]
#[allow(deprecated)]
pub(crate) fn send_error_description(error: &SendError<ShardMessage>) -> (text: String)
    ensures
        text@ == "send failed because receiver is gone"@,
{
    std::error::Error::description(error).to_string()
}

/// `std::error::Error::description` of a `tungstenite::Error`: a text that
/// depends on the error alone.
#[verifier::external_body]
#[allow(deprecated)]
pub(crate) fn transport_error_description(error: &tungstenite::Error) -> (text: String)
    ensures
        text@ == transport_description(*error),
{
    std::error::Error::description(error).to_string()
}

} // verus!
