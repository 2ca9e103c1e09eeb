//! The fan-in sink: tags the frames of one shard with the shard's id and
//! passes them into the merged message stream, without a buffer of its own.

use crate::channel::{
    poll_complete_messages, send_error_description, sent_messages, start_send_message,
    transport_description, transport_error_description, Completion, SendProgress, ShardMessage,
};
use futures::sync::mpsc::{SendError, UnboundedSender};
use vstd::prelude::*;
use vstd::std_specs::convert::FromSpecImpl;

verus! {

/// Why a frame did not get from a shard into the merged stream.
#[derive(Debug)]
pub enum MessageSinkError {
    /// The merged stream did not take the message: its receiver is gone.
    MpscSend(SendError<ShardMessage>),
    /// The shard's transport failed.
    Tungstenite(tungstenite::Error),
}

impl From<SendError<ShardMessage>> for MessageSinkError {
    fn from(e: SendError<ShardMessage>) -> (r: Self) {
        MessageSinkError::MpscSend(e)
    }
}

impl FromSpecImpl<SendError<ShardMessage>> for MessageSinkError {
    open spec fn obeys_from_spec() -> bool {
        true
    }

    open spec fn from_spec(e: SendError<ShardMessage>) -> Self {
        MessageSinkError::MpscSend(e)
    }
}

impl From<tungstenite::Error> for MessageSinkError {
    fn from(e: tungstenite::Error) -> (r: Self) {
        MessageSinkError::Tungstenite(e)
    }
}

impl FromSpecImpl<tungstenite::Error> for MessageSinkError {
    open spec fn obeys_from_spec() -> bool {
        true
    }

    open spec fn from_spec(e: tungstenite::Error) -> Self {
        MessageSinkError::Tungstenite(e)
    }
}

impl MessageSinkError {
    /// The text that describes the error: that of the error it wraps.
    pub open spec fn description_text(self) -> Seq<char> {
        match self {
            MessageSinkError::MpscSend(_) => "send failed because receiver is gone"@,
            MessageSinkError::Tungstenite(e) => transport_description(e),
        }
    }

    /// Describes the error by the description of the error it wraps.
    pub fn description(&self) -> (text: String)
        ensures
            text@ == self.description_text(),
    {
        match self {
            MessageSinkError::MpscSend(e) => send_error_description(e),
            MessageSinkError::Tungstenite(e) => transport_error_description(e),
        }
    }
}

/// What the sink answers when the merged stream has answered `answer` to a
/// tagged message: a message that comes back for want of room comes back
/// without its tag, and an error of the stream is wrapped.
pub open spec fn relayed(answer: Result<SendProgress<ShardMessage>, SendError<ShardMessage>>)
    -> Result<SendProgress<tungstenite::Message>, MessageSinkError> {
    match answer {
        Ok(SendProgress::Ready) => Ok(SendProgress::Ready),
        Ok(SendProgress::NotReady(back)) => Ok(SendProgress::NotReady(back.1)),
        Err(e) => Err(MessageSinkError::MpscSend(e)),
    }
}

/// What a sink has put into the merged stream after it has answered `answer`
/// to the frame `item`, when it had put `sent` into the stream before: a frame
/// that is taken stands at the end, with the sink's tag; a frame that is not
/// taken leaves no trace.
pub open spec fn after_send(
    sent: Seq<ShardMessage>,
    tag: u64,
    item: tungstenite::Message,
    answer: Result<SendProgress<tungstenite::Message>, MessageSinkError>,
) -> Seq<ShardMessage> {
    if answer matches Ok(SendProgress::Ready) {
        sent.push((tag, item))
    } else {
        sent
    }
}

/// Turns the answer of the merged stream to a tagged message into the answer
/// of the sink.
pub fn relay(answer: Result<SendProgress<ShardMessage>, SendError<ShardMessage>>) -> (r: Result<
    SendProgress<tungstenite::Message>,
    MessageSinkError,
>)
    ensures
        r == relayed(answer),
{
    match answer {
        Ok(SendProgress::Ready) => Ok(SendProgress::Ready),
        Ok(SendProgress::NotReady((_, item))) => Ok(SendProgress::NotReady(item)),
        Err(e) => Err(MessageSinkError::from(e)),
    }
}

/// The sink of one shard.
pub struct MessageSink {
    shard_id: u64,
    sender: UnboundedSender<ShardMessage>,
}

impl MessageSink {
    /// The id with which the sink tags what it is sent.
    pub closed spec fn tag(&self) -> u64 {
        self.shard_id
    }

    /// The messages the sink's sender has put into the merged stream so far,
    /// oldest first.
    pub closed spec fn sent(&self) -> Seq<ShardMessage> {
        sent_messages(self.sender)
    }

    /// Binds a sink to a shard and to the sending end of the merged stream.
    pub fn new(shard_id: u64, sender: UnboundedSender<ShardMessage>) -> (sink: Self)
        ensures
            sink.tag() == shard_id,
            sink.sent() == sent_messages(sender),
    {
        MessageSink { shard_id, sender }
    }

    /// The id of the shard the sink belongs to.
    pub fn shard_id(&self) -> (id: u64)
        ensures
            id == self.tag(),
    {
        self.shard_id
    }

    /// Pairs a frame with the id of the sink's shard.
    pub fn tagged(&self, item: tungstenite::Message) -> (message: ShardMessage)
        ensures
            message == (self.tag(), item),
    {
        (self.shard_id, item)
    }

    /// Offers a frame of the shard to the merged stream, tagged with the
    /// shard's id. Where the stream has no room the frame comes back as it
    /// was given, so that the same frame can be offered again.
    pub fn start_send(&mut self, item: tungstenite::Message) -> (r: Result<
        SendProgress<tungstenite::Message>,
        MessageSinkError,
    >)
        ensures
            final(self).tag() == old(self).tag(),
            final(self).sent() == after_send(old(self).sent(), old(self).tag(), item, r),
            r matches Ok(SendProgress::NotReady(back)) ==> back == item,
            r matches Err(e) ==> e is MpscSend,
    {
        let message = self.tagged(item);
        let answer = start_send_message(&mut self.sender, message);
        relay(answer)
    }

    /// Asks the merged stream whether everything sent so far has been handed
    /// on, and hands back the stream's own answer. The sink holds nothing
    /// back and the stream is unbounded, so the answer is always `Ready`;
    /// nothing is sent on the way.
    pub fn poll_complete(&mut self) -> (r: Result<Completion, MessageSinkError>)
        ensures
            final(self).tag() == old(self).tag(),
            final(self).sent() == old(self).sent(),
            r == Ok::<Completion, MessageSinkError>(Completion::Ready),
    {
        match poll_complete_messages(&mut self.sender) {
            Ok(completion) => Ok(completion),
            Err(e) => Err(MessageSinkError::from(e)),
        }
    }
}

} // verus!
