//! Replies, one per command, and how each is put on the wire.

use crate::message::{Message, MessageView};
use vstd::prelude::*;

verus! {

/// The answer to one request.
#[derive(Debug, Clone, PartialEq, Eq)]
pub enum Reply {
    /// The command was carried out; there is nothing to hand back.
    Ack,
    /// The value that was asked for.
    BulkValue(Vec<u8>),
    /// The key holds no value.
    Nil,
    /// The request could not be served; the text says why.
    Error(String),
}

/// What a [`Reply`] holds, as mathematical values.
pub enum ReplyView {
    Ack,
    BulkValue(Seq<u8>),
    Nil,
    Error(Seq<char>),
}

impl View for Reply {
    type V = ReplyView;

    open spec fn view(&self) -> ReplyView {
        match self {
            Reply::Ack => ReplyView::Ack,
            Reply::BulkValue(bytes) => ReplyView::BulkValue(bytes@),
            Reply::Nil => ReplyView::Nil,
            Reply::Error(text) => ReplyView::Error(text@),
        }
    }
}

/// The text of the acknowledgement that answers a successful write.
pub open spec fn acknowledgement() -> Seq<char> {
    "OK"@
}

/// The text of the reply to a request that is no supported command.
pub open spec fn unsupported_text() -> Seq<char> {
    "ERR unsupported command"@
}

/// The message that carries `reply` to the client: an acknowledgement is a
/// simple text, a value is a bulk payload, absence is the null message and a
/// failure is an error message with the same text.
pub open spec fn encode(reply: ReplyView) -> MessageView {
    match reply {
        ReplyView::Ack => MessageView::Simple(acknowledgement()),
        ReplyView::BulkValue(bytes) => MessageView::Bulk(bytes),
        ReplyView::Nil => MessageView::Null,
        ReplyView::Error(text) => MessageView::Error(text),
    }
}

impl Reply {
    /// The reply to a request that is no supported command.
    pub fn unsupported() -> (reply: Reply)
        ensures
            reply@ == ReplyView::Error(unsupported_text()),
    {
        Reply::Error("ERR unsupported command".to_string())
    }

    /// Encodes the reply as the message to write to the client.
    pub fn to_message(&self) -> (message: Message)
        ensures
            message@ == encode(self@),
    {
        match self {
            Reply::Ack => Message::Simple("OK".to_string()),
            Reply::BulkValue(bytes) => Message::Bulk(bytes.clone()),
            Reply::Nil => Message::Null,
            Reply::Error(text) => Message::Error(text.clone()),
        }
    }
}

} // verus!
