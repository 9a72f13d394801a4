//! Messages as the transport hands them over, already framed.

use vstd::prelude::*;

verus! {

/// One discrete unit exchanged with a client. A request is an array whose
/// first entry is the verb and whose further entries are the arguments; a
/// reply is one of the scalar variants.
#[derive(Debug, PartialEq, Eq)]
pub enum Message {
    /// A short text, such as an acknowledgement.
    Simple(String),
    /// A failure, described for the client.
    Error(String),
    /// An unsigned number.
    Integer(u64),
    /// An opaque byte payload.
    Bulk(Vec<u8>),
    /// The explicit absence of a value.
    Null,
    /// A sequence of messages.
    Array(Vec<Message>),
}

/// What a [`Message`] holds, as mathematical values.
pub enum MessageView {
    Simple(Seq<char>),
    Error(Seq<char>),
    Integer(u64),
    Bulk(Seq<u8>),
    Null,
    Array(Seq<MessageView>),
}

impl View for Message {
    type V = MessageView;

    open spec fn view(&self) -> MessageView
        decreases self,
    {
        match self {
            Message::Simple(text) => MessageView::Simple(text@),
            Message::Error(text) => MessageView::Error(text@),
            Message::Integer(n) => MessageView::Integer(*n),
            Message::Bulk(bytes) => MessageView::Bulk(bytes@),
            Message::Null => MessageView::Null,
            Message::Array(items) => MessageView::Array(
                Seq::new(
                    items@.len(),
                    |i: int|
                        if 0 <= i < items@.len() {
                            items@[i].view()
                        } else {
                            MessageView::Null
                        },
                ),
            ),
        }
    }
}

} // verus!
