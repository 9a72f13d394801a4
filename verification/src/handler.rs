//! The handler of one client connection, as a state machine.
//!
//! The handler never touches the transport. It says what is to be done next
//! ([`Handler::action`]); the program that owns the connection does it and
//! reports how it went ([`Handler::on_read`], [`Handler::on_write`]). Only the
//! dispatch step ([`Handler::dispatch`]) sees the store.

use crate::command::{decode, Command, CommandView};
use crate::message::{Message, MessageView};
use crate::reply::{encode, unsupported_text, Reply, ReplyView};
use crate::store::{contents_after, reply_to, Contents, Store};
use vstd::prelude::*;

verus! {

/// How an attempt to read the next message from the transport ended.
#[derive(Debug, PartialEq, Eq)]
pub enum ReadOutcome {
    /// The next message of the client.
    Received(Message),
    /// The client closed the connection cleanly.
    EndOfStream,
    /// The transport failed.
    IoError,
}

/// How an attempt to write a message to the transport ended.
#[derive(Debug, Clone, Copy, PartialEq, Eq)]
pub enum WriteOutcome {
    /// The message went out.
    Written,
    /// The transport failed.
    IoError,
}

/// What the owner of the connection is to do next.
#[derive(Debug, PartialEq, Eq)]
pub enum Action {
    /// Wait for the next message and report it with [`Handler::on_read`].
    Read,
    /// Call [`Handler::dispatch`] with the store.
    Dispatch,
    /// Write this message and report the outcome with [`Handler::on_write`].
    Write(Message),
    /// Release the transport: the handler has finished.
    Release,
}

/// The state of one connection.
#[derive(Debug, PartialEq, Eq)]
pub enum Handler {
    /// Waiting for the next message.
    Reading,
    /// A message has arrived and has not been acted on yet.
    Dispatching(Message),
    /// The reply is ready and has not been written yet.
    Writing(Reply),
    /// The client closed the connection.
    Closed,
    /// The transport failed; the connection is given up.
    Failed,
}

/// What a [`Handler`] holds, as mathematical values.
pub enum HandlerView {
    Reading,
    Dispatching(MessageView),
    Writing(ReplyView),
    Closed,
    Failed,
}

impl View for Handler {
    type V = HandlerView;

    open spec fn view(&self) -> HandlerView {
        match self {
            Handler::Reading => HandlerView::Reading,
            Handler::Dispatching(message) => HandlerView::Dispatching(message@),
            Handler::Writing(reply) => HandlerView::Writing(reply@),
            Handler::Closed => HandlerView::Closed,
            Handler::Failed => HandlerView::Failed,
        }
    }
}

/// The reply to a request message, from a store that holds `contents`: the
/// reply to the command that the message stands for, or an error reply where
/// it stands for none.
pub open spec fn response(contents: Contents, message: MessageView) -> ReplyView {
    match decode(message) {
        Some(command) => reply_to(contents, command),
        None => ReplyView::Error(unsupported_text()),
    }
}

/// What the store holds once a request message is served. A message that is
/// no supported command changes nothing.
pub open spec fn contents_after_request(contents: Contents, message: MessageView) -> Contents {
    match decode(message) {
        Some(command) => contents_after(contents, command),
        None => contents,
    }
}

/// A finished handler processes nothing more.
pub open spec fn finished(state: HandlerView) -> bool {
    state is Closed || state is Failed
}

/// The state after a read, which only a handler in `Reading` waits for: a
/// message is kept for dispatch, the end of the stream closes the
/// connection, a failure gives it up.
pub open spec fn after_read(state: HandlerView, outcome: ReadOutcome) -> HandlerView {
    match state {
        HandlerView::Reading => match outcome {
            ReadOutcome::Received(message) => HandlerView::Dispatching(message@),
            ReadOutcome::EndOfStream => HandlerView::Closed,
            ReadOutcome::IoError => HandlerView::Failed,
        },
        _ => state,
    }
}

/// The state and the store after a dispatch, which only applies to a handler
/// in `Dispatching`: the reply to the message is ready to be written, and
/// the connection stays open whatever the message was.
pub open spec fn after_dispatch(state: HandlerView, contents: Contents) -> (HandlerView, Contents) {
    match state {
        HandlerView::Dispatching(message) => (
            HandlerView::Writing(response(contents, message)),
            contents_after_request(contents, message),
        ),
        _ => (state, contents),
    }
}

/// The state after a write, which only a handler in `Writing` waits for:
/// once the reply is out the handler reads again, a failure gives the
/// connection up.
pub open spec fn after_write(state: HandlerView, outcome: WriteOutcome) -> HandlerView {
    match state {
        HandlerView::Writing(reply) => match outcome {
            WriteOutcome::Written => HandlerView::Reading,
            WriteOutcome::IoError => HandlerView::Failed,
        },
        _ => state,
    }
}

/// Serves one request against the store: decodes the message, carries out
/// the command and gives the reply. A message that is no supported command
/// gets an error reply and leaves the store as it was.
pub fn respond(store: &mut Store, message: Message) -> (reply: Reply)
    ensures
        reply@ == response(old(store)@, message@),
        final(store)@ == contents_after_request(old(store)@, message@),
{
    match Command::from_message(message) {
        Ok(command) => store.execute(command),
        Err(_) => Reply::unsupported(),
    }
}

impl Handler {
    /// The handler of a connection that was just accepted.
    pub fn new() -> (handler: Handler)
        ensures
            handler@ == HandlerView::Reading,
    {
        Handler::Reading
    }

    /// What is to be done next for this connection.
    pub fn action(&self) -> (action: Action)
        ensures
            match action {
                Action::Read => self@ is Reading,
                Action::Dispatch => self@ is Dispatching,
                Action::Write(message) => self@ is Writing && message@ == encode(
                    self@->Writing_0,
                ),
                Action::Release => finished(self@),
            },
    {
        match self {
            Handler::Reading => Action::Read,
            Handler::Dispatching(_) => Action::Dispatch,
            Handler::Writing(reply) => Action::Write(reply.to_message()),
            Handler::Closed => Action::Release,
            Handler::Failed => Action::Release,
        }
    }

    /// Takes in the outcome of a read. In any state but `Reading` nothing
    /// was being read, and the handler stays as it is.
    pub fn on_read(self, outcome: ReadOutcome) -> (next: Handler)
        ensures
            next@ == after_read(self@, outcome),
    {
        match self {
            Handler::Reading => match outcome {
                ReadOutcome::Received(message) => Handler::Dispatching(message),
                ReadOutcome::EndOfStream => Handler::Closed,
                ReadOutcome::IoError => Handler::Failed,
            },
            other => other,
        }
    }

    /// Acts on the message that is waiting: serves it against the store and
    /// keeps the reply for writing. In any state but `Dispatching` there is
    /// no message, and neither the handler nor the store changes.
    pub fn dispatch(self, store: &mut Store) -> (next: Handler)
        ensures
            (next@, final(store)@) == after_dispatch(self@, old(store)@),
    {
        match self {
            Handler::Dispatching(message) => Handler::Writing(respond(store, message)),
            other => other,
        }
    }

    /// Takes in the outcome of a write. In any state but `Writing` nothing
    /// was being written, and the handler stays as it is.
    pub fn on_write(self, outcome: WriteOutcome) -> (next: Handler)
        ensures
            next@ == after_write(self@, outcome),
    {
        match self {
            Handler::Writing(reply) => match outcome {
                WriteOutcome::Written => Handler::Reading,
                WriteOutcome::IoError => Handler::Failed,
            },
            other => other,
        }
    }
}

/// A write that one connection dispatches is seen by a read that any
/// connection dispatches after it: the writer gets the acknowledgement and
/// the reader the value written.
pub proof fn write_is_seen_by_every_connection(
    contents: Contents,
    write: MessageView,
    read: MessageView,
    key: Seq<char>,
    value: Seq<u8>,
)
    requires
        decode(write) == Some(CommandView::Put { key, value }),
        decode(read) == Some(CommandView::Get { key }),
    ensures
        ({
            let (writer, written) = after_dispatch(HandlerView::Dispatching(write), contents);
            let (reader, left) = after_dispatch(HandlerView::Dispatching(read), written);
            &&& writer == HandlerView::Writing(ReplyView::Ack)
            &&& reader == HandlerView::Writing(ReplyView::BulkValue(value))
            &&& left == written
        }),
{
}

/// A request that is no supported command gets an error reply and changes
/// nothing in the store. The connection stays open: once the reply is
/// written the handler reads again, and the next request is served as if
/// the unsupported one had never come.
pub proof fn unsupported_request_keeps_connection(
    contents: Contents,
    unsupported: Message,
    next: Message,
)
    requires
        decode(unsupported@) is None,
    ensures
        ({
            let arrived = after_read(HandlerView::Reading, ReadOutcome::Received(unsupported));
            let (answered, kept) = after_dispatch(arrived, contents);
            let reading = after_write(answered, WriteOutcome::Written);
            let (served, _) = after_dispatch(
                after_read(reading, ReadOutcome::Received(next)),
                kept,
            );
            &&& answered == HandlerView::Writing(ReplyView::Error(unsupported_text()))
            &&& kept == contents
            &&& reading == HandlerView::Reading
            &&& served == HandlerView::Writing(response(contents, next@))
        }),
{
}

/// The end of the stream and a failed read or write finish the handler
/// wherever it stands, and none of them has the store in hand. A finished
/// handler stays as it is whatever is reported to it, and a dispatch on it
/// leaves the store as it was: what was written before the connection ended
/// stays there for every other connection.
pub proof fn ended_connection_keeps_store(
    state: HandlerView,
    contents: Contents,
    read: ReadOutcome,
    write: WriteOutcome,
)
    ensures
        state is Reading && !(read is Received) ==> finished(after_read(state, read)),
        state is Writing && write is IoError ==> finished(after_write(state, write)),
        finished(state) ==> after_read(state, read) == state,
        finished(state) ==> after_write(state, write) == state,
        finished(state) ==> after_dispatch(state, contents) == (state, contents),
{
}

} // verus!
