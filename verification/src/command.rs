//! Commands, and how a request message is decoded into one.
//!
//! The request grammar is the one of `mini-redis`: its parser reads the
//! message, and the rules of this server decide which of the parsed requests
//! it serves.

use crate::message::{Message, MessageView};
use std::time::Duration;
use vstd::prelude::*;

verus! {

/// A request that the server carries out.
#[derive(Debug, Clone, PartialEq, Eq)]
pub enum Command {
    /// Store `value` under `key`, replacing what was there.
    Put { key: String, value: Vec<u8> },
    /// Look up the value stored under `key`.
    Get { key: String },
}

/// What a [`Command`] holds, as mathematical values.
pub enum CommandView {
    Put { key: Seq<char>, value: Seq<u8> },
    Get { key: Seq<char> },
}

impl View for Command {
    type V = CommandView;

    open spec fn view(&self) -> CommandView {
        match self {
            Command::Put { key, value } => CommandView::Put { key: key@, value: value@ },
            Command::Get { key } => CommandView::Get { key: key@ },
        }
    }
}

/// A request that is no supported command. It keeps the offending message
/// for diagnostics.
#[derive(Debug, PartialEq, Eq)]
pub struct UnsupportedCommand {
    pub message: Message,
}

/// What the protocol parser made of a request.
#[derive(Debug, Clone, PartialEq, Eq)]
pub enum Parsed {
    /// `GET key`.
    Get { key: String },
    /// `SET key value`, with the expiry that an `EX` or `PX` option gave.
    Put { key: String, value: Vec<u8>, expire: Option<Duration> },
    /// `PUBLISH channel message`.
    Publish,
    /// `SUBSCRIBE channel ..`.
    Subscribe,
    /// `UNSUBSCRIBE ..`.
    Unsubscribe,
    /// A verb that the parser does not know.
    Unknown,
    /// The parser rejected the message.
    Malformed,
}

/// What a [`Parsed`] holds, as mathematical values.
pub enum ParsedView {
    Get { key: Seq<char> },
    Put { key: Seq<char>, value: Seq<u8>, expire: Option<Duration> },
    Publish,
    Subscribe,
    Unsubscribe,
    Unknown,
    Malformed,
}

impl View for Parsed {
    type V = ParsedView;

    open spec fn view(&self) -> ParsedView {
        match self {
            Parsed::Get { key } => ParsedView::Get { key: key@ },
            Parsed::Put { key, value, expire } => ParsedView::Put {
                key: key@,
                value: value@,
                expire: *expire,
            },
            Parsed::Publish => ParsedView::Publish,
            Parsed::Subscribe => ParsedView::Subscribe,
            Parsed::Unsubscribe => ParsedView::Unsubscribe,
            Parsed::Unknown => ParsedView::Unknown,
            Parsed::Malformed => ParsedView::Malformed,
        }
    }
}

#[verifier::external_type_specification]
#[verifier::external_body]
pub struct ExFrame(mini_redis::Frame);

/// What `mini_redis::Command::from_frame` makes of the frame that holds
/// `message`.
pub uninterp spec fn parsed_request(message: MessageView) -> ParsedView;

/// Builds the `mini_redis::Frame` that holds what `message` holds, variant by
/// variant; a bulk payload becomes a `bytes::Bytes` with the same bytes.
/// Nothing is claimed of the frame.
#[verifier::external_body]
fn to_frame(message: &Message) -> mini_redis::Frame {
    match message {
        Message::Simple(text) => mini_redis::Frame::Simple(text.clone()),
        Message::Error(text) => mini_redis::Frame::Error(text.clone()),
        Message::Integer(n) => mini_redis::Frame::Integer(*n),
        Message::Bulk(bytes) => mini_redis::Frame::Bulk(bytes::Bytes::copy_from_slice(bytes)),
        Message::Null => mini_redis::Frame::Null,
        Message::Array(items) => mini_redis::Frame::Array(items.iter().map(to_frame).collect()),
    }
}

/// Calls `mini_redis::Command::from_frame` on the frame of `message` and
/// hands back what it returned, variant by variant: the key of a `Get`; the
/// key, value and expiry of a `Set`; the bare variant of each other command;
/// `Malformed` for an error. The contract claims only that the outcome is a
/// function of what the message holds.
#[verifier::external_body]
fn parse_request(message: &Message) -> (parsed: Parsed)
    ensures
        parsed@ == parsed_request(message@),
{
    match mini_redis::Command::from_frame(to_frame(message)) {
        Ok(mini_redis::Command::Get(get)) => Parsed::Get { key: get.key().to_string() },
        Ok(mini_redis::Command::Set(set)) => Parsed::Put {
            key: set.key().to_string(),
            value: set.value().to_vec(),
            expire: set.expire(),
        },
        Ok(mini_redis::Command::Publish(_)) => Parsed::Publish,
        Ok(mini_redis::Command::Subscribe(_)) => Parsed::Subscribe,
        Ok(mini_redis::Command::Unsubscribe(_)) => Parsed::Unsubscribe,
        Ok(mini_redis::Command::Unknown(_)) => Parsed::Unknown,
        Err(_) => Parsed::Malformed,
    }
}

/// The command that a parsed request stands for, if the server supports it:
/// a `GET` with its key, and a `SET` with its key and value and nothing
/// more. A `SET` with an expiry has more than two arguments, and is no
/// supported command; nor is any other request that the parser knows, a verb
/// that it does not know, or a message that it rejects.
pub open spec fn supported(parsed: ParsedView) -> Option<CommandView> {
    match parsed {
        ParsedView::Get { key } => Some(CommandView::Get { key }),
        ParsedView::Put { key, value, expire } => if expire is None {
            Some(CommandView::Put { key, value })
        } else {
            None
        },
        ParsedView::Publish => None,
        ParsedView::Subscribe => None,
        ParsedView::Unsubscribe => None,
        ParsedView::Unknown => None,
        ParsedView::Malformed => None,
    }
}

/// The command that a request message stands for, if any.
pub open spec fn decode(message: MessageView) -> Option<CommandView> {
    supported(parsed_request(message))
}

impl Command {
    /// Picks the supported command out of a parsed request. `message` is the
    /// request that was parsed; it comes back in the error.
    pub fn from_parsed(parsed: Parsed, message: Message) -> (result: Result<
        Command,
        UnsupportedCommand,
    >)
        ensures
            match result {
                Ok(command) => supported(parsed@) == Some(command@),
                Err(unsupported) => supported(parsed@) is None && unsupported.message@
                    == message@,
            },
    {
        match parsed {
            Parsed::Get { key } => Ok(Command::Get { key }),
            Parsed::Put { key, value, expire } => {
                if expire.is_none() {
                    Ok(Command::Put { key, value })
                } else {
                    Err(UnsupportedCommand { message })
                }
            },
            Parsed::Publish => Err(UnsupportedCommand { message }),
            Parsed::Subscribe => Err(UnsupportedCommand { message }),
            Parsed::Unsubscribe => Err(UnsupportedCommand { message }),
            Parsed::Unknown => Err(UnsupportedCommand { message }),
            Parsed::Malformed => Err(UnsupportedCommand { message }),
        }
    }

    /// Decodes a request. Decoding reads the message and nothing else.
    pub fn from_message(message: Message) -> (result: Result<Command, UnsupportedCommand>)
        ensures
            match result {
                Ok(command) => decode(message@) == Some(command@),
                Err(unsupported) => decode(message@) is None && unsupported.message@
                    == message@,
            },
    {
        let parsed = parse_request(&message);
        Command::from_parsed(parsed, message)
    }
}

} // verus!
