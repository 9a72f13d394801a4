//! The store: one mapping from key to value, shared by every connection.

use crate::command::{Command, CommandView};
use crate::reply::{Reply, ReplyView};
use vstd::hash_map::StringHashMap;
use vstd::prelude::*;

verus! {

/// What a store holds: for each key that was written, the bytes last written
/// under it.
pub type Contents = Map<Seq<char>, Seq<u8>>;

/// The reply that `command` gets from a store that holds `contents`: a write
/// is acknowledged; a read hands back the value under the key, or the
/// explicit absence of one.
pub open spec fn reply_to(contents: Contents, command: CommandView) -> ReplyView {
    match command {
        CommandView::Put { key, value } => ReplyView::Ack,
        CommandView::Get { key } => if contents.contains_key(key) {
            ReplyView::BulkValue(contents[key])
        } else {
            ReplyView::Nil
        },
    }
}

/// What a store that held `contents` holds once `command` is carried out: a
/// write puts the value under the key, in place of any earlier one; a read
/// changes nothing.
pub open spec fn contents_after(contents: Contents, command: CommandView) -> Contents {
    match command {
        CommandView::Put { key, value } => contents.insert(key, value),
        CommandView::Get { key } => contents,
    }
}

/// What a store that held `contents` holds once the commands are carried
/// out one after another, the first of the sequence first. The store is
/// only ever changed under exclusive access, so whatever the connections
/// that sent them, the commands take effect in some such order.
pub open spec fn contents_after_all(contents: Contents, commands: Seq<CommandView>) -> Contents
    decreases commands.len(),
{
    if commands.len() == 0 {
        contents
    } else {
        contents_after(contents_after_all(contents, commands.drop_last()), commands.last())
    }
}

/// True where `command` writes under `key`.
pub open spec fn writes_to(command: CommandView, key: Seq<char>) -> bool {
    match command {
        CommandView::Put { key: written, value } => written == key,
        CommandView::Get { key: read } => false,
    }
}

/// The mapping from key to value. It is created once and handed to every
/// connection handler; a program that serves several connections at once
/// keeps it behind one lock and takes the lock for each call, which is how
/// it comes by the exclusive borrow that a write asks for.
pub struct Store {
    entries: StringHashMap<Vec<u8>>,
}

impl View for Store {
    type V = Contents;

    closed spec fn view(&self) -> Contents {
        self.entries@.map_values(|value: Vec<u8>| value@)
    }
}

impl Store {
    /// An empty store.
    pub fn new() -> (store: Store)
        ensures
            store@ == Contents::empty(),
    {
        let store = Store { entries: StringHashMap::new() };
        assert(store@ =~= Contents::empty());
        store
    }

    /// Puts `value` under `key`, in place of any value that was there. Every
    /// other key keeps its value.
    pub fn set(&mut self, key: String, value: Vec<u8>)
        ensures
            final(self)@ == old(self)@.insert(key@, value@),
    {
        self.entries.insert(key, value);
        assert(self@ =~= old(self)@.insert(key@, value@));
    }

    /// The value under `key`, or `None` where nothing was written under it.
    pub fn get(&self, key: &str) -> (found: Option<&Vec<u8>>)
        ensures
            match found {
                Some(value) => self@.contains_key(key@) && value@ == self@[key@],
                None => !self@.contains_key(key@),
            },
    {
        self.entries.get(key)
    }

    /// Carries out `command` and gives the reply to it.
    pub fn execute(&mut self, command: Command) -> (reply: Reply)
        ensures
            reply@ == reply_to(old(self)@, command@),
            final(self)@ == contents_after(old(self)@, command@),
    {
        match command {
            Command::Put { key, value } => {
                self.set(key, value);
                Reply::Ack
            },
            Command::Get { key } => {
                match self.get(key.as_str()) {
                    Some(value) => Reply::BulkValue(value.clone()),
                    None => Reply::Nil,
                }
            },
        }
    }
}

/// A read that follows a write of the same key gets the value written,
/// whatever the store held before.
pub proof fn read_follows_write(contents: Contents, key: Seq<char>, value: Seq<u8>)
    ensures
        reply_to(
            contents_after(contents, CommandView::Put { key, value }),
            CommandView::Get { key },
        ) == ReplyView::BulkValue(value),
{
}

/// Commands that do not write under a key leave it as it was: absent if it
/// was absent, and with the same value otherwise.
pub proof fn other_commands_keep_key(
    contents: Contents,
    commands: Seq<CommandView>,
    key: Seq<char>,
)
    requires
        forall|i: int| 0 <= i < commands.len() ==> !writes_to(#[trigger] commands[i], key),
    ensures
        contents_after_all(contents, commands).contains_key(key) == contents.contains_key(key),
        contents.contains_key(key) ==> contents_after_all(contents, commands)[key]
            == contents[key],
    decreases commands.len(),
{
    if commands.len() > 0 {
        let earlier = commands.drop_last();
        assert forall|i: int| 0 <= i < earlier.len() implies !writes_to(
            #[trigger] earlier[i],
            key,
        ) by {
            assert(earlier[i] == commands[i]);
        }
        other_commands_keep_key(contents, earlier, key);
        assert(!writes_to(commands[commands.len() - 1], key));
    }
}

/// A read gets the value of the last write under its key, however many
/// commands on other keys, from whatever connection, were carried out in
/// between.
pub proof fn read_follows_last_write(
    contents: Contents,
    key: Seq<char>,
    value: Seq<u8>,
    between: Seq<CommandView>,
)
    requires
        forall|i: int| 0 <= i < between.len() ==> !writes_to(#[trigger] between[i], key),
    ensures
        reply_to(
            contents_after_all(contents_after(contents, CommandView::Put { key, value }), between),
            CommandView::Get { key },
        ) == ReplyView::BulkValue(value),
{
    other_commands_keep_key(
        contents_after(contents, CommandView::Put { key, value }),
        between,
        key,
    );
}

/// A read of a key that no command has written since the store was created
/// gets the explicit absence of a value.
pub proof fn read_of_unwritten_key(commands: Seq<CommandView>, key: Seq<char>)
    requires
        forall|i: int| 0 <= i < commands.len() ==> !writes_to(#[trigger] commands[i], key),
    ensures
        reply_to(contents_after_all(Contents::empty(), commands), CommandView::Get { key })
            == ReplyView::Nil,
{
    other_commands_keep_key(Contents::empty(), commands, key);
}

/// Of two writes under one key the later one wins: a read after both gets
/// the second value, and so does every further read, since a read changes
/// nothing.
pub proof fn last_write_wins(
    contents: Contents,
    key: Seq<char>,
    first: Seq<u8>,
    second: Seq<u8>,
)
    ensures
        ({
            let written = contents_after(
                contents_after(contents, CommandView::Put { key, value: first }),
                CommandView::Put { key, value: second },
            );
            &&& reply_to(written, CommandView::Get { key }) == ReplyView::BulkValue(second)
            &&& contents_after(written, CommandView::Get { key }) == written
        }),
{
}

/// Two writes under one key that race each other take effect in one order
/// or the other. Either way a read after both gets one of the two values
/// whole: the one whose write came second.
pub proof fn racing_writes_leave_one_value(
    contents: Contents,
    key: Seq<char>,
    a: Seq<u8>,
    b: Seq<u8>,
)
    ensures
        reply_to(
            contents_after_all(
                contents,
                seq![CommandView::Put { key, value: a }, CommandView::Put { key, value: b }],
            ),
            CommandView::Get { key },
        ) == ReplyView::BulkValue(b),
        reply_to(
            contents_after_all(
                contents,
                seq![CommandView::Put { key, value: b }, CommandView::Put { key, value: a }],
            ),
            CommandView::Get { key },
        ) == ReplyView::BulkValue(a),
{
    let put_a = CommandView::Put { key, value: a };
    let put_b = CommandView::Put { key, value: b };
    contents_after_two(contents, put_a, put_b);
    contents_after_two(contents, put_b, put_a);
}

/// Carrying out a sequence of two commands is carrying out the first and
/// then the second.
proof fn contents_after_two(contents: Contents, first: CommandView, second: CommandView)
    ensures
        contents_after_all(contents, seq![first, second]) == contents_after(
            contents_after(contents, first),
            second,
        ),
{
    let both = seq![first, second];
    assert(both.drop_last() =~= seq![first]);
    assert(seq![first].drop_last() =~= Seq::<CommandView>::empty());
    reveal_with_fuel(contents_after_all, 3);
}

} // verus!
