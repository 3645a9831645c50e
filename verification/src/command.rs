//! The command vocabulary of the real-time channel: which keywords exist, which
//! domain and operation each one names, and how many arguments it collects.

use vstd::prelude::*;
use crate::text::str_eq;

verus! {

/// The listing of all supported commands, as `help` sends it.
pub const HELP: &'static str = "\n\
--- SESSION ---\n\
help - Lists the commands\n\
quit - Ends the session\n\
\n\
--- USER ---\n\
get_users - Get users\n\
insert_user - Creates a new user\n\
delete_user - Deletes a user\n\
edit_user - Edits a user\n\
attach_user_to_room - Attaches a user to room\n\
\n\
--- MESSAGE ---\n\
get_msgs - Get messages\n\
insert_msg  - Sends a message\n\
delete_msg - Deletes a message\n\
edit_msg - Edits a message\n\
\n\
--- ROOM ---\n\
get_rooms - Get rooms\n\
insert_room - Creates a new room\n\
delete_room - Deletes a room\n\
edit_room - Edits a room";

/// The three kinds of record that commands operate on.
#[derive(Clone, Copy, Debug, PartialEq, Eq, Structural)]
pub enum Domain {
    Users,
    Messages,
    Rooms,
}

/// What a command does to the records of its domain.
#[derive(Clone, Copy, Debug, PartialEq, Eq, Structural)]
pub enum Operation {
    Get,
    Insert,
    Delete,
    Edit,
}

/// A recognised command of the channel.
#[derive(Clone, Copy, Debug, PartialEq, Eq, Structural)]
pub enum Command {
    /// Lists the supported commands.
    Help,
    /// Ends the session.
    Quit,
    /// One of the four operations on one of the three domains.
    Record(Domain, Operation),
    /// Adds a room to the rooms a user belongs to.
    AttachUserToRoom,
}

/// What the client is asked to send for one argument of a command.
#[derive(Clone, Copy, Debug, PartialEq, Eq, Structural)]
pub enum ArgumentKind {
    /// Free text, taken as it is.
    Text,
    /// A numeric identifier.
    Id,
    /// A password, which is hashed as soon as it arrives.
    Secret,
}

/// The keyword that the client sends to invoke `command`.
pub open spec fn keyword_of(command: Command) -> Seq<char> {
    match command {
        Command::Help => "help"@,
        Command::Quit => "quit"@,
        Command::AttachUserToRoom => "attach_user_to_room"@,
        Command::Record(Domain::Users, Operation::Get) => "get_users"@,
        Command::Record(Domain::Users, Operation::Insert) => "insert_user"@,
        Command::Record(Domain::Users, Operation::Delete) => "delete_user"@,
        Command::Record(Domain::Users, Operation::Edit) => "edit_user"@,
        Command::Record(Domain::Messages, Operation::Get) => "get_msgs"@,
        Command::Record(Domain::Messages, Operation::Insert) => "insert_msg"@,
        Command::Record(Domain::Messages, Operation::Delete) => "delete_msg"@,
        Command::Record(Domain::Messages, Operation::Edit) => "edit_msg"@,
        Command::Record(Domain::Rooms, Operation::Get) => "get_rooms"@,
        Command::Record(Domain::Rooms, Operation::Insert) => "insert_room"@,
        Command::Record(Domain::Rooms, Operation::Delete) => "delete_room"@,
        Command::Record(Domain::Rooms, Operation::Edit) => "edit_room"@,
    }
}

/// The command of the user domain that `text` names, if any.
pub open spec fn users_keyword(text: Seq<char>) -> Option<Command> {
    if text == "attach_user_to_room"@ {
        Some(Command::AttachUserToRoom)
    } else if text == "get_users"@ {
        Some(Command::Record(Domain::Users, Operation::Get))
    } else if text == "insert_user"@ {
        Some(Command::Record(Domain::Users, Operation::Insert))
    } else if text == "delete_user"@ {
        Some(Command::Record(Domain::Users, Operation::Delete))
    } else if text == "edit_user"@ {
        Some(Command::Record(Domain::Users, Operation::Edit))
    } else {
        None
    }
}

/// The command of the message domain that `text` names, if any.
pub open spec fn msgs_keyword(text: Seq<char>) -> Option<Command> {
    if text == "get_msgs"@ {
        Some(Command::Record(Domain::Messages, Operation::Get))
    } else if text == "insert_msg"@ {
        Some(Command::Record(Domain::Messages, Operation::Insert))
    } else if text == "delete_msg"@ {
        Some(Command::Record(Domain::Messages, Operation::Delete))
    } else if text == "edit_msg"@ {
        Some(Command::Record(Domain::Messages, Operation::Edit))
    } else {
        None
    }
}

/// The command of the room domain that `text` names, if any.
pub open spec fn rooms_keyword(text: Seq<char>) -> Option<Command> {
    if text == "get_rooms"@ {
        Some(Command::Record(Domain::Rooms, Operation::Get))
    } else if text == "insert_room"@ {
        Some(Command::Record(Domain::Rooms, Operation::Insert))
    } else if text == "delete_room"@ {
        Some(Command::Record(Domain::Rooms, Operation::Delete))
    } else if text == "edit_room"@ {
        Some(Command::Record(Domain::Rooms, Operation::Edit))
    } else {
        None
    }
}

/// The command that `text` names: the two session keywords first, then the
/// three domains in the order users, messages, rooms.
pub open spec fn routed(text: Seq<char>) -> Option<Command> {
    if text == "quit"@ {
        Some(Command::Quit)
    } else if text == "help"@ {
        Some(Command::Help)
    } else if users_keyword(text) is Some {
        users_keyword(text)
    } else if msgs_keyword(text) is Some {
        msgs_keyword(text)
    } else {
        rooms_keyword(text)
    }
}

/// Looks `text` up among the keywords of the user domain.
pub fn users_command(text: &str) -> (command: Option<Command>)
    ensures
        command == users_keyword(text@),
{
    if str_eq(text, "attach_user_to_room") {
        Some(Command::AttachUserToRoom)
    } else if str_eq(text, "get_users") {
        Some(Command::Record(Domain::Users, Operation::Get))
    } else if str_eq(text, "insert_user") {
        Some(Command::Record(Domain::Users, Operation::Insert))
    } else if str_eq(text, "delete_user") {
        Some(Command::Record(Domain::Users, Operation::Delete))
    } else if str_eq(text, "edit_user") {
        Some(Command::Record(Domain::Users, Operation::Edit))
    } else {
        None
    }
}

/// Looks `text` up among the keywords of the message domain.
pub fn msgs_command(text: &str) -> (command: Option<Command>)
    ensures
        command == msgs_keyword(text@),
{
    if str_eq(text, "get_msgs") {
        Some(Command::Record(Domain::Messages, Operation::Get))
    } else if str_eq(text, "insert_msg") {
        Some(Command::Record(Domain::Messages, Operation::Insert))
    } else if str_eq(text, "delete_msg") {
        Some(Command::Record(Domain::Messages, Operation::Delete))
    } else if str_eq(text, "edit_msg") {
        Some(Command::Record(Domain::Messages, Operation::Edit))
    } else {
        None
    }
}

/// Looks `text` up among the keywords of the room domain.
pub fn rooms_command(text: &str) -> (command: Option<Command>)
    ensures
        command == rooms_keyword(text@),
{
    if str_eq(text, "get_rooms") {
        Some(Command::Record(Domain::Rooms, Operation::Get))
    } else if str_eq(text, "insert_room") {
        Some(Command::Record(Domain::Rooms, Operation::Insert))
    } else if str_eq(text, "delete_room") {
        Some(Command::Record(Domain::Rooms, Operation::Delete))
    } else if str_eq(text, "edit_room") {
        Some(Command::Record(Domain::Rooms, Operation::Edit))
    } else {
        None
    }
}

/// Resolves a received line to the one command it names, or to `None` where it
/// names none.
pub fn route(text: &str) -> (command: Option<Command>)
    ensures
        command == routed(text@),
{
    if str_eq(text, "quit") {
        return Some(Command::Quit);
    }
    if str_eq(text, "help") {
        return Some(Command::Help);
    }
    let user = users_command(text);
    if user.is_some() {
        return user;
    }
    let message = msgs_command(text);
    if message.is_some() {
        return message;
    }
    rooms_command(text)
}

/// The keyword of `command`, as the client types it.
pub fn keyword(command: Command) -> (word: &'static str)
    ensures
        word@ == keyword_of(command),
{
    match command {
        Command::Help => "help",
        Command::Quit => "quit",
        Command::AttachUserToRoom => "attach_user_to_room",
        Command::Record(Domain::Users, Operation::Get) => "get_users",
        Command::Record(Domain::Users, Operation::Insert) => "insert_user",
        Command::Record(Domain::Users, Operation::Delete) => "delete_user",
        Command::Record(Domain::Users, Operation::Edit) => "edit_user",
        Command::Record(Domain::Messages, Operation::Get) => "get_msgs",
        Command::Record(Domain::Messages, Operation::Insert) => "insert_msg",
        Command::Record(Domain::Messages, Operation::Delete) => "delete_msg",
        Command::Record(Domain::Messages, Operation::Edit) => "edit_msg",
        Command::Record(Domain::Rooms, Operation::Get) => "get_rooms",
        Command::Record(Domain::Rooms, Operation::Insert) => "insert_room",
        Command::Record(Domain::Rooms, Operation::Delete) => "delete_room",
        Command::Record(Domain::Rooms, Operation::Edit) => "edit_room",
    }
}

/// How many arguments `command` collects from the client before it runs.
pub open spec fn arity_of(command: Command) -> nat {
    match command {
        Command::Record(Domain::Users, Operation::Insert) => 2,
        Command::Record(_, Operation::Insert) => 1,
        Command::Record(_, Operation::Delete) => 1,
        Command::AttachUserToRoom => 2,
        _ => 0,
    }
}

/// What `command` expects as its argument number `index`, counted from zero.
pub open spec fn kind_of(command: Command, index: nat) -> ArgumentKind {
    match command {
        Command::Record(Domain::Users, Operation::Insert) => if index == 1 {
            ArgumentKind::Secret
        } else {
            ArgumentKind::Text
        },
        Command::Record(_, Operation::Delete) => ArgumentKind::Id,
        Command::AttachUserToRoom => ArgumentKind::Id,
        _ => ArgumentKind::Text,
    }
}

/// Whether `command` is recognised but has no handler yet.
pub open spec fn unimplemented(command: Command) -> bool {
    command matches Command::Record(_, Operation::Edit)
}

/// The line that announces that `command` is being carried out.
pub open spec fn announcement_of(command: Command) -> Seq<char> {
    match command {
        Command::Record(Domain::Users, Operation::Get) => "Requesting users..."@,
        Command::Record(Domain::Users, Operation::Insert) => "Creating a new user..."@,
        Command::Record(Domain::Users, Operation::Delete) => "Deleting a user..."@,
        Command::Record(Domain::Messages, Operation::Get) => "Requesting messages..."@,
        Command::Record(Domain::Messages, Operation::Insert) => "Inserting a message..."@,
        Command::Record(Domain::Messages, Operation::Delete) => "Deleting a message..."@,
        Command::Record(Domain::Rooms, Operation::Get) => "Requesting rooms..."@,
        Command::Record(Domain::Rooms, Operation::Insert) => "Creating a new room..."@,
        Command::Record(Domain::Rooms, Operation::Delete) => "Deleting a room..."@,
        Command::AttachUserToRoom => "Attaching user to room.."@,
        _ => ""@,
    }
}

/// The prompt for argument number `index` of `command`, counted from zero.
pub open spec fn prompt_of(command: Command, index: nat) -> Seq<char> {
    match command {
        Command::Record(Domain::Users, Operation::Insert) => if index == 0 {
            "Account name: "@
        } else if index == 1 {
            "Pass: "@
        } else {
            ""@
        },
        Command::Record(Domain::Messages, Operation::Insert) => if index == 0 {
            "content: "@
        } else {
            ""@
        },
        Command::Record(Domain::Rooms, Operation::Insert) => if index == 0 {
            "Room name: "@
        } else {
            ""@
        },
        Command::Record(_, Operation::Delete) => if index == 0 {
            "ID: "@
        } else {
            ""@
        },
        Command::AttachUserToRoom => if index == 0 {
            "User ID: "@
        } else if index == 1 {
            "Room ID: "@
        } else {
            ""@
        },
        _ => ""@,
    }
}

/// The listing of all supported commands.
pub open spec fn help_text() -> Seq<char> {
    HELP@
}

/// How many arguments `command` collects from the client before it runs.
pub fn arity(command: Command) -> (count: usize)
    ensures
        count == arity_of(command),
{
    match command {
        Command::Record(Domain::Users, Operation::Insert) => 2,
        Command::Record(_, Operation::Insert) => 1,
        Command::Record(_, Operation::Delete) => 1,
        Command::AttachUserToRoom => 2,
        _ => 0,
    }
}

/// What `command` expects as its argument number `index`, counted from zero.
pub fn argument_kind(command: Command, index: usize) -> (kind: ArgumentKind)
    ensures
        kind == kind_of(command, index as nat),
{
    match command {
        Command::Record(Domain::Users, Operation::Insert) => if index == 1 {
            ArgumentKind::Secret
        } else {
            ArgumentKind::Text
        },
        Command::Record(_, Operation::Delete) => ArgumentKind::Id,
        Command::AttachUserToRoom => ArgumentKind::Id,
        _ => ArgumentKind::Text,
    }
}

/// Whether `command` is recognised but has no handler yet.
pub fn is_unimplemented(command: Command) -> (answer: bool)
    ensures
        answer == unimplemented(command),
{
    match command {
        Command::Record(_, Operation::Edit) => true,
        _ => false,
    }
}

/// The line that announces that `command` is being carried out.
pub fn announcement(command: Command) -> (line: &'static str)
    ensures
        line@ == announcement_of(command),
{
    match command {
        Command::Record(Domain::Users, Operation::Get) => "Requesting users...",
        Command::Record(Domain::Users, Operation::Insert) => "Creating a new user...",
        Command::Record(Domain::Users, Operation::Delete) => "Deleting a user...",
        Command::Record(Domain::Messages, Operation::Get) => "Requesting messages...",
        Command::Record(Domain::Messages, Operation::Insert) => "Inserting a message...",
        Command::Record(Domain::Messages, Operation::Delete) => "Deleting a message...",
        Command::Record(Domain::Rooms, Operation::Get) => "Requesting rooms...",
        Command::Record(Domain::Rooms, Operation::Insert) => "Creating a new room...",
        Command::Record(Domain::Rooms, Operation::Delete) => "Deleting a room...",
        Command::AttachUserToRoom => "Attaching user to room..",
        _ => "",
    }
}

/// The prompt for argument number `index` of `command`, counted from zero.
pub fn prompt(command: Command, index: usize) -> (line: &'static str)
    ensures
        line@ == prompt_of(command, index as nat),
{
    match command {
        Command::Record(Domain::Users, Operation::Insert) => if index == 0 {
            "Account name: "
        } else if index == 1 {
            "Pass: "
        } else {
            ""
        },
        Command::Record(Domain::Messages, Operation::Insert) => if index == 0 {
            "content: "
        } else {
            ""
        },
        Command::Record(Domain::Rooms, Operation::Insert) => if index == 0 {
            "Room name: "
        } else {
            ""
        },
        Command::Record(_, Operation::Delete) => if index == 0 {
            "ID: "
        } else {
            ""
        },
        Command::AttachUserToRoom => if index == 0 {
            "User ID: "
        } else if index == 1 {
            "Room ID: "
        } else {
            ""
        },
        _ => "",
    }
}

/// The listing of all supported commands.
pub fn help() -> (text: &'static str)
    ensures
        text@ == help_text(),
{
    HELP
}

/// Spells every keyword out for the solver.
proof fn lemma_keywords_spelled()
    ensures
        "help"@ == seq!['h', 'e', 'l', 'p'],
        "quit"@ == seq!['q', 'u', 'i', 't'],
        "attach_user_to_room"@.len() == 19,
        "attach_user_to_room"@[0] == 'a',
        "get_users"@.len() == 9,
        "get_users"@[0] == 'g',
        "get_users"@[4] == 'u',
        "insert_user"@.len() == 11,
        "insert_user"@[0] == 'i',
        "insert_user"@[7] == 'u',
        "delete_user"@.len() == 11,
        "delete_user"@[0] == 'd',
        "delete_user"@[7] == 'u',
        "edit_user"@.len() == 9,
        "edit_user"@[0] == 'e',
        "edit_user"@[5] == 'u',
        "get_msgs"@.len() == 8,
        "get_msgs"@[0] == 'g',
        "insert_msg"@.len() == 10,
        "insert_msg"@[0] == 'i',
        "delete_msg"@.len() == 10,
        "delete_msg"@[0] == 'd',
        "edit_msg"@.len() == 8,
        "edit_msg"@[0] == 'e',
        "get_rooms"@.len() == 9,
        "get_rooms"@[0] == 'g',
        "get_rooms"@[4] == 'r',
        "insert_room"@.len() == 11,
        "insert_room"@[0] == 'i',
        "insert_room"@[7] == 'r',
        "delete_room"@.len() == 11,
        "delete_room"@[0] == 'd',
        "delete_room"@[7] == 'r',
        "edit_room"@.len() == 9,
        "edit_room"@[0] == 'e',
        "edit_room"@[5] == 'r',
{
    reveal_strlit("help");
    reveal_strlit("quit");
    reveal_strlit("attach_user_to_room");
    reveal_strlit("get_users");
    reveal_strlit("insert_user");
    reveal_strlit("delete_user");
    reveal_strlit("edit_user");
    reveal_strlit("get_msgs");
    reveal_strlit("insert_msg");
    reveal_strlit("delete_msg");
    reveal_strlit("edit_msg");
    reveal_strlit("get_rooms");
    reveal_strlit("insert_room");
    reveal_strlit("delete_room");
    reveal_strlit("edit_room");
    assert("help"@ =~= seq!['h', 'e', 'l', 'p']);
    assert("quit"@ =~= seq!['q', 'u', 'i', 't']);
}

/// Routing selects exactly the command whose keyword was received: a line is
/// routed to a command if and only if it is that command's keyword.
pub proof fn lemma_route_matches_keyword(text: Seq<char>, command: Command)
    ensures
        routed(text) == Some(command) <==> text == keyword_of(command),
{
    lemma_keywords_spelled();
}

/// No two commands share a keyword.
pub proof fn lemma_keywords_distinct(first: Command, second: Command)
    requires
        keyword_of(first) == keyword_of(second),
    ensures
        first == second,
{
    lemma_route_matches_keyword(keyword_of(first), first);
    lemma_route_matches_keyword(keyword_of(first), second);
}

/// A line is claimed by at most one of the session keywords and the three
/// domains, so routing never has two handlers to choose from.
pub proof fn lemma_one_handler_per_line(text: Seq<char>)
    ensures
        (text == "quit"@ || text == "help"@) ==> users_keyword(text) is None && msgs_keyword(
            text,
        ) is None && rooms_keyword(text) is None,
        users_keyword(text) is Some ==> msgs_keyword(text) is None && rooms_keyword(text) is None,
        msgs_keyword(text) is Some ==> rooms_keyword(text) is None,
        !(text == "quit"@ && text == "help"@),
{
    lemma_keywords_spelled();
}

} // verus!
