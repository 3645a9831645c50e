//! The persistence adapter as the core sees it: the operations it is asked to
//! run, what it may answer, and the line that reports an answer to the client.
//! Every operation is one transaction of the adapter; the core never reads a
//! value in one operation in order to write it back in another.

use vstd::prelude::*;
use vstd::string::StringExecFns;
use crate::error::{error_reply, error_text, ErrorKind};
use crate::text::{integer_text, push_integer};
use crate::user_struct::{User, UserPublicInfo};

verus! {

/// A stored room. Times are microseconds since the Unix epoch; `expires_at`
/// marks a scheduled deletion.
#[derive(Clone, Debug, PartialEq, Eq)]
pub struct Room {
    pub id: i32,
    pub name: String,
    pub created_at: i64,
    pub expires_at: Option<i64>,
}

/// A stored message. It always has content; room and author may be unset.
#[derive(Clone, Debug, PartialEq, Eq)]
pub struct Message {
    pub id: i32,
    pub content: String,
    pub room_id: Option<i32>,
    pub user_id: Option<i32>,
    pub sent_at: i64,
}

/// One operation of the persistence adapter.
#[derive(Clone, Debug, PartialEq, Eq)]
pub enum StoreRequest {
    InsertUser { name: String, pass_hash: String },
    FindUserByName { name: String },
    FindUserById { id: i32 },
    ListUsers,
    DeleteUser { id: i32 },
    /// Appends `room_id` to the rooms of the user `user_id`, atomically.
    AppendRoomToUser { user_id: i32, room_id: i32 },
    InsertMessage { content: String },
    ListMessages,
    DeleteMessage { id: i32 },
    InsertRoom { name: String },
    ListRooms,
    DeleteRoom { id: i32 },
}

/// A `StoreRequest` as plain values.
pub enum RequestView {
    InsertUser { name: Seq<char>, pass_hash: Seq<char> },
    FindUserByName { name: Seq<char> },
    FindUserById { id: i32 },
    ListUsers,
    DeleteUser { id: i32 },
    AppendRoomToUser { user_id: i32, room_id: i32 },
    InsertMessage { content: Seq<char> },
    ListMessages,
    DeleteMessage { id: i32 },
    InsertRoom { name: Seq<char> },
    ListRooms,
    DeleteRoom { id: i32 },
}

impl View for StoreRequest {
    type V = RequestView;

    open spec fn view(&self) -> RequestView {
        match *self {
            StoreRequest::InsertUser { name, pass_hash } => RequestView::InsertUser {
                name: name@,
                pass_hash: pass_hash@,
            },
            StoreRequest::FindUserByName { name } => RequestView::FindUserByName { name: name@ },
            StoreRequest::FindUserById { id } => RequestView::FindUserById { id },
            StoreRequest::ListUsers => RequestView::ListUsers,
            StoreRequest::DeleteUser { id } => RequestView::DeleteUser { id },
            StoreRequest::AppendRoomToUser { user_id, room_id } => RequestView::AppendRoomToUser {
                user_id,
                room_id,
            },
            StoreRequest::InsertMessage { content } => RequestView::InsertMessage {
                content: content@,
            },
            StoreRequest::ListMessages => RequestView::ListMessages,
            StoreRequest::DeleteMessage { id } => RequestView::DeleteMessage { id },
            StoreRequest::InsertRoom { name } => RequestView::InsertRoom { name: name@ },
            StoreRequest::ListRooms => RequestView::ListRooms,
            StoreRequest::DeleteRoom { id } => RequestView::DeleteRoom { id },
        }
    }
}

/// What the adapter answers to one operation.
#[derive(Clone, Debug, PartialEq, Eq)]
pub enum StoreOutcome {
    /// A delete or an append went through. Deleting a row that does not exist
    /// counts as done.
    Done,
    /// An insert went through; the identity of the new row.
    Created(i32),
    /// A lookup found this account.
    Found(User),
    /// A lookup found no account.
    Missing,
    /// All accounts, as public records.
    Users(Vec<UserPublicInfo>),
    /// All messages.
    Messages(Vec<Message>),
    /// All rooms.
    Rooms(Vec<Room>),
    /// An insert was refused because the account name is taken.
    Duplicate,
    /// The store failed; its own description of the fault.
    Failed(String),
}

/// `text` between double quotes.
pub open spec fn quoted(text: Seq<char>) -> Seq<char> {
    "\""@ + text + "\""@
}

/// An optional number: its numeral, or the word `none`.
pub open spec fn optional_text(value: Option<int>) -> Seq<char> {
    match value {
        Some(n) => integer_text(n),
        None => "none"@,
    }
}

/// One account as it is listed.
pub open spec fn user_text(user: UserPublicInfo) -> Seq<char> {
    "{id: "@ + integer_text(user.id as int) + ", name: "@ + quoted(user.name@) + ", joined_at: "@
        + integer_text(user.joined_at as int) + "}"@
}

/// One message as it is listed.
pub open spec fn message_text(message: Message) -> Seq<char> {
    "{id: "@ + integer_text(message.id as int) + ", content: "@ + quoted(message.content@)
        + ", room_id: "@ + optional_text(
        match message.room_id {
            Some(id) => Some(id as int),
            None => None,
        },
    ) + ", user_id: "@ + optional_text(
        match message.user_id {
            Some(id) => Some(id as int),
            None => None,
        },
    ) + ", sent_at: "@ + integer_text(message.sent_at as int) + "}"@
}

/// One room as it is listed.
pub open spec fn room_text(room: Room) -> Seq<char> {
    "{id: "@ + integer_text(room.id as int) + ", name: "@ + quoted(room.name@) + ", created_at: "@
        + integer_text(room.created_at as int) + ", expires_at: "@ + optional_text(
        match room.expires_at {
            Some(at) => Some(at as int),
            None => None,
        },
    ) + "}"@
}

/// The items of a listing, separated by a comma and a space.
pub open spec fn joined(items: Seq<Seq<char>>) -> Seq<char>
    decreases items.len(),
{
    if items.len() == 0 {
        Seq::empty()
    } else if items.len() == 1 {
        items[0]
    } else {
        joined(items.drop_last()) + ", "@ + items.last()
    }
}

/// A listing: its items between square brackets.
pub open spec fn listed(items: Seq<Seq<char>>) -> Seq<char> {
    "["@ + joined(items) + "]"@
}

/// Appends `text` between double quotes to `out`.
fn push_quoted(out: &mut String, text: &str)
    ensures
        final(out)@ == old(out)@ + quoted(text@),
{
    out.append("\"");
    out.append(text);
    out.append("\"");
    assert(out@ =~= old(out)@ + quoted(text@));
}

/// Appends an optional identifier to `out`.
fn push_optional_id(out: &mut String, value: Option<i32>)
    ensures
        final(out)@ == old(out)@ + optional_text(
            match value {
                Some(id) => Some(id as int),
                None => None,
            },
        ),
{
    match value {
        Some(id) => push_integer(out, id as i64),
        None => out.append("none"),
    }
}

/// Appends an optional time to `out`.
fn push_optional_time(out: &mut String, value: Option<i64>)
    ensures
        final(out)@ == old(out)@ + optional_text(
            match value {
                Some(at) => Some(at as int),
                None => None,
            },
        ),
{
    match value {
        Some(at) => push_integer(out, at),
        None => out.append("none"),
    }
}

/// One account as it is listed.
pub fn render_user(user: &UserPublicInfo) -> (line: String)
    ensures
        line@ == user_text(*user),
{
    let mut out = String::from_str("{id: ");
    push_integer(&mut out, user.id as i64);
    out.append(", name: ");
    push_quoted(&mut out, user.name.as_str());
    out.append(", joined_at: ");
    push_integer(&mut out, user.joined_at);
    out.append("}");
    out
}

/// One message as it is listed.
pub fn render_message(message: &Message) -> (line: String)
    ensures
        line@ == message_text(*message),
{
    let mut out = String::from_str("{id: ");
    push_integer(&mut out, message.id as i64);
    out.append(", content: ");
    push_quoted(&mut out, message.content.as_str());
    out.append(", room_id: ");
    push_optional_id(&mut out, message.room_id);
    out.append(", user_id: ");
    push_optional_id(&mut out, message.user_id);
    out.append(", sent_at: ");
    push_integer(&mut out, message.sent_at);
    out.append("}");
    out
}

/// One room as it is listed.
pub fn render_room(room: &Room) -> (line: String)
    ensures
        line@ == room_text(*room),
{
    let mut out = String::from_str("{id: ");
    push_integer(&mut out, room.id as i64);
    out.append(", name: ");
    push_quoted(&mut out, room.name.as_str());
    out.append(", created_at: ");
    push_integer(&mut out, room.created_at);
    out.append(", expires_at: ");
    push_optional_time(&mut out, room.expires_at);
    out.append("}");
    out
}

/// Appends one more item to a listing; `first` says that it holds none so far.
fn push_item(out: &mut String, item: &str, first: bool, Ghost(before): Ghost<Seq<Seq<char>>>)
    requires
        old(out)@ == joined(before),
        first <==> before.len() == 0,
    ensures
        final(out)@ == joined(before.push(item@)),
{
    assert(before.push(item@).drop_last() =~= before);
    if first {
        proof {
            assert(out@ =~= Seq::<char>::empty());
        }
        out.append(item);
        assert(out@ =~= item@);
    } else {
        out.append(", ");
        out.append(item);
        assert(out@ =~= joined(before) + ", "@ + item@);
    }
}

/// All accounts as they are listed.
pub open spec fn users_text(rows: Seq<UserPublicInfo>) -> Seq<char> {
    listed(rows.map_values(|user: UserPublicInfo| user_text(user)))
}

/// All messages as they are listed.
pub open spec fn messages_text(rows: Seq<Message>) -> Seq<char> {
    listed(rows.map_values(|message: Message| message_text(message)))
}

/// All rooms as they are listed.
pub open spec fn rooms_text(rows: Seq<Room>) -> Seq<char> {
    listed(rows.map_values(|room: Room| room_text(room)))
}

/// The lines of `lines` as plain values.
pub open spec fn texts(lines: Seq<String>) -> Seq<Seq<char>> {
    lines.map_values(|line: String| line@)
}

/// The listing of the items `lines`, each already rendered.
fn bracketed(lines: &Vec<String>) -> (out: String)
    ensures
        out@ == listed(texts(lines@)),
{
    let mut body = String::new();
    let mut i: usize = 0;
    assert(texts(lines@).take(0) =~= Seq::<Seq<char>>::empty());
    while i < lines.len()
        invariant
            i <= lines.len(),
            body@ == joined(texts(lines@).take(i as int)),
        decreases lines.len() - i,
    {
        push_item(&mut body, lines[i].as_str(), i == 0, Ghost(texts(lines@).take(i as int)));
        assert(texts(lines@).take(i + 1) =~= texts(lines@).take(i as int).push(lines@[i as int]@));
        i += 1;
    }
    assert(texts(lines@).take(lines.len() as int) =~= texts(lines@));
    let mut out = String::from_str("[");
    out.append(body.as_str());
    out.append("]");
    out
}

/// All accounts as they are listed, in the order given.
pub fn render_users(rows: &Vec<UserPublicInfo>) -> (line: String)
    ensures
        line@ == users_text(rows@),
{
    let mut lines: Vec<String> = Vec::new();
    let mut i: usize = 0;
    while i < rows.len()
        invariant
            i == lines.len() <= rows.len(),
            forall|k: int| 0 <= k < i ==> (#[trigger] lines@[k])@ == user_text(rows@[k]),
        decreases rows.len() - i,
    {
        lines.push(render_user(&rows[i]));
        i += 1;
    }
    assert(texts(lines@) =~= rows@.map_values(|user: UserPublicInfo| user_text(user)));
    bracketed(&lines)
}

/// All messages as they are listed, in the order given.
pub fn render_messages(rows: &Vec<Message>) -> (line: String)
    ensures
        line@ == messages_text(rows@),
{
    let mut lines: Vec<String> = Vec::new();
    let mut i: usize = 0;
    while i < rows.len()
        invariant
            i == lines.len() <= rows.len(),
            forall|k: int| 0 <= k < i ==> (#[trigger] lines@[k])@ == message_text(rows@[k]),
        decreases rows.len() - i,
    {
        lines.push(render_message(&rows[i]));
        i += 1;
    }
    assert(texts(lines@) =~= rows@.map_values(|message: Message| message_text(message)));
    bracketed(&lines)
}

/// All rooms as they are listed, in the order given.
pub fn render_rooms(rows: &Vec<Room>) -> (line: String)
    ensures
        line@ == rooms_text(rows@),
{
    let mut lines: Vec<String> = Vec::new();
    let mut i: usize = 0;
    while i < rows.len()
        invariant
            i == lines.len() <= rows.len(),
            forall|k: int| 0 <= k < i ==> (#[trigger] lines@[k])@ == room_text(rows@[k]),
        decreases rows.len() - i,
    {
        lines.push(render_room(&rows[i]));
        i += 1;
    }
    assert(texts(lines@) =~= rows@.map_values(|room: Room| room_text(room)));
    bracketed(&lines)
}

/// The line that tells the client how the operation `request` ended, given the
/// adapter's answer. A listing is answered with its rows; an insert, a delete
/// and an append are acknowledged; a name that is taken is a conflict; an
/// append to an account that does not exist finds nothing; a fault of the
/// store, or an answer that does not belong to the operation, is an internal
/// error.
pub open spec fn reply_text(request: RequestView, outcome: StoreOutcome) -> Seq<char> {
    match (request, outcome) {
        (RequestView::ListUsers, StoreOutcome::Users(rows)) => "Users: "@ + users_text(rows@),
        (RequestView::ListMessages, StoreOutcome::Messages(rows)) => "Content: "@ + messages_text(
            rows@,
        ),
        (RequestView::ListRooms, StoreOutcome::Rooms(rows)) => "Rooms: "@ + rooms_text(rows@),
        (RequestView::InsertUser { name, .. }, StoreOutcome::Created(_)) => "Inserted "@ + quoted(
            name,
        ),
        (RequestView::InsertUser { .. }, StoreOutcome::Duplicate) => error_text(
            ErrorKind::Conflict,
        ),
        (RequestView::InsertMessage { content }, StoreOutcome::Created(_)) => "Inserted "@
            + quoted(content),
        (RequestView::InsertRoom { name }, StoreOutcome::Created(_)) => "Inserted "@ + quoted(
            name,
        ),
        (RequestView::DeleteUser { .. }, StoreOutcome::Done) => "Deleted"@,
        (RequestView::DeleteMessage { .. }, StoreOutcome::Done) => "Deleted"@,
        (RequestView::DeleteRoom { .. }, StoreOutcome::Done) => "Deleted"@,
        (RequestView::AppendRoomToUser { .. }, StoreOutcome::Done) => "Attached"@,
        (RequestView::AppendRoomToUser { .. }, StoreOutcome::Missing) => error_text(
            ErrorKind::NotFound,
        ),
        _ => error_text(ErrorKind::InternalError),
    }
}

/// An acknowledgement of an insert: the word `Inserted` and the quoted text.
fn inserted(text: &str) -> (line: String)
    ensures
        line@ == "Inserted "@ + quoted(text@),
{
    let mut out = String::from_str("Inserted ");
    push_quoted(&mut out, text);
    out
}

/// The line that tells the client how the operation `request` ended, given the
/// adapter's answer `outcome`.
pub fn store_reply(request: &StoreRequest, outcome: &StoreOutcome) -> (line: String)
    ensures
        line@ == reply_text(request@, *outcome),
{
    match (request, outcome) {
        (StoreRequest::ListUsers, StoreOutcome::Users(rows)) => {
            String::from_str("Users: ").concat(render_users(rows).as_str())
        },
        (StoreRequest::ListMessages, StoreOutcome::Messages(rows)) => {
            String::from_str("Content: ").concat(render_messages(rows).as_str())
        },
        (StoreRequest::ListRooms, StoreOutcome::Rooms(rows)) => {
            String::from_str("Rooms: ").concat(render_rooms(rows).as_str())
        },
        (StoreRequest::InsertUser { name, .. }, StoreOutcome::Created(_)) => inserted(
            name.as_str(),
        ),
        (StoreRequest::InsertUser { .. }, StoreOutcome::Duplicate) => error_reply(
            ErrorKind::Conflict,
        ),
        (StoreRequest::InsertMessage { content }, StoreOutcome::Created(_)) => inserted(
            content.as_str(),
        ),
        (StoreRequest::InsertRoom { name }, StoreOutcome::Created(_)) => inserted(name.as_str()),
        (StoreRequest::DeleteUser { .. }, StoreOutcome::Done) => String::from_str("Deleted"),
        (StoreRequest::DeleteMessage { .. }, StoreOutcome::Done) => String::from_str("Deleted"),
        (StoreRequest::DeleteRoom { .. }, StoreOutcome::Done) => String::from_str("Deleted"),
        (StoreRequest::AppendRoomToUser { .. }, StoreOutcome::Done) => String::from_str(
            "Attached",
        ),
        (StoreRequest::AppendRoomToUser { .. }, StoreOutcome::Missing) => error_reply(
            ErrorKind::NotFound,
        ),
        _ => error_reply(ErrorKind::InternalError),
    }
}

/// A fault of the store never reaches the client as anything but a line of
/// text: whatever the operation was, the reply is the internal error.
pub proof fn lemma_store_fault_is_reported(request: RequestView, message: String)
    ensures
        reply_text(request, StoreOutcome::Failed(message)) == error_text(ErrorKind::InternalError),
{
}

/// Whether `part` stands somewhere in `whole`, character for character.
pub open spec fn occurs_in(part: Seq<char>, whole: Seq<char>) -> bool {
    exists|at: int|
        0 <= at && at + part.len() <= whole.len() && #[trigger] whole.subrange(
            at,
            at + part.len(),
        ) == part
}

/// What stands in a text still stands in it when more text is put around it.
proof fn lemma_occurs_in_middle(
    part: Seq<char>,
    before: Seq<char>,
    middle: Seq<char>,
    after: Seq<char>,
)
    requires
        occurs_in(part, middle),
    ensures
        occurs_in(part, before + middle + after),
{
    let at = choose|at: int|
        0 <= at && at + part.len() <= middle.len() && #[trigger] middle.subrange(
            at,
            at + part.len(),
        ) == part;
    let whole = before + middle + after;
    let shifted = before.len() + at;
    assert(whole.subrange(shifted, shifted + part.len()) =~= middle.subrange(
        at,
        at + part.len(),
    ));
}

/// A text stands in itself.
proof fn lemma_occurs_in_itself(text: Seq<char>)
    ensures
        occurs_in(text, text),
{
    assert(text.subrange(0, 0int + text.len()) =~= text);
}

/// Every item of a listing stands in the listing.
proof fn lemma_item_occurs_in_joined(items: Seq<Seq<char>>, index: int)
    requires
        0 <= index < items.len(),
    ensures
        occurs_in(items[index], joined(items)),
    decreases items.len(),
{
    if items.len() == 1 {
        lemma_occurs_in_itself(items[0]);
    } else if index == items.len() - 1 {
        lemma_occurs_in_itself(items.last());
        lemma_occurs_in_middle(
            items.last(),
            joined(items.drop_last()) + ", "@,
            items.last(),
            Seq::empty(),
        );
        assert(joined(items.drop_last()) + ", "@ + items.last() + Seq::<char>::empty() =~= joined(
            items,
        ));
    } else {
        lemma_item_occurs_in_joined(items.drop_last(), index);
        lemma_occurs_in_middle(
            items[index],
            Seq::empty(),
            joined(items.drop_last()),
            ", "@ + items.last(),
        );
        assert(Seq::<char>::empty() + joined(items.drop_last()) + (", "@ + items.last())
            =~= joined(items));
    }
}

/// Every item of a listing stands in the reply that carries the listing under
/// the heading `heading`.
proof fn lemma_item_occurs_in_reply(heading: Seq<char>, items: Seq<Seq<char>>, index: int)
    requires
        0 <= index < items.len(),
    ensures
        occurs_in(items[index], heading + listed(items)),
{
    lemma_item_occurs_in_joined(items, index);
    lemma_occurs_in_middle(items[index], heading + "["@, joined(items), "]"@);
    assert(heading + "["@ + joined(items) + "]"@ =~= heading + listed(items));
}

/// The reply to a listing shows every row that the store returned: the text
/// of each account, message and room stands in the reply to its listing.
pub proof fn lemma_listing_shows_every_row(
    users: Vec<UserPublicInfo>,
    messages: Vec<Message>,
    rooms: Vec<Room>,
    index: int,
)
    ensures
        0 <= index < users@.len() ==> occurs_in(
            user_text(users@[index]),
            reply_text(RequestView::ListUsers, StoreOutcome::Users(users)),
        ),
        0 <= index < messages@.len() ==> occurs_in(
            message_text(messages@[index]),
            reply_text(RequestView::ListMessages, StoreOutcome::Messages(messages)),
        ),
        0 <= index < rooms@.len() ==> occurs_in(
            room_text(rooms@[index]),
            reply_text(RequestView::ListRooms, StoreOutcome::Rooms(rooms)),
        ),
{
    if 0 <= index < users@.len() {
        lemma_item_occurs_in_reply(
            "Users: "@,
            users@.map_values(|user: UserPublicInfo| user_text(user)),
            index,
        );
    }
    if 0 <= index < messages@.len() {
        lemma_item_occurs_in_reply(
            "Content: "@,
            messages@.map_values(|message: Message| message_text(message)),
            index,
        );
    }
    if 0 <= index < rooms@.len() {
        lemma_item_occurs_in_reply(
            "Rooms: "@,
            rooms@.map_values(|room: Room| room_text(room)),
            index,
        );
    }
}

/// A room that the store returns is shown by its name: the quoted name of
/// every room listed stands in the reply to the listing of rooms.
pub proof fn lemma_listing_shows_room_names(rooms: Vec<Room>, index: int)
    requires
        0 <= index < rooms@.len(),
    ensures
        occurs_in(
            quoted(rooms@[index].name@),
            reply_text(RequestView::ListRooms, StoreOutcome::Rooms(rooms)),
        ),
{
    let room = rooms@[index];
    let items = rooms@.map_values(|room: Room| room_text(room));
    let head = "{id: "@ + integer_text(room.id as int) + ", name: "@;
    let tail = ", created_at: "@ + integer_text(room.created_at as int) + ", expires_at: "@
        + optional_text(
        match room.expires_at {
            Some(at) => Some(at as int),
            None => None,
        },
    ) + "}"@;
    assert(head + quoted(room.name@) + tail =~= room_text(room));
    lemma_occurs_in_itself(quoted(room.name@));
    lemma_occurs_in_middle(quoted(room.name@), head, quoted(room.name@), tail);
    lemma_item_occurs_in_joined(items, index);
    lemma_occurs_in_middle(room_text(room), "Rooms: "@ + "["@, joined(items), "]"@);
    assert("Rooms: "@ + "["@ + joined(items) + "]"@ =~= "Rooms: "@ + listed(items));
    lemma_occurs_in_trans(quoted(room.name@), room_text(room), "Rooms: "@ + listed(items));
}

/// What stands in a part of a text stands in the text.
proof fn lemma_occurs_in_trans(part: Seq<char>, middle: Seq<char>, whole: Seq<char>)
    requires
        occurs_in(part, middle),
        occurs_in(middle, whole),
    ensures
        occurs_in(part, whole),
{
    let inner = choose|at: int|
        0 <= at && at + part.len() <= middle.len() && #[trigger] middle.subrange(
            at,
            at + part.len(),
        ) == part;
    let outer = choose|at: int|
        0 <= at && at + middle.len() <= whole.len() && #[trigger] whole.subrange(
            at,
            at + middle.len(),
        ) == middle;
    assert(whole.subrange(outer + inner, outer + inner + part.len()) =~= whole.subrange(
        outer,
        outer + middle.len(),
    ).subrange(inner, inner + part.len()));
}

} // verus!
