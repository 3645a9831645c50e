use privdm_backend::command::{help, Command, Domain, Operation};
use privdm_backend::credentials::{verify_password, PasswordCheck};
use privdm_backend::error::{error_reply, ErrorKind};
use privdm_backend::store::{
    render_message, render_messages, render_room, render_rooms, render_user, render_users,
    store_reply, Message, Room, StoreOutcome, StoreRequest,
};
use privdm_backend::user_struct::{User, UserPublicInfo};
use privdm_backend::websocket::{Argument, Incoming, Session, SessionState, Turn};

/// A store that lives in memory and runs each operation in one piece.
struct MemoryStore {
    users: Vec<User>,
    messages: Vec<Message>,
    rooms: Vec<Room>,
    next_id: i32,
    clock: i64,
}

impl MemoryStore {
    fn new() -> MemoryStore {
        MemoryStore { users: Vec::new(), messages: Vec::new(), rooms: Vec::new(), next_id: 1, clock: 1000 }
    }

    fn fresh(&mut self) -> (i32, i64) {
        let id = self.next_id;
        self.next_id += 1;
        self.clock += 1;
        (id, self.clock)
    }

    fn run(&mut self, request: &StoreRequest) -> StoreOutcome {
        match request {
            StoreRequest::InsertUser { name, pass_hash } => {
                if self.users.iter().any(|u| &u.name == name) {
                    return StoreOutcome::Duplicate;
                }
                let (id, at) = self.fresh();
                self.users.push(User {
                    id,
                    room_ids: Vec::new(),
                    name: name.clone(),
                    pass_hash: pass_hash.clone(),
                    joined_at: at,
                });
                StoreOutcome::Created(id)
            }
            StoreRequest::FindUserByName { name } => match self.users.iter().find(|u| &u.name == name) {
                Some(user) => StoreOutcome::Found(user.clone()),
                None => StoreOutcome::Missing,
            },
            StoreRequest::FindUserById { id } => match self.users.iter().find(|u| u.id == *id) {
                Some(user) => StoreOutcome::Found(user.clone()),
                None => StoreOutcome::Missing,
            },
            StoreRequest::ListUsers => StoreOutcome::Users(self.users.iter().map(|u| u.public_info()).collect()),
            StoreRequest::DeleteUser { id } => {
                self.users.retain(|u| u.id != *id);
                StoreOutcome::Done
            }
            StoreRequest::AppendRoomToUser { user_id, room_id } => {
                match self.users.iter_mut().find(|u| u.id == *user_id) {
                    Some(user) => {
                        user.attach_room(*room_id);
                        StoreOutcome::Done
                    }
                    None => StoreOutcome::Missing,
                }
            }
            StoreRequest::InsertMessage { content } => {
                let (id, at) = self.fresh();
                self.messages.push(Message { id, content: content.clone(), room_id: None, user_id: None, sent_at: at });
                StoreOutcome::Created(id)
            }
            StoreRequest::ListMessages => StoreOutcome::Messages(self.messages.clone()),
            StoreRequest::DeleteMessage { id } => {
                self.messages.retain(|m| m.id != *id);
                StoreOutcome::Done
            }
            StoreRequest::InsertRoom { name } => {
                let (id, at) = self.fresh();
                self.rooms.push(Room { id, name: name.clone(), created_at: at, expires_at: None });
                StoreOutcome::Created(id)
            }
            StoreRequest::ListRooms => StoreOutcome::Rooms(self.rooms.clone()),
            StoreRequest::DeleteRoom { id } => {
                self.rooms.retain(|r| r.id != *id);
                StoreOutcome::Done
            }
        }
    }
}

/// Feeds one line to the session as the owner of a connection would, and
/// returns every line that goes back to the client.
fn send(session: &mut Session, store: &mut MemoryStore, line: &str) -> Vec<String> {
    let turn = session.handle_socket(Incoming::Text(line.to_string()));
    let mut out = turn.replies;
    if let Some(request) = turn.request {
        let outcome = store.run(&request);
        out.push(store_reply(&request, &outcome));
    }
    out
}

fn text(line: &str) -> Incoming {
    Incoming::Text(line.to_string())
}

fn lines(all: &[&str]) -> Vec<String> {
    all.iter().map(|l| l.to_string()).collect()
}

fn awaiting(command: Command, collected: Vec<Argument>) -> SessionState {
    SessionState::AwaitingArgument { command, collected }
}

#[test]
fn a_new_session_is_idle() {
    let session = Session::new();
    assert_eq!(session.state(), &SessionState::Idle);
    assert!(!session.is_closed());
}

#[test]
fn inserted_room_shows_up_in_the_listing() {
    let mut session = Session::new();
    let mut store = MemoryStore::new();
    assert_eq!(send(&mut session, &mut store, "insert_room"), lines(&["Creating a new room...", "Room name: "]));
    assert_eq!(send(&mut session, &mut store, "general"), lines(&["Inserted \"general\""]));
    assert_eq!(session.state(), &SessionState::Idle);
    let listing = send(&mut session, &mut store, "get_rooms");
    assert_eq!(
        listing,
        lines(&["Requesting rooms...", "Rooms: [{id: 1, name: \"general\", created_at: 1001, expires_at: none}]"])
    );
    assert!(store.rooms.iter().any(|room| room.name == "general"));
}

#[test]
fn unknown_keyword_is_ignored_and_the_next_command_runs() {
    let mut session = Session::new();
    let mut store = MemoryStore::new();
    let turn = session.handle_socket(text("frobnicate"));
    assert_eq!(turn, Turn { replies: Vec::new(), request: None });
    assert_eq!(session.state(), &SessionState::Idle);
    assert_eq!(send(&mut session, &mut store, "get_msgs"), lines(&["Requesting messages...", "Content: []"]));
}

#[test]
fn malformed_id_is_reported_and_the_session_stays_open() {
    let mut session = Session::new();
    let mut store = MemoryStore::new();
    assert_eq!(send(&mut session, &mut store, "delete_user"), lines(&["Deleting a user...", "ID: "]));
    assert_eq!(
        session.state(),
        &awaiting(Command::Record(Domain::Users, Operation::Delete), Vec::new())
    );
    let turn = session.handle_socket(text("not-a-number"));
    assert_eq!(turn, Turn { replies: lines(&["Error: invalid ID"]), request: None });
    assert_eq!(session.state(), &SessionState::Idle);
    assert!(!session.is_closed());
    assert_eq!(send(&mut session, &mut store, "get_users"), lines(&["Requesting users...", "Users: []"]));
}

#[test]
fn delete_runs_with_a_numeric_id() {
    let mut session = Session::new();
    for (keyword, announced, request) in [
        ("delete_user", "Deleting a user...", StoreRequest::DeleteUser { id: 12 }),
        ("delete_msg", "Deleting a message...", StoreRequest::DeleteMessage { id: 12 }),
        ("delete_room", "Deleting a room...", StoreRequest::DeleteRoom { id: 12 }),
    ] {
        let first = session.handle_socket(text(keyword));
        assert_eq!(first, Turn { replies: lines(&[announced, "ID: "]), request: None });
        let second = session.handle_socket(text("12"));
        assert_eq!(second, Turn { replies: Vec::new(), request: Some(request) });
        assert_eq!(session.state(), &SessionState::Idle);
    }
}

#[test]
fn deleting_a_missing_row_is_accepted() {
    let mut session = Session::new();
    let mut store = MemoryStore::new();
    send(&mut session, &mut store, "delete_msg");
    assert_eq!(send(&mut session, &mut store, "404"), lines(&["Deleted"]));
}

#[test]
fn insert_msg_collects_its_content() {
    let mut session = Session::new();
    let mut store = MemoryStore::new();
    assert_eq!(send(&mut session, &mut store, "insert_msg"), lines(&["Inserting a message...", "content: "]));
    assert_eq!(send(&mut session, &mut store, "hello there"), lines(&["Inserted \"hello there\""]));
    assert_eq!(store.messages.len(), 1);
    assert_eq!(store.messages[0].content, "hello there");
    assert_eq!(
        send(&mut session, &mut store, "get_msgs"),
        lines(&[
            "Requesting messages...",
            "Content: [{id: 1, content: \"hello there\", room_id: none, user_id: none, sent_at: 1001}]"
        ])
    );
}

#[test]
fn a_keyword_is_plain_text_while_an_argument_is_awaited() {
    let mut session = Session::new();
    session.handle_socket(text("insert_msg"));
    let turn = session.handle_socket(text("help"));
    assert_eq!(
        turn,
        Turn { replies: Vec::new(), request: Some(StoreRequest::InsertMessage { content: "help".to_string() }) }
    );
}

#[test]
fn attach_collects_two_ids_and_asks_for_one_append() {
    let mut session = Session::new();
    let first = session.handle_socket(text("attach_user_to_room"));
    assert_eq!(first, Turn { replies: lines(&["Attaching user to room..", "User ID: "]), request: None });
    let second = session.handle_socket(text("7"));
    assert_eq!(second, Turn { replies: lines(&["Room ID: "]), request: None });
    assert_eq!(session.state(), &awaiting(Command::AttachUserToRoom, vec![Argument::Id { id: 7 }]));
    let third = session.handle_socket(text("-3"));
    assert_eq!(
        third,
        Turn { replies: Vec::new(), request: Some(StoreRequest::AppendRoomToUser { user_id: 7, room_id: -3 }) }
    );
    assert_eq!(session.state(), &SessionState::Idle);
}

#[test]
fn remaining_counts_down_to_the_run() {
    let mut session = Session::new();
    assert_eq!(session.remaining(), 0);
    session.handle_socket(text("attach_user_to_room"));
    assert_eq!(session.remaining(), 2);
    session.handle_socket(text("7"));
    assert_eq!(session.remaining(), 1);
    session.handle_socket(Incoming::Other);
    assert_eq!(session.remaining(), 1);
    session.handle_socket(text("8"));
    assert_eq!(session.remaining(), 0);
    session.handle_socket(text("insert_msg"));
    assert_eq!(session.remaining(), 1);
    session.handle_socket(text("quit"));
    assert_eq!(session.remaining(), 0);
}

#[test]
fn attach_drops_the_command_on_a_malformed_user_id() {
    let mut session = Session::new();
    session.handle_socket(text("attach_user_to_room"));
    let turn = session.handle_socket(text("seven"));
    assert_eq!(turn, Turn { replies: lines(&["Error: invalid ID"]), request: None });
    assert_eq!(session.state(), &SessionState::Idle);
}

#[test]
fn attach_drops_the_command_on_a_malformed_room_id() {
    let mut session = Session::new();
    session.handle_socket(text("attach_user_to_room"));
    session.handle_socket(text("7"));
    let turn = session.handle_socket(text(""));
    assert_eq!(turn, Turn { replies: lines(&["Error: invalid ID"]), request: None });
    assert_eq!(session.state(), &SessionState::Idle);
}

#[test]
fn two_sessions_attaching_to_one_user_lose_no_update() {
    let mut store = MemoryStore::new();
    store.run(&StoreRequest::InsertUser { name: "bob".to_string(), pass_hash: "x".to_string() });
    let mut first = Session::new();
    let mut second = Session::new();
    send(&mut first, &mut store, "attach_user_to_room");
    send(&mut second, &mut store, "attach_user_to_room");
    send(&mut first, &mut store, "1");
    send(&mut second, &mut store, "1");
    assert_eq!(send(&mut second, &mut store, "20"), lines(&["Attached"]));
    assert_eq!(send(&mut first, &mut store, "10"), lines(&["Attached"]));
    assert_eq!(store.users[0].room_ids, vec![20, 10]);
}

#[test]
fn attaching_the_same_room_twice_lists_it_twice() {
    let mut user = User { id: 1, room_ids: vec![4], name: "a".to_string(), pass_hash: "h".to_string(), joined_at: 5 };
    user.attach_room(4);
    user.attach_room(9);
    assert_eq!(user.room_ids, vec![4, 4, 9]);
    assert_eq!(user.id, 1);
    assert_eq!(user.name, "a");
    assert_eq!(user.pass_hash, "h");
    assert_eq!(user.joined_at, 5);
}

#[test]
fn attach_to_a_missing_user_is_not_found() {
    let mut session = Session::new();
    let mut store = MemoryStore::new();
    send(&mut session, &mut store, "attach_user_to_room");
    send(&mut session, &mut store, "99");
    assert_eq!(send(&mut session, &mut store, "1"), lines(&["Error: not found"]));
    assert!(!session.is_closed());
}

#[test]
fn insert_user_hashes_the_password() {
    let mut session = Session::new();
    let mut store = MemoryStore::new();
    assert_eq!(send(&mut session, &mut store, "insert_user"), lines(&["Creating a new user...", "Account name: "]));
    assert_eq!(send(&mut session, &mut store, "alice"), lines(&["Pass: "]));
    assert_eq!(
        session.state(),
        &awaiting(
            Command::Record(Domain::Users, Operation::Insert),
            vec![Argument::Text { text: "alice".to_string() }]
        )
    );
    assert!(session.needs_hash(&text("hunter2")));
    assert!(!session.needs_hash(&text("quit")));
    assert!(!session.needs_hash(&Incoming::Close));
    assert_eq!(send(&mut session, &mut store, "hunter2"), lines(&["Inserted \"alice\""]));
    assert_eq!(store.users.len(), 1);
    assert_eq!(store.users[0].name, "alice");
    assert_ne!(store.users[0].pass_hash, "hunter2");
    assert_eq!(verify_password("hunter2", &store.users[0].pass_hash), PasswordCheck::Match);
    assert_eq!(verify_password("hunter3", &store.users[0].pass_hash), PasswordCheck::Mismatch);
}

#[test]
fn insert_user_with_a_taken_name_is_a_conflict() {
    let mut session = Session::new();
    let mut store = MemoryStore::new();
    store.run(&StoreRequest::InsertUser { name: "alice".to_string(), pass_hash: "x".to_string() });
    send(&mut session, &mut store, "insert_user");
    send(&mut session, &mut store, "alice");
    assert_eq!(send(&mut session, &mut store, "pw"), lines(&["Error: name already taken"]));
    assert_eq!(store.users.len(), 1);
}

#[test]
fn advance_uses_the_hash_it_is_given() {
    let mut session = Session::new();
    session.advance(text("insert_user"), None);
    session.advance(text("alice"), None);
    let turn = session.advance(text("pw"), Some(Ok("the-hash".to_string())));
    assert_eq!(
        turn,
        Turn {
            replies: Vec::new(),
            request: Some(StoreRequest::InsertUser { name: "alice".to_string(), pass_hash: "the-hash".to_string() })
        }
    );
}

#[test]
fn advance_reports_a_failed_or_missing_hash() {
    for hashed in [Some(Err(ErrorKind::InternalError)), None] {
        let mut session = Session::new();
        session.advance(text("insert_user"), None);
        session.advance(text("alice"), None);
        let turn = session.advance(text("pw"), hashed);
        assert_eq!(turn, Turn { replies: lines(&["Error: internal error"]), request: None });
        assert_eq!(session.state(), &SessionState::Idle);
    }
}

#[test]
fn get_users_never_shows_a_hash() {
    let mut session = Session::new();
    let mut store = MemoryStore::new();
    store.run(&StoreRequest::InsertUser { name: "alice".to_string(), pass_hash: "$argon2id$secret".to_string() });
    let out = send(&mut session, &mut store, "get_users");
    assert_eq!(out, lines(&["Requesting users...", "Users: [{id: 1, name: \"alice\", joined_at: 1001}]"]));
}

#[test]
fn edit_commands_are_not_implemented() {
    let mut session = Session::new();
    for keyword in ["edit_msg", "edit_user", "edit_room"] {
        let turn = session.handle_socket(text(keyword));
        assert_eq!(turn, Turn { replies: lines(&["Error: not implemented"]), request: None });
        assert_eq!(session.state(), &SessionState::Idle);
    }
}

#[test]
fn help_sends_the_listing_and_changes_nothing() {
    let mut session = Session::new();
    let turn = session.handle_socket(text("help"));
    assert_eq!(turn, Turn { replies: vec![help().to_string()], request: None });
    assert_eq!(session.state(), &SessionState::Idle);
}

#[test]
fn quit_closes_an_idle_session() {
    let mut session = Session::new();
    let turn = session.handle_socket(text("quit"));
    assert_eq!(turn, Turn { replies: Vec::new(), request: None });
    assert_eq!(session.state(), &SessionState::Closed);
    assert!(session.is_closed());
}

#[test]
fn quit_discards_partial_arguments() {
    let mut session = Session::new();
    session.handle_socket(text("attach_user_to_room"));
    session.handle_socket(text("7"));
    let turn = session.handle_socket(text("quit"));
    assert_eq!(turn, Turn { replies: Vec::new(), request: None });
    assert!(session.is_closed());
}

#[test]
fn close_signal_closes_from_any_state() {
    let mut idle = Session::new();
    assert_eq!(idle.handle_socket(Incoming::Close), Turn { replies: Vec::new(), request: None });
    assert!(idle.is_closed());
    let mut waiting = Session::new();
    waiting.handle_socket(text("insert_room"));
    assert_eq!(waiting.handle_socket(Incoming::Close), Turn { replies: Vec::new(), request: None });
    assert!(waiting.is_closed());
}

#[test]
fn a_closed_session_stays_closed() {
    let mut session = Session::new();
    session.handle_socket(text("quit"));
    for incoming in [text("help"), text("get_rooms"), Incoming::Other, Incoming::Close, text("quit")] {
        assert_eq!(session.handle_socket(incoming), Turn { replies: Vec::new(), request: None });
        assert!(session.is_closed());
    }
}

#[test]
fn other_frames_change_nothing() {
    let mut session = Session::new();
    assert_eq!(session.handle_socket(Incoming::Other), Turn { replies: Vec::new(), request: None });
    assert_eq!(session.state(), &SessionState::Idle);
    session.handle_socket(text("delete_room"));
    let before = session.state().clone();
    assert_eq!(session.handle_socket(Incoming::Other), Turn { replies: Vec::new(), request: None });
    assert_eq!(session.state(), &before);
}

#[test]
fn listings_run_at_once() {
    let mut session = Session::new();
    for (keyword, announced, request) in [
        ("get_users", "Requesting users...", StoreRequest::ListUsers),
        ("get_msgs", "Requesting messages...", StoreRequest::ListMessages),
        ("get_rooms", "Requesting rooms...", StoreRequest::ListRooms),
    ] {
        let turn = session.handle_socket(text(keyword));
        assert_eq!(turn, Turn { replies: lines(&[announced]), request: Some(request) });
        assert_eq!(session.state(), &SessionState::Idle);
    }
}

#[test]
fn store_failure_is_an_internal_error_reply() {
    let failed = StoreOutcome::Failed("connection reset".to_string());
    for request in [
        StoreRequest::ListRooms,
        StoreRequest::InsertRoom { name: "x".to_string() },
        StoreRequest::DeleteUser { id: 1 },
        StoreRequest::AppendRoomToUser { user_id: 1, room_id: 2 },
    ] {
        assert_eq!(store_reply(&request, &failed), "Error: internal error");
    }
}

#[test]
fn an_answer_that_does_not_belong_is_an_internal_error_reply() {
    assert_eq!(store_reply(&StoreRequest::ListRooms, &StoreOutcome::Messages(Vec::new())), "Error: internal error");
    assert_eq!(store_reply(&StoreRequest::ListUsers, &StoreOutcome::Done), "Error: internal error");
    assert_eq!(store_reply(&StoreRequest::DeleteRoom { id: 1 }, &StoreOutcome::Created(1)), "Error: internal error");
    assert_eq!(
        store_reply(&StoreRequest::InsertMessage { content: "x".to_string() }, &StoreOutcome::Done),
        "Error: internal error"
    );
    assert_eq!(
        store_reply(&StoreRequest::FindUserById { id: 1 }, &StoreOutcome::Missing),
        "Error: internal error"
    );
    assert_eq!(
        store_reply(&StoreRequest::InsertRoom { name: "x".to_string() }, &StoreOutcome::Duplicate),
        "Error: internal error"
    );
}

#[test]
fn store_reply_acknowledges_each_operation() {
    assert_eq!(store_reply(&StoreRequest::DeleteUser { id: 1 }, &StoreOutcome::Done), "Deleted");
    assert_eq!(store_reply(&StoreRequest::DeleteMessage { id: 1 }, &StoreOutcome::Done), "Deleted");
    assert_eq!(store_reply(&StoreRequest::DeleteRoom { id: 1 }, &StoreOutcome::Done), "Deleted");
    assert_eq!(store_reply(&StoreRequest::AppendRoomToUser { user_id: 1, room_id: 2 }, &StoreOutcome::Done), "Attached");
    assert_eq!(
        store_reply(&StoreRequest::InsertRoom { name: "general".to_string() }, &StoreOutcome::Created(3)),
        "Inserted \"general\""
    );
    assert_eq!(
        store_reply(&StoreRequest::InsertMessage { content: "hi".to_string() }, &StoreOutcome::Created(3)),
        "Inserted \"hi\""
    );
    assert_eq!(
        store_reply(
            &StoreRequest::InsertUser { name: "bob".to_string(), pass_hash: "h".to_string() },
            &StoreOutcome::Created(3)
        ),
        "Inserted \"bob\""
    );
}

#[test]
fn rows_are_rendered_field_by_field() {
    let user = UserPublicInfo { id: -4, name: "bob".to_string(), joined_at: 1700000000000000 };
    assert_eq!(render_user(&user), "{id: -4, name: \"bob\", joined_at: 1700000000000000}");
    let message = Message { id: 1, content: "hi, all".to_string(), room_id: Some(2), user_id: None, sent_at: -5 };
    assert_eq!(render_message(&message), "{id: 1, content: \"hi, all\", room_id: 2, user_id: none, sent_at: -5}");
    let room = Room { id: 10, name: String::new(), created_at: 0, expires_at: Some(99) };
    assert_eq!(render_room(&room), "{id: 10, name: \"\", created_at: 0, expires_at: 99}");
}

#[test]
fn listings_are_bracketed_and_comma_separated() {
    assert_eq!(render_users(&Vec::new()), "[]");
    assert_eq!(render_messages(&Vec::new()), "[]");
    assert_eq!(render_rooms(&Vec::new()), "[]");
    let a = Room { id: 1, name: "a".to_string(), created_at: 5, expires_at: None };
    let b = Room { id: 2, name: "b".to_string(), created_at: 6, expires_at: Some(7) };
    let c = Room { id: 3, name: "c".to_string(), created_at: 8, expires_at: None };
    assert_eq!(render_rooms(&vec![a.clone()]), "[{id: 1, name: \"a\", created_at: 5, expires_at: none}]");
    assert_eq!(
        render_rooms(&vec![a, b, c]),
        "[{id: 1, name: \"a\", created_at: 5, expires_at: none}, {id: 2, name: \"b\", created_at: 6, expires_at: 7}, {id: 3, name: \"c\", created_at: 8, expires_at: none}]"
    );
    let u = UserPublicInfo { id: 1, name: "u".to_string(), joined_at: 2 };
    let v = UserPublicInfo { id: 3, name: "v".to_string(), joined_at: 4 };
    assert_eq!(render_users(&vec![u, v]), "[{id: 1, name: \"u\", joined_at: 2}, {id: 3, name: \"v\", joined_at: 4}]");
    let m = Message { id: 1, content: "m".to_string(), room_id: None, user_id: Some(2), sent_at: 3 };
    assert_eq!(
        render_messages(&vec![m.clone(), m]),
        "[{id: 1, content: \"m\", room_id: none, user_id: 2, sent_at: 3}, {id: 1, content: \"m\", room_id: none, user_id: 2, sent_at: 3}]"
    );
}

#[test]
fn error_replies_name_the_kind() {
    assert_eq!(error_reply(ErrorKind::Conflict), "Error: name already taken");
    assert_eq!(error_reply(ErrorKind::Unauthorized), "Error: unauthorized");
    assert_eq!(error_reply(ErrorKind::NotFound), "Error: not found");
    assert_eq!(error_reply(ErrorKind::ValidationError), "Error: invalid ID");
    assert_eq!(error_reply(ErrorKind::NotImplemented), "Error: not implemented");
    assert_eq!(error_reply(ErrorKind::InternalError), "Error: internal error");
}
