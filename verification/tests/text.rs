use privdm_backend::command::{
    announcement, argument_kind, arity, help, is_unimplemented, keyword, msgs_command, prompt,
    rooms_command, route, users_command, ArgumentKind, Command, Domain, Operation,
};
use privdm_backend::text::{parse_id, push_integer, push_natural, str_eq};

fn all_commands() -> Vec<Command> {
    let mut all = vec![Command::Help, Command::Quit, Command::AttachUserToRoom];
    for domain in [Domain::Users, Domain::Messages, Domain::Rooms] {
        for operation in [Operation::Get, Operation::Insert, Operation::Delete, Operation::Edit] {
            all.push(Command::Record(domain, operation));
        }
    }
    all
}

#[test]
fn str_eq_compares_characters() {
    assert!(str_eq("", ""));
    assert!(str_eq("quit", "quit"));
    assert!(!str_eq("quit", "quit "));
    assert!(!str_eq("quit", "quiT"));
    assert!(!str_eq("héllo", "hello"));
    assert!(str_eq("héllo", "héllo"));
}

#[test]
fn parse_id_reads_plain_numerals() {
    assert_eq!(parse_id("0"), Some(0));
    assert_eq!(parse_id("42"), Some(42));
    assert_eq!(parse_id("007"), Some(7));
    assert_eq!(parse_id("+5"), Some(5));
    assert_eq!(parse_id("-5"), Some(-5));
    assert_eq!(parse_id("-0"), Some(0));
}

#[test]
fn parse_id_keeps_to_the_range_of_i32() {
    assert_eq!(parse_id("2147483647"), Some(i32::MAX));
    assert_eq!(parse_id("2147483648"), None);
    assert_eq!(parse_id("-2147483648"), Some(i32::MIN));
    assert_eq!(parse_id("-2147483649"), None);
    assert_eq!(parse_id("00000000000000000002147483647"), Some(i32::MAX));
    assert_eq!(parse_id("99999999999999999999999999999999999999"), None);
}

#[test]
fn parse_id_rejects_what_is_no_numeral() {
    for text in ["", "+", "-", "+-1", "--1", " 5", "5 ", "1a", "a1", "1.0", "0x10", "١٢٣", "1_000", "abc"] {
        assert_eq!(parse_id(text), None, "{text:?}");
    }
}

#[test]
fn parse_id_agrees_with_the_standard_parser() {
    let samples = [
        "", "0", "-0", "+0", "12", "-12", "+12", "2147483647", "2147483648", "-2147483648",
        "-2147483649", "4294967296", "x", "1x", "-", "+", " 1", "1 ", "٣", "1é", "é1", "000",
        "-000", "+2147483647", "99999999999",
    ];
    for text in samples {
        assert_eq!(parse_id(text), text.parse::<i32>().ok(), "{text:?}");
    }
}

#[test]
fn push_natural_writes_decimal_numerals() {
    for n in [0u64, 1, 9, 10, 11, 99, 100, 1234567890, u64::MAX] {
        let mut out = String::from("n=");
        push_natural(&mut out, n);
        assert_eq!(out, format!("n={n}"));
    }
}

#[test]
fn push_integer_writes_the_sign() {
    for n in [0i64, 1, -1, 10, -10, 1700000000000000, i64::MAX, i64::MIN] {
        let mut out = String::new();
        push_integer(&mut out, n);
        assert_eq!(out, format!("{n}"));
    }
}

#[test]
fn push_integer_round_trips_through_parse_id() {
    for n in [0i32, 1, -1, 42, i32::MAX, i32::MIN] {
        let mut out = String::new();
        push_integer(&mut out, n as i64);
        assert_eq!(parse_id(&out), Some(n));
    }
}

#[test]
fn route_finds_every_keyword() {
    assert_eq!(route("help"), Some(Command::Help));
    assert_eq!(route("quit"), Some(Command::Quit));
    assert_eq!(route("attach_user_to_room"), Some(Command::AttachUserToRoom));
    assert_eq!(route("get_users"), Some(Command::Record(Domain::Users, Operation::Get)));
    assert_eq!(route("insert_user"), Some(Command::Record(Domain::Users, Operation::Insert)));
    assert_eq!(route("delete_user"), Some(Command::Record(Domain::Users, Operation::Delete)));
    assert_eq!(route("edit_user"), Some(Command::Record(Domain::Users, Operation::Edit)));
    assert_eq!(route("get_msgs"), Some(Command::Record(Domain::Messages, Operation::Get)));
    assert_eq!(route("insert_msg"), Some(Command::Record(Domain::Messages, Operation::Insert)));
    assert_eq!(route("delete_msg"), Some(Command::Record(Domain::Messages, Operation::Delete)));
    assert_eq!(route("edit_msg"), Some(Command::Record(Domain::Messages, Operation::Edit)));
    assert_eq!(route("get_rooms"), Some(Command::Record(Domain::Rooms, Operation::Get)));
    assert_eq!(route("insert_room"), Some(Command::Record(Domain::Rooms, Operation::Insert)));
    assert_eq!(route("delete_room"), Some(Command::Record(Domain::Rooms, Operation::Delete)));
    assert_eq!(route("edit_room"), Some(Command::Record(Domain::Rooms, Operation::Edit)));
}

#[test]
fn route_ignores_what_is_no_keyword() {
    for text in ["", "HELP", "help ", " help", "get_msg", "get_messages", "insert", "delete_users", "quit\n"] {
        assert_eq!(route(text), None, "{text:?}");
    }
}

#[test]
fn route_and_keyword_are_inverse() {
    for command in all_commands() {
        assert_eq!(route(keyword(command)), Some(command));
    }
}

#[test]
fn each_keyword_has_one_handler() {
    for command in all_commands() {
        let word = keyword(command);
        let claims = [users_command(word), msgs_command(word), rooms_command(word)];
        let claimed = claims.iter().filter(|c| c.is_some()).count();
        match command {
            Command::Help | Command::Quit => assert_eq!(claimed, 0),
            _ => {
                assert_eq!(claimed, 1);
                assert!(claims.contains(&Some(command)));
            }
        }
    }
}

#[test]
fn domain_tables_hold_their_own_keywords() {
    assert_eq!(users_command("attach_user_to_room"), Some(Command::AttachUserToRoom));
    assert_eq!(users_command("get_msgs"), None);
    assert_eq!(msgs_command("insert_msg"), Some(Command::Record(Domain::Messages, Operation::Insert)));
    assert_eq!(msgs_command("insert_room"), None);
    assert_eq!(rooms_command("delete_room"), Some(Command::Record(Domain::Rooms, Operation::Delete)));
    assert_eq!(rooms_command("delete_user"), None);
}

#[test]
fn arities_follow_the_protocol() {
    assert_eq!(arity(Command::Help), 0);
    assert_eq!(arity(Command::Quit), 0);
    assert_eq!(arity(Command::AttachUserToRoom), 2);
    for domain in [Domain::Users, Domain::Messages, Domain::Rooms] {
        assert_eq!(arity(Command::Record(domain, Operation::Get)), 0);
        assert_eq!(arity(Command::Record(domain, Operation::Delete)), 1);
        assert_eq!(arity(Command::Record(domain, Operation::Edit)), 0);
    }
    assert_eq!(arity(Command::Record(Domain::Users, Operation::Insert)), 2);
    assert_eq!(arity(Command::Record(Domain::Messages, Operation::Insert)), 1);
    assert_eq!(arity(Command::Record(Domain::Rooms, Operation::Insert)), 1);
}

#[test]
fn argument_kinds_follow_the_protocol() {
    let insert_user = Command::Record(Domain::Users, Operation::Insert);
    assert_eq!(argument_kind(insert_user, 0), ArgumentKind::Text);
    assert_eq!(argument_kind(insert_user, 1), ArgumentKind::Secret);
    assert_eq!(argument_kind(Command::Record(Domain::Messages, Operation::Insert), 0), ArgumentKind::Text);
    assert_eq!(argument_kind(Command::Record(Domain::Rooms, Operation::Delete), 0), ArgumentKind::Id);
    assert_eq!(argument_kind(Command::AttachUserToRoom, 0), ArgumentKind::Id);
    assert_eq!(argument_kind(Command::AttachUserToRoom, 1), ArgumentKind::Id);
}

#[test]
fn prompts_are_the_literal_ones() {
    assert_eq!(prompt(Command::Record(Domain::Messages, Operation::Insert), 0), "content: ");
    assert_eq!(prompt(Command::Record(Domain::Messages, Operation::Delete), 0), "ID: ");
    assert_eq!(prompt(Command::Record(Domain::Users, Operation::Insert), 0), "Account name: ");
    assert_eq!(prompt(Command::Record(Domain::Users, Operation::Insert), 1), "Pass: ");
    assert_eq!(prompt(Command::Record(Domain::Users, Operation::Delete), 0), "ID: ");
    assert_eq!(prompt(Command::Record(Domain::Rooms, Operation::Insert), 0), "Room name: ");
    assert_eq!(prompt(Command::Record(Domain::Rooms, Operation::Delete), 0), "ID: ");
    assert_eq!(prompt(Command::AttachUserToRoom, 0), "User ID: ");
    assert_eq!(prompt(Command::AttachUserToRoom, 1), "Room ID: ");
    assert_eq!(prompt(Command::AttachUserToRoom, 2), "");
    assert_eq!(prompt(Command::Help, 0), "");
}

#[test]
fn announcements_are_the_literal_ones() {
    assert_eq!(announcement(Command::AttachUserToRoom), "Attaching user to room..");
    assert_eq!(announcement(Command::Record(Domain::Messages, Operation::Get)), "Requesting messages...");
    assert_eq!(announcement(Command::Record(Domain::Messages, Operation::Insert)), "Inserting a message...");
    assert_eq!(announcement(Command::Record(Domain::Messages, Operation::Delete)), "Deleting a message...");
    assert_eq!(announcement(Command::Record(Domain::Rooms, Operation::Get)), "Requesting rooms...");
    assert_eq!(announcement(Command::Record(Domain::Rooms, Operation::Insert)), "Creating a new room...");
    assert_eq!(announcement(Command::Record(Domain::Rooms, Operation::Delete)), "Deleting a room...");
    assert_eq!(announcement(Command::Record(Domain::Users, Operation::Get)), "Requesting users...");
    assert_eq!(announcement(Command::Record(Domain::Users, Operation::Insert)), "Creating a new user...");
    assert_eq!(announcement(Command::Record(Domain::Users, Operation::Delete)), "Deleting a user...");
}

#[test]
fn edits_are_the_unimplemented_commands() {
    for command in all_commands() {
        let edit = matches!(command, Command::Record(_, Operation::Edit));
        assert_eq!(is_unimplemented(command), edit);
    }
}

#[test]
fn help_lists_every_keyword() {
    let text = help();
    for command in all_commands() {
        let line = format!("\n{} ", keyword(command));
        assert!(text.contains(&line), "{line:?}");
    }
    assert!(text.starts_with("\n--- SESSION ---\n"));
    assert!(text.ends_with("edit_room - Edits a room"));
}
