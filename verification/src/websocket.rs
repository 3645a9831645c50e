//! The session protocol of the command channel: one state value per
//! connection, and one step per frame received. A step says what to send back
//! and which operation of the persistence adapter to run; whoever owns the
//! connection sends, runs, and reports the adapter's answer with
//! `store::store_reply`. No step fails: every fault a client can cause ends as
//! a line of text, and only `quit` or the end of the connection closes.

use vstd::prelude::*;
use vstd::string::StringExecFns;
use crate::command::{
    announcement, announcement_of, argument_kind, arity, arity_of, help, help_text,
    is_unimplemented, kind_of, prompt, prompt_of, route, routed, unimplemented, ArgumentKind,
    Command, Domain, Operation,
};
use crate::credentials::{
    argon2_phc, check_of, fresh_shaped, hash_password, hashing_of, PasswordCheck,
};
use crate::error::{error_reply, error_text, text_of, ErrorKind};
use crate::store::{RequestView, StoreRequest};
use crate::text::{id_of, parse_id, str_eq};

verus! {

/// An argument that a command has collected.
#[derive(Clone, Debug, PartialEq, Eq)]
pub enum Argument {
    Text { text: String },
    Id { id: i32 },
}

/// An `Argument` as plain values.
pub enum ArgumentView {
    Text { text: Seq<char> },
    Id { id: i32 },
}

impl View for Argument {
    type V = ArgumentView;

    open spec fn view(&self) -> ArgumentView {
        match *self {
            Argument::Text { text } => ArgumentView::Text { text: text@ },
            Argument::Id { id } => ArgumentView::Id { id },
        }
    }
}

/// Where a session stands in the protocol.
#[derive(Clone, Debug, PartialEq, Eq)]
pub enum SessionState {
    /// Waiting for a command.
    Idle,
    /// Waiting for the next argument of `command`; `collected` holds the
    /// arguments received so far, in order.
    AwaitingArgument { command: Command, collected: Vec<Argument> },
    /// The session is over.
    Closed,
}

/// A `SessionState` as plain values.
pub enum StateView {
    Idle,
    AwaitingArgument { command: Command, collected: Seq<ArgumentView> },
    Closed,
}

/// The arguments of `collected` as plain values.
pub open spec fn views(collected: Seq<Argument>) -> Seq<ArgumentView> {
    collected.map_values(|argument: Argument| argument@)
}

impl View for SessionState {
    type V = StateView;

    open spec fn view(&self) -> StateView {
        match *self {
            SessionState::Idle => StateView::Idle,
            SessionState::AwaitingArgument { command, collected } => StateView::AwaitingArgument {
                command,
                collected: views(collected@),
            },
            SessionState::Closed => StateView::Closed,
        }
    }
}

/// A frame received on the connection.
#[derive(Clone, Debug, PartialEq, Eq)]
pub enum Incoming {
    /// A line of text.
    Text(String),
    /// The connection's own close signal, or its end.
    Close,
    /// Any other frame; the protocol ignores it.
    Other,
}

/// What one step asks of the connection's owner: the lines to send, in order,
/// and then the operation to run, if any.
#[derive(Clone, Debug, PartialEq, Eq)]
pub struct Turn {
    pub replies: Vec<String>,
    pub request: Option<StoreRequest>,
}

/// A `Turn` as plain values.
pub struct TurnView {
    pub replies: Seq<Seq<char>>,
    pub request: Option<RequestView>,
}

impl View for Turn {
    type V = TurnView;

    open spec fn view(&self) -> TurnView {
        TurnView {
            replies: self.replies@.map_values(|line: String| line@),
            request: match self.request {
                Some(request) => Some(request@),
                None => None,
            },
        }
    }
}

/// The outcome of hashing a password, with the hash taken by its characters.
pub open spec fn hash_view(hashed: Option<Result<String, ErrorKind>>) -> Option<
    Result<Seq<char>, ErrorKind>,
> {
    match hashed {
        Some(Ok(stored)) => Some(Ok(stored@)),
        Some(Err(kind)) => Some(Err(kind)),
        None => None,
    }
}

/// Whether `argument` is of the kind `kind`. Text and hashed secrets are both held as text.
pub open spec fn fits(argument: ArgumentView, kind: ArgumentKind) -> bool {
    match kind {
        ArgumentKind::Id => argument is Id,
        _ => argument is Text,
    }
}

/// Whether `collected` holds arguments of the kinds that `command` expects, in order.
pub open spec fn typed(command: Command, collected: Seq<ArgumentView>) -> bool {
    forall|i: int|
        0 <= i < collected.len() ==> fits(#[trigger] collected[i], kind_of(command, i as nat))
}

/// The invariant of a session: while it waits for an argument, at least one is
/// still missing, and those collected are of the kinds the command expects.
pub open spec fn well_formed(state: StateView) -> bool {
    match state {
        StateView::AwaitingArgument { command, collected } => collected.len() < arity_of(command)
            && typed(command, collected),
        _ => true,
    }
}

/// How many arguments the session still waits for: none unless a command is
/// being collected.
pub open spec fn remaining_of(state: StateView) -> nat {
    match state {
        StateView::AwaitingArgument { command, collected } => (arity_of(command)
            - collected.len()) as nat,
        _ => 0,
    }
}

/// A step that sends nothing and runs nothing.
pub open spec fn silent() -> TurnView {
    TurnView { replies: Seq::empty(), request: None }
}

/// A step that only sends `lines`.
pub open spec fn saying(lines: Seq<Seq<char>>) -> TurnView {
    TurnView { replies: lines, request: None }
}

/// What a received line is as an argument of kind `kind`: text as it stands;
/// an identifier if it is a numeral, else a validation error; a secret as its
/// hash `hashed`, where hashing succeeded, else an internal error.
pub open spec fn read_argument(
    kind: ArgumentKind,
    line: Seq<char>,
    hashed: Option<Result<Seq<char>, ErrorKind>>,
) -> Result<ArgumentView, ErrorKind> {
    match kind {
        ArgumentKind::Text => Ok(ArgumentView::Text { text: line }),
        ArgumentKind::Id => match id_of(line) {
            Some(id) => Ok(ArgumentView::Id { id }),
            None => Err(ErrorKind::ValidationError),
        },
        ArgumentKind::Secret => match hashed {
            Some(Ok(stored)) => Ok(ArgumentView::Text { text: stored }),
            _ => Err(ErrorKind::InternalError),
        },
    }
}

/// The operation that `command` runs with the arguments `arguments`. The
/// commands that run none are `help`, `quit` and the unimplemented ones.
pub open spec fn request_of(command: Command, arguments: Seq<ArgumentView>) -> Option<
    RequestView,
> {
    match command {
        Command::Record(Domain::Users, Operation::Get) => Some(RequestView::ListUsers),
        Command::Record(Domain::Messages, Operation::Get) => Some(RequestView::ListMessages),
        Command::Record(Domain::Rooms, Operation::Get) => Some(RequestView::ListRooms),
        Command::Record(Domain::Users, Operation::Insert) => Some(
            RequestView::InsertUser { name: arguments[0]->text, pass_hash: arguments[1]->text },
        ),
        Command::Record(Domain::Messages, Operation::Insert) => Some(
            RequestView::InsertMessage { content: arguments[0]->text },
        ),
        Command::Record(Domain::Rooms, Operation::Insert) => Some(
            RequestView::InsertRoom { name: arguments[0]->text },
        ),
        Command::Record(Domain::Users, Operation::Delete) => Some(
            RequestView::DeleteUser { id: arguments[0]->id },
        ),
        Command::Record(Domain::Messages, Operation::Delete) => Some(
            RequestView::DeleteMessage { id: arguments[0]->id },
        ),
        Command::Record(Domain::Rooms, Operation::Delete) => Some(
            RequestView::DeleteRoom { id: arguments[0]->id },
        ),
        Command::AttachUserToRoom => Some(
            RequestView::AppendRoomToUser {
                user_id: arguments[0]->id,
                room_id: arguments[1]->id,
            },
        ),
        _ => None,
    }
}

/// The step from `Idle` on a line other than `quit`. An unknown keyword
/// changes nothing and is not answered. `help` is answered with the listing.
/// An unimplemented command is answered with an error. A command without
/// arguments is announced and runs at once. Any other command is announced,
/// its first argument is prompted for, and the session waits for it.
pub open spec fn idle_step(line: Seq<char>) -> (StateView, TurnView) {
    match routed(line) {
        None => (StateView::Idle, silent()),
        Some(Command::Quit) => (StateView::Closed, silent()),
        Some(Command::Help) => (StateView::Idle, saying(seq![help_text()])),
        Some(command) => if unimplemented(command) {
            (StateView::Idle, saying(seq![error_text(ErrorKind::NotImplemented)]))
        } else if arity_of(command) == 0 {
            (
                StateView::Idle,
                TurnView {
                    replies: seq![announcement_of(command)],
                    request: request_of(command, Seq::empty()),
                },
            )
        } else {
            (
                StateView::AwaitingArgument { command, collected: Seq::empty() },
                saying(seq![announcement_of(command), prompt_of(command, 0)]),
            )
        },
    }
}

/// The step on a line other than `quit` while `command` waits for its next
/// argument. A line that is no argument of the expected kind is answered with
/// an error and the command is dropped. Otherwise the argument is kept: with
/// the last one the command runs and the session is idle again; before that
/// the next argument is prompted for.
pub open spec fn argument_step(
    command: Command,
    collected: Seq<ArgumentView>,
    line: Seq<char>,
    hashed: Option<Result<Seq<char>, ErrorKind>>,
) -> (StateView, TurnView) {
    match read_argument(kind_of(command, collected.len()), line, hashed) {
        Err(kind) => (StateView::Idle, saying(seq![error_text(kind)])),
        Ok(argument) => {
            let all = collected.push(argument);
            if all.len() >= arity_of(command) {
                (
                    StateView::Idle,
                    TurnView { replies: Seq::empty(), request: request_of(command, all) },
                )
            } else {
                (
                    StateView::AwaitingArgument { command, collected: all },
                    saying(seq![prompt_of(command, all.len())]),
                )
            }
        },
    }
}

/// One step of the protocol: the state after `incoming` and what to do about
/// it. `hashed` is the outcome of hashing the line, which only the step that
/// receives a secret looks at. A closed session stays closed and silent. The
/// close signal and the line `quit` close the session from any other state and
/// drop what was collected. Frames that are neither text nor a close change
/// nothing.
pub open spec fn step(
    state: StateView,
    incoming: Incoming,
    hashed: Option<Result<Seq<char>, ErrorKind>>,
) -> (StateView, TurnView) {
    match state {
        StateView::Closed => (StateView::Closed, silent()),
        StateView::Idle => match incoming {
            Incoming::Close => (StateView::Closed, silent()),
            Incoming::Other => (state, silent()),
            Incoming::Text(line) => if line@ == "quit"@ {
                (StateView::Closed, silent())
            } else {
                idle_step(line@)
            },
        },
        StateView::AwaitingArgument { command, collected } => match incoming {
            Incoming::Close => (StateView::Closed, silent()),
            Incoming::Other => (state, silent()),
            Incoming::Text(line) => if line@ == "quit"@ {
                (StateView::Closed, silent())
            } else {
                argument_step(command, collected, line@, hashed)
            },
        },
    }
}

/// The line that `incoming` carries; the empty text where it carries none.
pub open spec fn line_of(incoming: Incoming) -> Seq<char> {
    match incoming {
        Incoming::Text(line) => line@,
        _ => Seq::empty(),
    }
}

/// Whether the step from `state` on `incoming` receives a secret, so that the
/// line has to be hashed before the step is taken.
pub open spec fn wants_hash(state: StateView, incoming: Incoming) -> bool {
    &&& state matches StateView::AwaitingArgument { command, collected }
    &&& kind_of(command, collected.len()) == ArgumentKind::Secret
    &&& incoming matches Incoming::Text(line)
    &&& line@ != "quit"@
}

/// A turn that sends `lines` and runs nothing.
fn say(lines: Vec<String>) -> (turn: Turn)
    ensures
        turn@ == saying(lines@.map_values(|line: String| line@)),
{
    Turn { replies: lines, request: None }
}

/// A turn that sends nothing and runs nothing.
fn nothing() -> (turn: Turn)
    ensures
        turn@ == silent(),
{
    let turn = Turn { replies: Vec::new(), request: None };
    assert(turn@.replies =~= Seq::<Seq<char>>::empty());
    turn
}

/// A turn that sends the one line `line`.
fn say_one(line: String) -> (turn: Turn)
    ensures
        turn@ == saying(seq![line@]),
{
    let mut lines: Vec<String> = Vec::new();
    lines.push(line);
    assert(lines@.map_values(|line: String| line@) =~= seq![line@]);
    say(lines)
}

/// Takes the text out of an argument that is known to be text.
fn into_text(argument: Argument) -> (text: String)
    requires
        argument@ is Text,
    ensures
        text@ == argument@->text,
{
    match argument {
        Argument::Text { text } => text,
        Argument::Id { .. } => String::new(),
    }
}

/// Takes the identifier out of an argument that is known to be one.
fn into_id(argument: Argument) -> (id: i32)
    requires
        argument@ is Id,
    ensures
        id == argument@->id,
{
    match argument {
        Argument::Id { id } => id,
        Argument::Text { .. } => 0,
    }
}

/// The operation that `command` runs with its full list of arguments.
fn build_request(command: Command, arguments: Vec<Argument>) -> (request: Option<StoreRequest>)
    requires
        arguments@.len() == arity_of(command),
        typed(command, views(arguments@)),
    ensures
        match request {
            Some(r) => request_of(command, views(arguments@)) == Some(r@),
            None => request_of(command, views(arguments@)) is None,
        },
{
    let mut arguments = arguments;
    let ghost all = views(arguments@);
    match command {
        Command::Record(Domain::Users, Operation::Get) => Some(StoreRequest::ListUsers),
        Command::Record(Domain::Messages, Operation::Get) => Some(StoreRequest::ListMessages),
        Command::Record(Domain::Rooms, Operation::Get) => Some(StoreRequest::ListRooms),
        Command::Record(Domain::Users, Operation::Insert) => {
            assert(fits(all[0], kind_of(command, 0)) && fits(all[1], kind_of(command, 1)));
            let second = arguments.remove(1);
            let first = arguments.remove(0);
            Some(StoreRequest::InsertUser { name: into_text(first), pass_hash: into_text(second) })
        },
        Command::Record(Domain::Messages, Operation::Insert) => {
            assert(fits(all[0], kind_of(command, 0)));
            let first = arguments.remove(0);
            Some(StoreRequest::InsertMessage { content: into_text(first) })
        },
        Command::Record(Domain::Rooms, Operation::Insert) => {
            assert(fits(all[0], kind_of(command, 0)));
            let first = arguments.remove(0);
            Some(StoreRequest::InsertRoom { name: into_text(first) })
        },
        Command::Record(Domain::Users, Operation::Delete) => {
            assert(fits(all[0], kind_of(command, 0)));
            let first = arguments.remove(0);
            Some(StoreRequest::DeleteUser { id: into_id(first) })
        },
        Command::Record(Domain::Messages, Operation::Delete) => {
            assert(fits(all[0], kind_of(command, 0)));
            let first = arguments.remove(0);
            Some(StoreRequest::DeleteMessage { id: into_id(first) })
        },
        Command::Record(Domain::Rooms, Operation::Delete) => {
            assert(fits(all[0], kind_of(command, 0)));
            let first = arguments.remove(0);
            Some(StoreRequest::DeleteRoom { id: into_id(first) })
        },
        Command::AttachUserToRoom => {
            assert(fits(all[0], kind_of(command, 0)) && fits(all[1], kind_of(command, 1)));
            let second = arguments.remove(1);
            let first = arguments.remove(0);
            Some(
                StoreRequest::AppendRoomToUser {
                    user_id: into_id(first),
                    room_id: into_id(second),
                },
            )
        },
        _ => None,
    }
}

/// Reads a received line as an argument of kind `kind`.
fn parse_argument(
    kind: ArgumentKind,
    line: String,
    hashed: Option<Result<String, ErrorKind>>,
) -> (argument: Result<Argument, ErrorKind>)
    ensures
        match argument {
            Ok(a) => read_argument(kind, line@, hash_view(hashed)) == Ok::<
                ArgumentView,
                ErrorKind,
            >(a@),
            Err(e) => read_argument(kind, line@, hash_view(hashed)) == Err::<
                ArgumentView,
                ErrorKind,
            >(e),
        },
{
    match kind {
        ArgumentKind::Text => Ok(Argument::Text { text: line }),
        ArgumentKind::Id => match parse_id(line.as_str()) {
            Some(id) => Ok(Argument::Id { id }),
            None => Err(ErrorKind::ValidationError),
        },
        ArgumentKind::Secret => match hashed {
            Some(Ok(stored)) => Ok(Argument::Text { text: stored }),
            _ => Err(ErrorKind::InternalError),
        },
    }
}

/// The step from `Idle` on a line other than `quit`.
fn idle(line: &str) -> (result: (SessionState, Turn))
    ensures
        (result.0@, result.1@) == idle_step(line@),
        well_formed(result.0@),
{
    match route(line) {
        None => (SessionState::Idle, nothing()),
        Some(Command::Quit) => (SessionState::Closed, nothing()),
        Some(Command::Help) => (SessionState::Idle, say_one(String::from_str(help()))),
        Some(command) => {
            if is_unimplemented(command) {
                (SessionState::Idle, say_one(error_reply(ErrorKind::NotImplemented)))
            } else if arity(command) == 0 {
                let mut lines: Vec<String> = Vec::new();
                lines.push(String::from_str(announcement(command)));
                assert(lines@.map_values(|line: String| line@) =~= seq![announcement_of(command)]);
                let arguments: Vec<Argument> = Vec::new();
                assert(views(arguments@) =~= Seq::<ArgumentView>::empty());
                let request = build_request(command, arguments);
                (SessionState::Idle, Turn { replies: lines, request })
            } else {
                let mut lines: Vec<String> = Vec::new();
                lines.push(String::from_str(announcement(command)));
                lines.push(String::from_str(prompt(command, 0)));
                assert(lines@.map_values(|line: String| line@) =~= seq![
                    announcement_of(command),
                    prompt_of(command, 0),
                ]);
                let collected: Vec<Argument> = Vec::new();
                assert(views(collected@) =~= Seq::<ArgumentView>::empty());
                (SessionState::AwaitingArgument { command, collected }, say(lines))
            }
        },
    }
}

/// The step on a line other than `quit` while `command` waits for an argument.
fn collect(
    command: Command,
    collected: Vec<Argument>,
    line: String,
    hashed: Option<Result<String, ErrorKind>>,
) -> (result: (SessionState, Turn))
    requires
        collected@.len() < arity_of(command),
        typed(command, views(collected@)),
    ensures
        (result.0@, result.1@) == argument_step(
            command,
            views(collected@),
            line@,
            hash_view(hashed),
        ),
        well_formed(result.0@),
{
    let mut collected = collected;
    let ghost before = views(collected@);
    let kind = argument_kind(command, collected.len());
    match parse_argument(kind, line, hashed) {
        Err(kind) => (SessionState::Idle, say_one(error_reply(kind))),
        Ok(argument) => {
            collected.push(argument);
            proof {
                assert(views(collected@) =~= before.push(argument@));
                assert forall|i: int| 0 <= i < views(collected@).len() implies fits(
                    #[trigger] views(collected@)[i],
                    kind_of(command, i as nat),
                ) by {
                    if i < before.len() {
                        assert(views(collected@)[i] == before[i]);
                    }
                }
            }
            if collected.len() >= arity(command) {
                let request = build_request(command, collected);
                let turn = Turn { replies: Vec::new(), request };
                assert(turn@.replies =~= Seq::<Seq<char>>::empty());
                (SessionState::Idle, turn)
            } else {
                let next = prompt(command, collected.len());
                (
                    SessionState::AwaitingArgument { command, collected },
                    say_one(String::from_str(next)),
                )
            }
        },
    }
}

/// One step of the protocol on a state that is handed over and given back.
fn advance_state(
    state: SessionState,
    incoming: Incoming,
    hashed: Option<Result<String, ErrorKind>>,
) -> (result: (SessionState, Turn))
    requires
        well_formed(state@),
    ensures
        (result.0@, result.1@) == step(state@, incoming, hash_view(hashed)),
        well_formed(result.0@),
{
    match state {
        SessionState::Closed => (SessionState::Closed, nothing()),
        SessionState::Idle => match incoming {
            Incoming::Close => (SessionState::Closed, nothing()),
            Incoming::Other => (SessionState::Idle, nothing()),
            Incoming::Text(line) => {
                if str_eq(line.as_str(), "quit") {
                    (SessionState::Closed, nothing())
                } else {
                    idle(line.as_str())
                }
            },
        },
        SessionState::AwaitingArgument { command, collected } => match incoming {
            Incoming::Close => (SessionState::Closed, nothing()),
            Incoming::Other => (SessionState::AwaitingArgument { command, collected }, nothing()),
            Incoming::Text(line) => {
                if str_eq(line.as_str(), "quit") {
                    (SessionState::Closed, nothing())
                } else {
                    collect(command, collected, line, hashed)
                }
            },
        },
    }
}

/// The protocol state of one connection. It starts idle, changes only by the
/// steps below, and is dropped with the connection.
pub struct Session {
    state: SessionState,
}

impl View for Session {
    type V = StateView;

    closed spec fn view(&self) -> StateView {
        self.state@
    }
}

impl Session {
    #[verifier::type_invariant]
    spec fn holds(self) -> bool {
        well_formed(self.state@)
    }

    /// A session that waits for its first command.
    pub fn new() -> (session: Session)
        ensures
            session@ == StateView::Idle,
    {
        Session { state: SessionState::Idle }
    }

    /// Where the session stands.
    pub fn state(&self) -> (state: &SessionState)
        ensures
            state@ == self@,
            well_formed(self@),
    {
        proof {
            use_type_invariant(self);
        }
        &self.state
    }

    /// Whether the session is over, so that the connection can be let go.
    pub fn is_closed(&self) -> (closed: bool)
        ensures
            closed == (self@ is Closed),
    {
        match self.state {
            SessionState::Closed => true,
            _ => false,
        }
    }

    /// How many arguments the session still waits for.
    pub fn remaining(&self) -> (count: usize)
        ensures
            count == remaining_of(self@),
            (self@ is AwaitingArgument) <==> count > 0,
    {
        proof {
            use_type_invariant(self);
        }
        match &self.state {
            SessionState::AwaitingArgument { command, collected } => arity(*command)
                - collected.len(),
            _ => 0,
        }
    }

    /// Whether the step on `incoming` receives a secret, which `advance` then
    /// expects hashed.
    pub fn needs_hash(&self, incoming: &Incoming) -> (needed: bool)
        ensures
            needed == wants_hash(self@, *incoming),
    {
        match &self.state {
            SessionState::AwaitingArgument { command, collected } => {
                match argument_kind(*command, collected.len()) {
                    ArgumentKind::Secret => match incoming {
                        Incoming::Text(line) => !str_eq(line.as_str(), "quit"),
                        _ => false,
                    },
                    _ => false,
                }
            },
            _ => false,
        }
    }

    /// Takes one step of the protocol on `incoming`, given the outcome
    /// `hashed` of hashing the line where the step receives a secret (it is
    /// not looked at otherwise).
    pub fn advance(&mut self, incoming: Incoming, hashed: Option<Result<String, ErrorKind>>) -> (turn:
        Turn)
        ensures
            (final(self)@, turn@) == step(old(self)@, incoming, hash_view(hashed)),
            well_formed(old(self)@),
            well_formed(final(self)@),
    {
        proof {
            use_type_invariant(&*self);
        }
        let mut current = SessionState::Idle;
        core::mem::swap(&mut self.state, &mut current);
        let (next, turn) = advance_state(current, incoming, hashed);
        self.state = next;
        turn
    }

    /// Takes one step of the protocol on the frame `incoming`: the body of the
    /// connection's receive loop. A secret is hashed on the way, under a fresh
    /// salt of 22 characters, and the step is that of `advance` for what the
    /// hasher makes of the line and the salt; any other step is fully
    /// determined. A hash that is handed to the store matches the line that
    /// was received.
    pub fn handle_socket(&mut self, incoming: Incoming) -> (turn: Turn)
        ensures
            well_formed(old(self)@),
            well_formed(final(self)@),
            !wants_hash(old(self)@, incoming) ==> (final(self)@, turn@) == step(
                old(self)@,
                incoming,
                None,
            ),
            wants_hash(old(self)@, incoming) ==> exists|salt: Seq<char>|
                {
                    &&& fresh_shaped(salt)
                    &&& (final(self)@, turn@) == step(
                        old(self)@,
                        incoming,
                        Some(hashing_of(#[trigger] argon2_phc(line_of(incoming), salt))),
                    )
                    &&& hashing_of(argon2_phc(line_of(incoming), salt)) matches Ok(stored)
                        ==> check_of(line_of(incoming), stored) == PasswordCheck::Match
                },
    {
        if self.needs_hash(&incoming) {
            let hashed = match &incoming {
                Incoming::Text(line) => hash_password(line.as_str()),
                _ => Err(ErrorKind::InternalError),
            };
            let ghost salt = choose|salt: Seq<char>|
                fresh_shaped(salt) && text_of(hashed) == hashing_of(
                    #[trigger] argon2_phc(line_of(incoming), salt),
                );
            let turn = self.advance(incoming, Some(hashed));
            assert(fresh_shaped(salt) && (self@, turn@) == step(
                old(self)@,
                incoming,
                Some(hashing_of(argon2_phc(line_of(incoming), salt))),
            ));
            turn
        } else {
            let turn = self.advance(incoming, None);
            turn
        }
    }
}

/// Every step keeps the invariant of the session.
pub proof fn lemma_step_keeps_well_formed(
    state: StateView,
    incoming: Incoming,
    hashed: Option<Result<Seq<char>, ErrorKind>>,
)
    requires
        well_formed(state),
    ensures
        well_formed(step(state, incoming, hashed).0),
{
    if let StateView::AwaitingArgument { command, collected } = state {
        if let Incoming::Text(line) = incoming {
            let kind = kind_of(command, collected.len());
            if let Ok(argument) = read_argument(kind, line@, hashed) {
                let all = collected.push(argument);
                assert forall|i: int| 0 <= i < all.len() implies fits(
                    #[trigger] all[i],
                    kind_of(command, i as nat),
                ) by {
                    if i < collected.len() {
                        assert(all[i] == collected[i]);
                    }
                }
            }
        }
    }
}

/// A closed session is over for good: no frame reopens it or draws a reply.
pub proof fn lemma_closed_is_final(
    incoming: Incoming,
    hashed: Option<Result<Seq<char>, ErrorKind>>,
)
    ensures
        step(StateView::Closed, incoming, hashed) == (StateView::Closed, silent()),
{
}

/// Only the line `quit` and the close signal end a session. No other frame
/// does, whatever it holds and whatever came of it: a malformed argument, an
/// unimplemented command and a failed hash all leave the session open.
pub proof fn lemma_only_quit_or_close_ends(
    state: StateView,
    incoming: Incoming,
    hashed: Option<Result<Seq<char>, ErrorKind>>,
)
    requires
        !(state is Closed),
    ensures
        step(state, incoming, hashed).0 is Closed <==> (incoming is Close || (
        incoming matches Incoming::Text(line) && line@ == "quit"@)),
        step(state, incoming, hashed).0 is Closed ==> step(state, incoming, hashed).1 == silent(),
{
    if let Incoming::Text(line) = incoming {
        crate::command::lemma_route_matches_keyword(line@, Command::Quit);
    }
}

/// An unrecognised keyword sent to an idle session draws no reply and leaves
/// the session idle, so the next frame is handled as if the keyword had never
/// been sent.
pub proof fn lemma_unknown_keyword_is_ignored(
    line: String,
    hashed: Option<Result<Seq<char>, ErrorKind>>,
    next: Incoming,
    next_hashed: Option<Result<Seq<char>, ErrorKind>>,
)
    requires
        routed(line@) is None,
    ensures
        step(StateView::Idle, Incoming::Text(line), hashed) == (StateView::Idle, silent()),
        step(step(StateView::Idle, Incoming::Text(line), hashed).0, next, next_hashed) == step(
            StateView::Idle,
            next,
            next_hashed,
        ),
{
}

/// A line that is no numeral, received where an identifier is expected, is
/// answered with a validation error; the command is dropped, and the session
/// is idle and open for the next command.
pub proof fn lemma_malformed_id_is_reported(
    command: Command,
    collected: Seq<ArgumentView>,
    line: String,
    hashed: Option<Result<Seq<char>, ErrorKind>>,
)
    requires
        kind_of(command, collected.len()) == ArgumentKind::Id,
        id_of(line@) is None,
        line@ != "quit"@,
    ensures
        step(StateView::AwaitingArgument { command, collected }, Incoming::Text(line), hashed) == (
            StateView::Idle,
            saying(seq![error_text(ErrorKind::ValidationError)]),
        ),
{
}

/// `help` is answered with the listing of commands and changes nothing.
pub proof fn lemma_help_changes_nothing(line: String)
    requires
        line@ == "help"@,
    ensures
        step(StateView::Idle, Incoming::Text(line), None) == (
            StateView::Idle,
            saying(seq![help_text()]),
        ),
{
    crate::command::lemma_route_matches_keyword(line@, Command::Help);
    crate::command::lemma_route_matches_keyword(line@, Command::Quit);
    crate::command::lemma_route_matches_keyword("quit"@, Command::Quit);
}

/// A listing runs at once: sent to an idle session, its keyword is announced,
/// the listing of its domain is handed to the store in the same step, and the
/// session is idle again.
pub proof fn lemma_listing_runs_at_once(domain: Domain, line: String)
    requires
        line@ == crate::command::keyword_of(Command::Record(domain, Operation::Get)),
    ensures
        step(StateView::Idle, Incoming::Text(line), None) == (
            StateView::Idle,
            TurnView {
                replies: seq![announcement_of(Command::Record(domain, Operation::Get))],
                request: Some(
                    match domain {
                        Domain::Users => RequestView::ListUsers,
                        Domain::Messages => RequestView::ListMessages,
                        Domain::Rooms => RequestView::ListRooms,
                    },
                ),
            },
        ),
{
    let command = Command::Record(domain, Operation::Get);
    crate::command::lemma_route_matches_keyword(line@, command);
    crate::command::lemma_route_matches_keyword(line@, Command::Quit);
    crate::command::lemma_route_matches_keyword("quit"@, Command::Quit);
}

/// A command that takes arguments collects them before it runs: sent to an
/// idle session, its keyword is announced and answered with the prompt for
/// the first argument; nothing is handed to the store, and the session waits
/// for as many arguments as the command takes.
pub proof fn lemma_command_prompts_first(command: Command, line: String)
    requires
        line@ == crate::command::keyword_of(command),
        arity_of(command) > 0,
    ensures
        step(StateView::Idle, Incoming::Text(line), None) == (
            StateView::AwaitingArgument { command, collected: Seq::empty() },
            saying(seq![announcement_of(command), prompt_of(command, 0)]),
        ),
        remaining_of(step(StateView::Idle, Incoming::Text(line), None).0) == arity_of(command),
{
    crate::command::lemma_route_matches_keyword(line@, command);
    crate::command::lemma_route_matches_keyword(line@, Command::Quit);
    crate::command::lemma_route_matches_keyword("quit"@, Command::Quit);
}

/// A command that deletes a record asks for an identifier first: sent to an
/// idle session, its keyword is announced and answered with the prompt, and
/// the session waits for the identifier.
pub proof fn lemma_delete_asks_for_id(domain: Domain, line: String)
    requires
        line@ == crate::command::keyword_of(Command::Record(domain, Operation::Delete)),
    ensures
        step(StateView::Idle, Incoming::Text(line), None) == (
            StateView::AwaitingArgument {
                command: Command::Record(domain, Operation::Delete),
                collected: Seq::empty(),
            },
            saying(
                seq![announcement_of(Command::Record(domain, Operation::Delete)), "ID: "@],
            ),
        ),
        kind_of(Command::Record(domain, Operation::Delete), 0) == ArgumentKind::Id,
{
    let command = Command::Record(domain, Operation::Delete);
    crate::command::lemma_route_matches_keyword(line@, command);
    crate::command::lemma_route_matches_keyword(line@, Command::Quit);
    crate::command::lemma_route_matches_keyword("quit"@, Command::Quit);
}

/// The commands that edit a record are recognised and answered with a
/// not-implemented error; the session stays idle.
pub proof fn lemma_edit_is_not_implemented(domain: Domain, line: String)
    requires
        line@ == crate::command::keyword_of(Command::Record(domain, Operation::Edit)),
    ensures
        step(StateView::Idle, Incoming::Text(line), None) == (
            StateView::Idle,
            saying(seq![error_text(ErrorKind::NotImplemented)]),
        ),
{
    let command = Command::Record(domain, Operation::Edit);
    crate::command::lemma_route_matches_keyword(line@, command);
    crate::command::lemma_route_matches_keyword(line@, Command::Quit);
    crate::command::lemma_route_matches_keyword("quit"@, Command::Quit);
}

/// With its last argument a command runs exactly one operation, built from
/// all its arguments, and the session is idle again; before that it runs none
/// and prompts for the next argument.
pub proof fn lemma_command_runs_when_complete(
    command: Command,
    collected: Seq<ArgumentView>,
    line: String,
    hashed: Option<Result<Seq<char>, ErrorKind>>,
)
    requires
        well_formed(StateView::AwaitingArgument { command, collected }),
        line@ != "quit"@,
        read_argument(kind_of(command, collected.len()), line@, hashed) is Ok,
    ensures
        ({
            let argument = read_argument(kind_of(command, collected.len()), line@, hashed)->Ok_0;
            let after = step(
                StateView::AwaitingArgument { command, collected },
                Incoming::Text(line),
                hashed,
            );
            if collected.len() + 1 == arity_of(command) {
                &&& after.0 == StateView::Idle
                &&& after.1.replies == Seq::<Seq<char>>::empty()
                &&& after.1.request == request_of(command, collected.push(argument))
                &&& after.1.request is Some
            } else {
                &&& after.0 == StateView::AwaitingArgument {
                    command,
                    collected: collected.push(argument),
                }
                &&& after.1 == saying(seq![prompt_of(command, collected.len() + 1)])
            }
        }),
{
}

/// Creating a room asks the store for exactly the room that was named: the
/// line that follows `insert_room` becomes, unchanged, the name in the one
/// insert that the step hands over.
pub proof fn lemma_insert_room_keeps_the_name(line: String)
    requires
        line@ != "quit"@,
    ensures
        step(
            StateView::AwaitingArgument {
                command: Command::Record(Domain::Rooms, Operation::Insert),
                collected: Seq::empty(),
            },
            Incoming::Text(line),
            None,
        ) == (
            StateView::Idle,
            TurnView {
                replies: Seq::empty(),
                request: Some(RequestView::InsertRoom { name: line@ }),
            },
        ),
{
}

/// Every argument that is accepted brings the command one step nearer to
/// running: the count of arguments still awaited falls by one.
pub proof fn lemma_argument_counts_down(
    command: Command,
    collected: Seq<ArgumentView>,
    line: String,
    hashed: Option<Result<Seq<char>, ErrorKind>>,
)
    requires
        well_formed(StateView::AwaitingArgument { command, collected }),
        line@ != "quit"@,
        read_argument(kind_of(command, collected.len()), line@, hashed) is Ok,
    ensures
        remaining_of(
            step(StateView::AwaitingArgument { command, collected }, Incoming::Text(line), hashed).0,
        ) + 1 == remaining_of(StateView::AwaitingArgument { command, collected }),
{
}

/// Attaching a user to a room is one operation of the store: the step that
/// receives the room's identifier hands over a single append of that room to
/// that user. The core reads no room list and writes none back, so two
/// sessions that attach rooms to one user cannot overwrite each other.
pub proof fn lemma_attach_is_one_append(user_id: i32, line: String, room_id: i32)
    requires
        id_of(line@) == Some(room_id),
    ensures
        step(
            StateView::AwaitingArgument {
                command: Command::AttachUserToRoom,
                collected: seq![ArgumentView::Id { id: user_id }],
            },
            Incoming::Text(line),
            None,
        ) == (
            StateView::Idle,
            TurnView {
                replies: Seq::empty(),
                request: Some(RequestView::AppendRoomToUser { user_id, room_id }),
            },
        ),
{
    reveal_strlit("quit");
    assert(!crate::text::is_digit("quit"@[0]));
    let collected = seq![ArgumentView::Id { id: user_id }];
    assert(collected.push(ArgumentView::Id { id: room_id })[0] == ArgumentView::Id {
        id: user_id,
    });
}

} // verus!
