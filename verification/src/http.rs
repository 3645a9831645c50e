//! The decisions of the account endpoints: sign up, log in, and look a user
//! up. Each endpoint is a short exchange with the persistence adapter. The
//! functions here say which operation to run next and what to answer once the
//! adapter has answered; the caller runs the operations and sends the answer.
//! Every answer carries its status: `CREATED` for a successful sign-up, `OK`
//! for a successful log-in or look-up, and the status of its kind for a
//! failure.

use vstd::prelude::*;
use crate::credentials::{
    argon2_phc, check_of, fresh_shaped, hash_password, hashing_of, verify_password,
    PasswordCheck,
};
use crate::error::{status_code, status_of, ApiError, ErrorKind};
use crate::jwt::{
    claim_times, generate_token_at, signed_token, token_at, unix_now, ACCESS_HORIZON,
    REFRESH_HORIZON,
};
use crate::store::{RequestView, StoreOutcome, StoreRequest};
use crate::text::{id_of, parse_id, str_eq};
use crate::user_struct::{public_record, CreateUser, User, UserPublicInfo};

verus! {

/// The status of a successful sign-up.
pub const CREATED: u16 = 201;

/// The status of a successful log-in or look-up.
pub const OK: u16 = 200;

/// The pair of tokens issued to a user on sign-up and on log-in.
#[derive(Clone, Debug, PartialEq, Eq)]
pub struct Token {
    pub user_id: i32,
    pub refresh_token: String,
    pub access_token: String,
}

/// What an endpoint answers: the status of the response and, with it, the
/// body or the failure.
#[derive(Debug, PartialEq, Eq)]
pub struct Answer<T> {
    pub status: u16,
    pub outcome: Result<T, ApiError>,
}

/// A failure as plain values: its kind and its message.
pub type Failure = (ErrorKind, Seq<char>);

/// A token pair as plain values: the user, the refresh token, the access token.
pub type Pair = (i32, Seq<char>, Seq<char>);

/// An answer that carries tokens, as plain values.
pub open spec fn tokens_of(result: Result<Token, ApiError>) -> Result<Pair, Failure> {
    match result {
        Ok(token) => Ok((token.user_id, token.refresh_token@, token.access_token@)),
        Err(error) => Err((error.kind, error.message@)),
    }
}

/// An answer that names the next operation, as plain values.
pub open spec fn operation_of(result: Result<StoreRequest, ApiError>) -> Result<
    RequestView,
    Failure,
> {
    match result {
        Ok(request) => Ok(request@),
        Err(error) => Err((error.kind, error.message@)),
    }
}

/// An answer that carries a public record, as plain values.
pub open spec fn record_of(result: Result<UserPublicInfo, ApiError>) -> Result<
    (i32, Seq<char>, i64),
    Failure,
> {
    match result {
        Ok(info) => Ok(info.record()),
        Err(error) => Err((error.kind, error.message@)),
    }
}

/// An answer without a body, as plain values.
pub open spec fn verdict_of(result: Result<(), ApiError>) -> Result<(), Failure> {
    match result {
        Ok(_) => Ok(()),
        Err(error) => Err((error.kind, error.message@)),
    }
}

/// The status of an answer: `success` where the endpoint succeeded, and the
/// status of the failure's kind where it did not.
pub open spec fn status_after<A>(success: u16, outcome: Result<A, Failure>) -> u16 {
    match outcome {
        Ok(_) => success,
        Err(failure) => status_of(failure.0),
    }
}

impl<T> Answer<T> {
    /// The answer to a request that succeeded with `body`, under the status
    /// `success` of its endpoint.
    pub fn succeeded(success: u16, body: T) -> (answer: Answer<T>)
        ensures
            answer.status == success,
            answer.outcome == Ok::<T, ApiError>(body),
    {
        Answer { status: success, outcome: Ok(body) }
    }

    /// The answer to a request that failed with `error`: the failure under
    /// the status of its kind.
    pub fn failed(error: ApiError) -> (answer: Answer<T>)
        ensures
            answer.status == status_of(error.kind),
            answer.outcome == Err::<T, ApiError>(error),
    {
        Answer { status: status_code(error.kind), outcome: Err(error) }
    }

    /// The answer that carries `outcome`, under the status `success` where it
    /// is a success.
    pub fn of(success: u16, outcome: Result<T, ApiError>) -> (answer: Answer<T>)
        ensures
            answer.outcome == outcome,
            answer.status == match outcome {
                Ok(_) => success,
                Err(error) => status_of(error.kind),
            },
    {
        match outcome {
            Ok(body) => Answer::succeeded(success, body),
            Err(error) => Answer::failed(error),
        }
    }
}

/// The pair made of two issued tokens. If either could not be issued, the
/// answer is an internal error.
pub open spec fn paired(
    user_id: i32,
    refresh: Result<Seq<char>, ErrorKind>,
    access: Result<Seq<char>, ErrorKind>,
) -> Result<Pair, Failure> {
    match (refresh, access) {
        (Ok(refresh_token), Ok(access_token)) => Ok((user_id, refresh_token, access_token)),
        _ => Err((ErrorKind::InternalError, "Token generation failed"@)),
    }
}

/// The pair issued to `name` at the time `now`: a refresh token that lives
/// 182 days and an access token that lives 30 minutes, both issued at `now`.
pub open spec fn pair_at(user_id: i32, name: Seq<char>, secret: Seq<char>, now: int) -> Result<
    Pair,
    Failure,
> {
    paired(
        user_id,
        token_at(now, REFRESH_HORIZON as int, name, secret),
        token_at(now, ACCESS_HORIZON as int, name, secret),
    )
}

/// Makes the pair of two issued tokens.
pub fn pair_tokens(
    user_id: i32,
    refresh: Result<String, ErrorKind>,
    access: Result<String, ErrorKind>,
) -> (result: Result<Token, ApiError>)
    ensures
        tokens_of(result) == paired(
            user_id,
            crate::error::text_of(refresh),
            crate::error::text_of(access),
        ),
{
    match (refresh, access) {
        (Ok(refresh_token), Ok(access_token)) => Ok(Token { user_id, refresh_token, access_token }),
        _ => Err(ApiError::new(ErrorKind::InternalError, "Token generation failed")),
    }
}

/// Issues the pair for `name` as of the time `now`.
pub fn issue_token_pair_at(user_id: i32, name: &str, secret: &str, now: i64) -> (result: Result<
    Token,
    ApiError,
>)
    ensures
        tokens_of(result) == pair_at(user_id, name@, secret@, now as int),
{
    let refresh = generate_token_at(now, name, secret, REFRESH_HORIZON);
    let access = generate_token_at(now, name, secret, ACCESS_HORIZON);
    pair_tokens(user_id, refresh, access)
}

/// Issues the pair for `name` as of now: the pair of `issue_token_pair_at`
/// for the present reading of the clock, which is a time at or after the
/// epoch.
pub fn issue_token_pair(user_id: i32, name: &str, secret: &str) -> (result: Result<Token, ApiError>)
    ensures
        exists|now: i64|
            now >= 0 && tokens_of(result) == #[trigger] pair_at(
                user_id,
                name@,
                secret@,
                now as int,
            ),
{
    let now = unix_now();
    let result = issue_token_pair_at(user_id, name, secret, now);
    assert(now >= 0 && tokens_of(result) == pair_at(user_id, name@, secret@, now as int));
    result
}

/// Whether a look-up by name shows that `name` is taken.
pub open spec fn name_taken(name: Seq<char>, lookup: StoreOutcome) -> bool {
    lookup matches StoreOutcome::Found(user) && user.name@ == name
}

/// Whether sign-up may go on after the look-up of the name: not where the
/// name is taken, and not where the store failed.
pub open spec fn admitted(name: Seq<char>, lookup: StoreOutcome) -> Result<(), Failure> {
    match lookup {
        StoreOutcome::Found(user) => if user.name@ == name {
            Err((ErrorKind::Conflict, "Same name"@))
        } else {
            Ok(())
        },
        StoreOutcome::Missing => Ok(()),
        _ => Err((ErrorKind::InternalError, "db error"@)),
    }
}

/// The insert that sign-up asks for, given the outcome of hashing the password.
pub open spec fn insert_of(name: Seq<char>, hashed: Result<Seq<char>, ErrorKind>) -> Result<
    RequestView,
    Failure,
> {
    match hashed {
        Ok(pass_hash) => Ok(RequestView::InsertUser { name, pass_hash }),
        Err(_) => Err((ErrorKind::InternalError, "Password hashing failed"@)),
    }
}

/// What sign-up answers once the insert has been run, as of the time `now`:
/// the pair for the new user; a conflict where the store found the name taken
/// after all; an internal error for any other answer.
pub open spec fn created_at(
    name: Seq<char>,
    inserted: StoreOutcome,
    secret: Seq<char>,
    now: int,
) -> Result<Pair, Failure> {
    match inserted {
        StoreOutcome::Created(user_id) => pair_at(user_id, name, secret, now),
        StoreOutcome::Duplicate => Err((ErrorKind::Conflict, "Same name"@)),
        _ => Err((ErrorKind::InternalError, "db error"@)),
    }
}

/// The first operation of sign-up and of log-in: the look-up of the name.
pub fn name_lookup(payload: &CreateUser) -> (request: StoreRequest)
    ensures
        request@ == (RequestView::FindUserByName { name: payload.name@ }),
{
    StoreRequest::FindUserByName { name: payload.name.clone() }
}

/// Decides whether sign-up may go on after the look-up of the name.
pub fn signup_admits(payload: &CreateUser, lookup: &StoreOutcome) -> (result: Result<(), ApiError>)
    ensures
        verdict_of(result) == admitted(payload.name@, *lookup),
        result is Err <==> (name_taken(payload.name@, *lookup) || !(lookup is Found
            || lookup is Missing)),
{
    match lookup {
        StoreOutcome::Found(user) => {
            if str_eq(user.name.as_str(), payload.name.as_str()) {
                Err(ApiError::new(ErrorKind::Conflict, "Same name"))
            } else {
                Ok(())
            }
        },
        StoreOutcome::Missing => Ok(()),
        _ => Err(ApiError::new(ErrorKind::InternalError, "db error")),
    }
}

/// Makes the insert of sign-up from the outcome of hashing the password.
pub fn signup_insert(payload: &CreateUser, hashed: Result<String, ErrorKind>) -> (result: Result<
    StoreRequest,
    ApiError,
>)
    ensures
        operation_of(result) == insert_of(payload.name@, crate::error::text_of(hashed)),
{
    match hashed {
        Ok(pass_hash) => Ok(StoreRequest::InsertUser { name: payload.name.clone(), pass_hash }),
        Err(_) => Err(ApiError::new(ErrorKind::InternalError, "Password hashing failed")),
    }
}

/// Sign-up, after the look-up of the name. A name that is taken is a
/// conflict, and then nothing is hashed and no insert is asked for. A failed
/// look-up is an internal error. Otherwise the password is hashed under a
/// fresh salt of 22 characters, and what the hasher makes of the two decides:
/// with a hash, the insert of the new account under that hash is the next
/// operation, and the hash matches the password; without one the answer is an
/// internal error.
pub fn signup_handler(payload: &CreateUser, lookup: &StoreOutcome) -> (result: Result<
    StoreRequest,
    ApiError,
>)
    ensures
        admitted(payload.name@, *lookup) matches Err(failure) ==> operation_of(result) == Err::<
            RequestView,
            Failure,
        >(failure),
        admitted(payload.name@, *lookup) is Ok ==> exists|salt: Seq<char>|
            fresh_shaped(salt) && operation_of(result) == insert_of(
                payload.name@,
                hashing_of(#[trigger] argon2_phc(payload.pass@, salt)),
            ),
        result matches Ok(StoreRequest::InsertUser { pass_hash, .. }) ==> check_of(
            payload.pass@,
            pass_hash@,
        ) == PasswordCheck::Match,
{
    match signup_admits(payload, lookup) {
        Err(error) => Err(error),
        Ok(_) => {
            let hashed = hash_password(payload.pass.as_str());
            let ghost salt = choose|salt: Seq<char>|
                fresh_shaped(salt) && crate::error::text_of(hashed) == hashing_of(
                    #[trigger] argon2_phc(payload.pass@, salt),
                );
            let result = signup_insert(payload, hashed);
            assert(fresh_shaped(salt) && operation_of(result) == insert_of(
                payload.name@,
                hashing_of(argon2_phc(payload.pass@, salt)),
            ));
            result
        },
    }
}

/// Sign-up, after the insert, as of the time `now`: the pair for the new
/// account under the status `CREATED`, or the failure under its own status.
pub fn signup_created_at(
    payload: &CreateUser,
    inserted: &StoreOutcome,
    secret: &str,
    now: i64,
) -> (answer: Answer<Token>)
    ensures
        tokens_of(answer.outcome) == created_at(payload.name@, *inserted, secret@, now as int),
        answer.status == status_after(
            CREATED,
            created_at(payload.name@, *inserted, secret@, now as int),
        ),
{
    match inserted {
        StoreOutcome::Created(user_id) => Answer::of(
            CREATED,
            issue_token_pair_at(*user_id, payload.name.as_str(), secret, now),
        ),
        StoreOutcome::Duplicate => Answer::failed(ApiError::new(ErrorKind::Conflict, "Same name")),
        _ => Answer::failed(ApiError::new(ErrorKind::InternalError, "db error")),
    }
}

/// Sign-up, after the insert: the answer of `signup_created_at` for the
/// present reading of the clock, which is a time at or after the epoch.
pub fn signup_created(payload: &CreateUser, inserted: &StoreOutcome, secret: &str) -> (answer:
    Answer<Token>)
    ensures
        exists|now: i64|
            {
                &&& now >= 0
                &&& tokens_of(answer.outcome) == #[trigger] created_at(
                    payload.name@,
                    *inserted,
                    secret@,
                    now as int,
                )
                &&& answer.status == status_after(
                    CREATED,
                    created_at(payload.name@, *inserted, secret@, now as int),
                )
            },
{
    let now = unix_now();
    let answer = signup_created_at(payload, inserted, secret, now);
    assert(now >= 0 && tokens_of(answer.outcome) == created_at(
        payload.name@,
        *inserted,
        secret@,
        now as int,
    ));
    answer
}

/// What a check of the password means for log-in.
pub open spec fn verdict(check: PasswordCheck) -> Result<(), Failure> {
    match check {
        PasswordCheck::Match => Ok(()),
        PasswordCheck::Mismatch => Err((ErrorKind::Unauthorized, "Wrong password"@)),
        PasswordCheck::Malformed => Err((ErrorKind::InternalError, "Invalid stored hash"@)),
    }
}

/// What log-in answers after the look-up of the name, as of the time `now`,
/// given how the password compares with the stored hash (`check` is looked at
/// only where an account was found). No account and a wrong password are both
/// unauthorized; a stored hash that is not well formed and a failure of the
/// store are internal errors; otherwise the answer is the pair for the account.
pub open spec fn login_at(
    name: Seq<char>,
    lookup: StoreOutcome,
    check: PasswordCheck,
    secret: Seq<char>,
    now: int,
) -> Result<Pair, Failure> {
    match lookup {
        StoreOutcome::Found(user) => match verdict(check) {
            Ok(_) => pair_at(user.id, name, secret, now),
            Err(failure) => Err(failure),
        },
        StoreOutcome::Missing => Err((ErrorKind::Unauthorized, "Invalid username"@)),
        _ => Err((ErrorKind::InternalError, "db error"@)),
    }
}

/// How the password of `payload` compares with the hash of the account that
/// `lookup` found, by the verifier's own answers.
pub open spec fn checked(pass: Seq<char>, lookup: StoreOutcome) -> PasswordCheck {
    match lookup {
        StoreOutcome::Found(user) => check_of(pass, user.pass_hash@),
        _ => PasswordCheck::Malformed,
    }
}

/// Turns a check of the password into the verdict of log-in.
pub fn credentials_verdict(check: PasswordCheck) -> (result: Result<(), ApiError>)
    ensures
        verdict_of(result) == verdict(check),
{
    match check {
        PasswordCheck::Match => Ok(()),
        PasswordCheck::Mismatch => Err(ApiError::new(ErrorKind::Unauthorized, "Wrong password")),
        PasswordCheck::Malformed => Err(
            ApiError::new(ErrorKind::InternalError, "Invalid stored hash"),
        ),
    }
}

/// Log-in, after the look-up of the name, as of the time `now`: the pair for
/// the account under the status `OK`, or the failure under its own status.
pub fn login_handler_at(payload: &CreateUser, lookup: &StoreOutcome, secret: &str, now: i64) -> (answer:
    Answer<Token>)
    ensures
        tokens_of(answer.outcome) == login_at(
            payload.name@,
            *lookup,
            checked(payload.pass@, *lookup),
            secret@,
            now as int,
        ),
        answer.status == status_after(
            OK,
            login_at(
                payload.name@,
                *lookup,
                checked(payload.pass@, *lookup),
                secret@,
                now as int,
            ),
        ),
{
    match lookup {
        StoreOutcome::Found(user) => {
            let check = verify_password(payload.pass.as_str(), user.pass_hash.as_str());
            match credentials_verdict(check) {
                Ok(_) => Answer::of(
                    OK,
                    issue_token_pair_at(user.id, payload.name.as_str(), secret, now),
                ),
                Err(error) => Answer::failed(error),
            }
        },
        StoreOutcome::Missing => Answer::failed(
            ApiError::new(ErrorKind::Unauthorized, "Invalid username"),
        ),
        _ => Answer::failed(ApiError::new(ErrorKind::InternalError, "db error")),
    }
}

/// Log-in, after the look-up of the name: the answer of `login_handler_at`
/// for the present reading of the clock, which is a time at or after the
/// epoch.
pub fn login_handler(payload: &CreateUser, lookup: &StoreOutcome, secret: &str) -> (answer: Answer<
    Token,
>)
    ensures
        exists|now: i64|
            {
                &&& now >= 0
                &&& tokens_of(answer.outcome) == #[trigger] login_at(
                    payload.name@,
                    *lookup,
                    checked(payload.pass@, *lookup),
                    secret@,
                    now as int,
                )
                &&& answer.status == status_after(
                    OK,
                    login_at(
                        payload.name@,
                        *lookup,
                        checked(payload.pass@, *lookup),
                        secret@,
                        now as int,
                    ),
                )
            },
{
    let now = unix_now();
    let answer = login_handler_at(payload, lookup, secret, now);
    assert(now >= 0 && tokens_of(answer.outcome) == login_at(
        payload.name@,
        *lookup,
        checked(payload.pass@, *lookup),
        secret@,
        now as int,
    ));
    answer
}

/// A parameter of the look-up endpoint, with the text taken by its characters.
pub open spec fn parameter(value: Option<&str>) -> Option<Seq<char>> {
    match value {
        Some(text) => Some(text@),
        None => None,
    }
}

/// The look-up that the parameters ask for. `id` comes first and must be a
/// numeral; without it `name` is used, and without that `user`; with none of
/// the three the request is malformed.
pub open spec fn lookup_of(
    id: Option<Seq<char>>,
    name: Option<Seq<char>>,
    user: Option<Seq<char>>,
) -> Result<RequestView, Failure> {
    match id {
        Some(text) => match id_of(text) {
            Some(id) => Ok(RequestView::FindUserById { id }),
            None => Err((ErrorKind::ValidationError, "Invalid id"@)),
        },
        None => match name {
            Some(name) => Ok(RequestView::FindUserByName { name }),
            None => match user {
                Some(name) => Ok(RequestView::FindUserByName { name }),
                None => Err((ErrorKind::ValidationError, "No query parameter provided"@)),
            },
        },
    }
}

/// What the look-up endpoint answers once the store has answered: the public
/// record of the account found; not found where there is none; an internal
/// error, with the store's own message where it gave one, otherwise.
pub open spec fn found(lookup: StoreOutcome) -> Result<(i32, Seq<char>, i64), Failure> {
    match lookup {
        StoreOutcome::Found(user) => Ok(public_record(user)),
        StoreOutcome::Missing => Err((ErrorKind::NotFound, "User not found"@)),
        StoreOutcome::Failed(message) => Err((ErrorKind::InternalError, message@)),
        _ => Err((ErrorKind::InternalError, "db error"@)),
    }
}

/// The look-up endpoint, before the store is asked: which look-up the query
/// parameters `id`, `name` and `user` ask for.
pub fn get_user(id: Option<&str>, name: Option<&str>, user: Option<&str>) -> (result: Result<
    StoreRequest,
    ApiError,
>)
    ensures
        operation_of(result) == lookup_of(parameter(id), parameter(name), parameter(user)),
{
    match id {
        Some(text) => match parse_id(text) {
            Some(id) => Ok(StoreRequest::FindUserById { id }),
            None => Err(ApiError::new(ErrorKind::ValidationError, "Invalid id")),
        },
        None => match name {
            Some(name) => Ok(StoreRequest::FindUserByName { name: name.to_owned() }),
            None => match user {
                Some(name) => Ok(StoreRequest::FindUserByName { name: name.to_owned() }),
                None => Err(
                    ApiError::new(ErrorKind::ValidationError, "No query parameter provided"),
                ),
            },
        },
    }
}

/// The look-up endpoint, after the store has answered: the public record
/// under the status `OK`, or the failure under its own status.
pub fn get_user_response(lookup: &StoreOutcome) -> (answer: Answer<UserPublicInfo>)
    ensures
        record_of(answer.outcome) == found(*lookup),
        answer.status == status_after(OK, found(*lookup)),
{
    match lookup {
        StoreOutcome::Found(user) => Answer::succeeded(OK, user.public_info()),
        StoreOutcome::Missing => Answer::failed(
            ApiError::new(ErrorKind::NotFound, "User not found"),
        ),
        StoreOutcome::Failed(message) => Answer::failed(
            ApiError::new(ErrorKind::InternalError, message.as_str()),
        ),
        _ => Answer::failed(ApiError::new(ErrorKind::InternalError, "db error")),
    }
}

/// Sign-up with a name that is taken is a conflict, whatever the password:
/// the answer is the failure, so no insert is asked for and no account made.
pub proof fn lemma_taken_name_is_conflict(name: Seq<char>, lookup: StoreOutcome)
    requires
        name_taken(name, lookup),
    ensures
        admitted(name, lookup) == Err::<(), Failure>((ErrorKind::Conflict, "Same name"@)),
{
}

/// Log-in with the credentials of sign-up is not turned away: where the
/// stored hash is one that matches the password, as every hash that sign-up
/// asks to store does, log-in answers with the pair for the account, which is
/// two tokens wherever signing succeeds.
pub proof fn lemma_login_after_signup(
    name: Seq<char>,
    pass: Seq<char>,
    user: User,
    secret: Seq<char>,
    now: int,
)
    requires
        check_of(pass, user.pass_hash@) == PasswordCheck::Match,
    ensures
        login_at(
            name,
            StoreOutcome::Found(user),
            checked(pass, StoreOutcome::Found(user)),
            secret,
            now,
        ) == pair_at(user.id, name, secret, now),
        token_at(now, REFRESH_HORIZON as int, name, secret) is Ok && token_at(
            now,
            ACCESS_HORIZON as int,
            name,
            secret,
        ) is Ok ==> pair_at(user.id, name, secret, now) is Ok,
{
}

/// Sign-up with a fresh name and the log-in that follows it both succeed
/// wherever the hasher and the signer do. Given a name that the look-up
/// admits, a salt under which the hasher gives a readable hash that matches
/// the password, an account that the store made of what it was handed, and
/// times at which both tokens can be signed: sign-up asks for the insert of
/// the name under that hash and is answered with `CREATED` and the pair for
/// the new account; log-in with the same credentials is answered with `OK`
/// and the pair for that account. Each token of a pair is the signed claim
/// set for the name, issued at the time of its request.
pub proof fn lemma_signup_then_login(
    name: Seq<char>,
    pass: Seq<char>,
    lookup: StoreOutcome,
    salt: Seq<char>,
    user: User,
    secret: Seq<char>,
    signup_now: int,
    login_now: int,
)
    requires
        admitted(name, lookup) is Ok,
        hashing_of(argon2_phc(pass, salt)) == Ok::<Seq<char>, ErrorKind>(user.pass_hash@),
        check_of(pass, user.pass_hash@) == PasswordCheck::Match,
        user.name@ == name,
        pair_at(user.id, name, secret, signup_now) is Ok,
        pair_at(user.id, name, secret, login_now) is Ok,
    ensures
        insert_of(name, hashing_of(argon2_phc(pass, salt))) == Ok::<RequestView, Failure>(
            RequestView::InsertUser { name, pass_hash: user.pass_hash@ },
        ),
        created_at(name, StoreOutcome::Created(user.id), secret, signup_now) == pair_at(
            user.id,
            name,
            secret,
            signup_now,
        ),
        status_after(
            CREATED,
            created_at(name, StoreOutcome::Created(user.id), secret, signup_now),
        ) == 201,
        login_at(
            name,
            StoreOutcome::Found(user),
            checked(pass, StoreOutcome::Found(user)),
            secret,
            login_now,
        ) == pair_at(user.id, name, secret, login_now),
        status_after(
            OK,
            login_at(
                name,
                StoreOutcome::Found(user),
                checked(pass, StoreOutcome::Found(user)),
                secret,
                login_now,
            ),
        ) == 200,
        pair_at(user.id, name, secret, login_now) matches Ok(pair) && pair.0 == user.id
            && signed_token(
            login_now as usize,
            (login_now + REFRESH_HORIZON) as usize,
            name,
            secret,
        ) == Some(pair.1) && signed_token(
            login_now as usize,
            (login_now + ACCESS_HORIZON) as usize,
            name,
            secret,
        ) == Some(pair.2),
{
}

/// The status tells success from failure: an answer has the status of its
/// endpoint's success exactly when it is a success, `CREATED` for sign-up and
/// `OK` for log-in and look-up, because no kind of failure has either status.
pub proof fn lemma_status_tells_success<A>(outcome: Result<A, Failure>)
    ensures
        status_after(CREATED, outcome) == 201 <==> outcome is Ok,
        status_after(OK, outcome) == 200 <==> outcome is Ok,
        outcome matches Err(failure) ==> status_after(CREATED, outcome) == status_of(failure.0)
            && status_after(OK, outcome) == status_of(failure.0),
{
}

/// Log-in with a password that the verifier does not accept for the stored
/// hash is unauthorized, and so is log-in with a name that has no account.
/// Either is answered with the status 401 and the failure, at whatever time:
/// no token is issued.
pub proof fn lemma_wrong_password_is_unauthorized(
    name: Seq<char>,
    pass: Seq<char>,
    user: User,
    secret: Seq<char>,
    now: int,
)
    requires
        check_of(pass, user.pass_hash@) == PasswordCheck::Mismatch,
    ensures
        login_at(
            name,
            StoreOutcome::Found(user),
            checked(pass, StoreOutcome::Found(user)),
            secret,
            now,
        ) == Err::<Pair, Failure>((ErrorKind::Unauthorized, "Wrong password"@)),
        login_at(name, StoreOutcome::Missing, checked(pass, StoreOutcome::Missing), secret, now)
            == Err::<Pair, Failure>((ErrorKind::Unauthorized, "Invalid username"@)),
        status_after(
            OK,
            login_at(
                name,
                StoreOutcome::Found(user),
                checked(pass, StoreOutcome::Found(user)),
                secret,
                now,
            ),
        ) == 401,
        status_after(
            OK,
            login_at(
                name,
                StoreOutcome::Missing,
                checked(pass, StoreOutcome::Missing),
                secret,
                now,
            ),
        ) == 401,
{
}

/// The tokens of a pair are the signed forms of two claim sets for the same
/// name, both issued at the time of the request: the access token expires 30
/// minutes later, the refresh token 182 days later, to the second.
pub proof fn lemma_pair_lifetimes(user_id: i32, name: Seq<char>, secret: Seq<char>, now: int)
    requires
        pair_at(user_id, name, secret, now) is Ok,
    ensures
        ({
            let pair = pair_at(user_id, name, secret, now)->Ok_0;
            let access = claim_times(now, 30int * 60);
            let refresh = claim_times(now, 182int * 24 * 60 * 60);
            &&& pair.0 == user_id
            &&& access matches Some(times) && times.0 == now && times.1 - times.0 == 30 * 60
                && signed_token(times.0, times.1, name, secret) == Some(pair.2)
            &&& refresh matches Some(times) && times.0 == now && times.1 - times.0 == 182 * 24
                * 60 * 60 && signed_token(times.0, times.1, name, secret) == Some(pair.1)
        }),
{
}

/// The look-up endpoint answers with the same public record however the
/// account was found: two look-ups that find the same account, be it by
/// identity or by name, give equal answers. The answer is made of identity,
/// name and time of joining alone, so the password hash is no part of it.
pub proof fn lemma_lookups_agree(by_id: User, by_name: User)
    requires
        by_id.id == by_name.id,
        by_id.name@ == by_name.name@,
        by_id.joined_at == by_name.joined_at,
    ensures
        found(StoreOutcome::Found(by_id)) == found(StoreOutcome::Found(by_name)),
        found(StoreOutcome::Found(by_id)) == Ok::<(i32, Seq<char>, i64), Failure>(
            (by_id.id, by_id.name@, by_id.joined_at),
        ),
{
}

} // verus!
