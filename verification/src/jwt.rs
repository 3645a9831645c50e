//! Token issuance: the claim set of a token and its signed form. Signing is
//! HS256 as the `jsonwebtoken` crate implements it; the clock is `chrono`'s.

use vstd::prelude::*;
use jsonwebtoken::{EncodingKey, Header};
use crate::error::{text_of, ErrorKind};

verus! {

/// The claim set of a token: when it was issued, when it expires (both in
/// seconds since the Unix epoch), and whom it names.
#[derive(Clone, Debug, PartialEq, Eq)]
pub struct Claim {
    pub iat: usize,
    pub exp: usize,
    pub name: String,
}

/// The lifetime of an access token in seconds: 30 minutes.
pub const ACCESS_HORIZON: i64 = 1800;

/// The lifetime of a refresh token in seconds: 182 days.
pub const REFRESH_HORIZON: i64 = 15724800;

/// The error of `jsonwebtoken`. Nothing is read from it.
#[verifier::external_type_specification]
#[verifier::external_body]
pub struct ExSigningError(jsonwebtoken::errors::Error);

/// The token that `jsonwebtoken::encode` makes, with the default HS256 header
/// and the key `secret`, of the claim set whose members are, in this order,
/// the number `issued` under `issued_key`, the number `expires` under
/// `expires_key` and the text `subject` under `subject_key`; `None` where it
/// reports an error.
pub uninterp spec fn encoded(
    issued_key: Seq<char>,
    issued: usize,
    expires_key: Seq<char>,
    expires: usize,
    subject_key: Seq<char>,
    subject: Seq<char>,
    secret: Seq<char>,
) -> Option<Seq<char>>;

/// Reads the clock with `chrono::Utc::now` and gives the time in whole seconds
/// since the Unix epoch. Claimed: the reading is not negative. The crate takes
/// the whole seconds of the time that has passed since the epoch, and on a
/// clock that stands before the epoch the call does not return.
#[verifier::external_body]
pub(crate) fn unix_now() -> (now: i64)
    ensures
        now >= 0,
{
    chrono::Utc::now().timestamp()
}

/// Signs a claim set of three members with `jsonwebtoken::encode` under the
/// default header (HS256) and the key `EncodingKey::from_secret(secret)`. The
/// members are handed over as a JSON object, each under its key, in the order
/// given. Claimed: the answer is the one that `encoded` names, which is to say
/// that it depends on the members and the secret alone, as HMAC-SHA256 over
/// the serialised header and claims does with the crate's built-in signer. A
/// process that installs a signer of its own in the crate is outside this
/// claim.
#[verifier::external_body]
fn sign_members(
    issued: (&str, usize),
    expires: (&str, usize),
    subject: (&str, &str),
    secret: &str,
) -> (signed: Result<String, jsonwebtoken::errors::Error>)
    ensures
        match signed {
            Ok(token) => encoded(
                issued.0@,
                issued.1,
                expires.0@,
                expires.1,
                subject.0@,
                subject.1@,
                secret@,
            ) == Some(token@),
            Err(_) => encoded(
                issued.0@,
                issued.1,
                expires.0@,
                expires.1,
                subject.0@,
                subject.1@,
                secret@,
            ) is None,
        },
{
    let mut claims = serde_json::Map::new();
    claims.insert(issued.0.to_owned(), serde_json::Value::from(issued.1));
    claims.insert(expires.0.to_owned(), serde_json::Value::from(expires.1));
    claims.insert(subject.0.to_owned(), serde_json::Value::from(subject.1));
    jsonwebtoken::encode(&Header::default(), &claims, &EncodingKey::from_secret(secret.as_bytes()))
}

/// The signed form of the claim set `{iat, exp, name}` under the key `secret`,
/// or `None` where the signer refuses.
pub open spec fn signed_token(iat: usize, exp: usize, name: Seq<char>, secret: Seq<char>) -> Option<
    Seq<char>,
> {
    encoded("iat"@, iat, "exp"@, exp, "name"@, name, secret)
}

/// The issue and expiry times of a token issued at `now` that lives for
/// `horizon` seconds, where both are representable: `now` and `now + horizon`.
pub open spec fn claim_times(now: int, horizon: int) -> Option<(usize, usize)> {
    if 0 <= now <= usize::MAX && 0 <= now + horizon <= usize::MAX {
        Some((now as usize, (now + horizon) as usize))
    } else {
        None
    }
}

/// What issuing makes of the signer's answer: the token, or an internal error.
pub open spec fn signing_result(signed: Option<Seq<char>>) -> Result<Seq<char>, ErrorKind> {
    match signed {
        Some(token) => Ok(token),
        None => Err(ErrorKind::InternalError),
    }
}

/// The token for `name` issued at `now` with a lifetime of `horizon` seconds,
/// signed with `secret`. Times that cannot be represented, and a refusal of
/// the signer, are internal errors.
pub open spec fn token_at(now: int, horizon: int, name: Seq<char>, secret: Seq<char>) -> Result<
    Seq<char>,
    ErrorKind,
> {
    match claim_times(now, horizon) {
        Some((iat, exp)) => signing_result(signed_token(iat, exp, name, secret)),
        None => Err(ErrorKind::InternalError),
    }
}

impl Claim {
    /// The claim set of a token for `name` issued at `now` that lives for
    /// `horizon` seconds, or `None` where a time cannot be represented.
    pub fn issued_at(now: i64, horizon: i64, name: &str) -> (claim: Option<Claim>)
        ensures
            match claim {
                Some(c) => claim_times(now as int, horizon as int) == Some((c.iat, c.exp))
                    && c.name@ == name@,
                None => claim_times(now as int, horizon as int) is None,
            },
    {
        let expiry: i128 = now as i128 + horizon as i128;
        if now < 0 || expiry < 0 {
            return None;
        }
        if now as u64 > usize::MAX as u64 || expiry > usize::MAX as i128 {
            return None;
        }
        Some(Claim { iat: now as usize, exp: expiry as usize, name: name.to_owned() })
    }
}

/// Signs `claim` under the key `secret`: its members are `iat`, `exp` and
/// `name`, in this order.
fn sign_claim(claim: &Claim, secret: &str) -> (signed: Result<String, jsonwebtoken::errors::Error>)
    ensures
        match signed {
            Ok(token) => signed_token(claim.iat, claim.exp, claim.name@, secret@) == Some(token@),
            Err(_) => signed_token(claim.iat, claim.exp, claim.name@, secret@) is None,
        },
{
    sign_members(("iat", claim.iat), ("exp", claim.exp), ("name", claim.name.as_str()), secret)
}

/// Turns the signer's answer into the issuer's: the token as it is, any
/// failure as an internal error.
pub fn signed(answer: Result<String, jsonwebtoken::errors::Error>) -> (result: Result<
    String,
    ErrorKind,
>)
    ensures
        match answer {
            Ok(token) => text_of(result) == Ok::<Seq<char>, ErrorKind>(token@),
            Err(_) => text_of(result) == Err::<Seq<char>, ErrorKind>(ErrorKind::InternalError),
        },
{
    match answer {
        Ok(token) => Ok(token),
        Err(_) => Err(ErrorKind::InternalError),
    }
}

/// Issues the token for `name` as of the time `now`, with a lifetime of
/// `horizon` seconds, signed with `secret`.
pub fn generate_token_at(now: i64, name: &str, secret: &str, horizon: i64) -> (result: Result<
    String,
    ErrorKind,
>)
    ensures
        text_of(result) == token_at(now as int, horizon as int, name@, secret@),
{
    match Claim::issued_at(now, horizon, name) {
        Some(claim) => signed(sign_claim(&claim, secret)),
        None => Err(ErrorKind::InternalError),
    }
}

/// Issues the token for `name` as of now, with a lifetime of `horizon`
/// seconds, signed with `secret`: the token of `generate_token_at` for the
/// present reading of the clock, which is a time at or after the epoch.
pub fn generate_token(name: &str, secret: &str, horizon: i64) -> (result: Result<String, ErrorKind>)
    ensures
        exists|now: i64|
            now >= 0 && text_of(result) == #[trigger] token_at(
                now as int,
                horizon as int,
                name@,
                secret@,
            ),
{
    let now = unix_now();
    let result = generate_token_at(now, name, secret, horizon);
    assert(now >= 0 && text_of(result) == token_at(now as int, horizon as int, name@, secret@));
    result
}

/// A token lives exactly as long as its horizon says: wherever the claim times
/// exist, expiry is issue time plus horizon, and the issue time is the time of
/// the request. For the two horizons in use that is 30 minutes and 182 days.
pub proof fn lemma_token_lifetime(now: int, horizon: int)
    requires
        claim_times(now, horizon) is Some,
    ensures
        claim_times(now, horizon) matches Some(times) && times.0 == now && times.1 - times.0
            == horizon,
        ACCESS_HORIZON == 30 * 60,
        REFRESH_HORIZON == 182 * 24 * 60 * 60,
{
}

} // verus!
