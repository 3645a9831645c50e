//! The credential service: hashing a password for storage and checking a
//! password against a stored hash. The hashing itself is Argon2, as the
//! `argon2` crate implements it; what is verified here is what the service
//! makes of its answers, and which stored texts it hands to the verifier at
//! all.

use vstd::prelude::*;
use vstd::string::StrSliceExecFns;
use argon2::password_hash::rand_core::OsRng;
use argon2::password_hash::{PasswordHash, SaltString};
use argon2::{Argon2, PasswordHasher, PasswordVerifier};
use crate::error::{text_of, ErrorKind};
use crate::text::{digits_value, is_digit, lemma_digits_value_nonnegative};

verus! {

/// The error of `password_hash`. Nothing is read from it.
#[verifier::external_type_specification]
#[verifier::external_body]
pub struct ExHashError(argon2::password_hash::Error);

/// The largest number of lanes that a stored hash may ask for.
pub const MAX_LANES: u32 = 16_777_215;

/// The PHC string that `Argon2::default().hash_password` makes of `password`
/// under the salt that `SaltString::from_b64` reads from `salt`, or `None`
/// where either reports an error.
pub uninterp spec fn argon2_phc(password: Seq<char>, salt: Seq<char>) -> Option<Seq<char>>;

/// Whether `PasswordHash::new` accepts `stored` as a hash in the PHC string format.
pub uninterp spec fn stored_hash_parses(stored: Seq<char>) -> bool;

/// Whether `Argon2::default().verify_password` accepts `password` for the
/// parsed form of `stored`.
pub uninterp spec fn hash_accepts(password: Seq<char>, stored: Seq<char>) -> bool;

/// The end of the run of decimal digits that starts at `from`.
pub open spec fn digits_end(text: Seq<char>, from: int) -> int
    decreases text.len() - from,
{
    if 0 <= from < text.len() && is_digit(text[from]) {
        digits_end(text, from + 1)
    } else {
        from
    }
}

/// Whether a parameter named `p`, the number of lanes, starts at `at`: the
/// letter and an equals sign, at the start of the text or right after a `$`
/// or a comma.
pub open spec fn names_lanes(text: Seq<char>, at: int) -> bool {
    &&& 0 <= at
    &&& at + 1 < text.len()
    &&& text[at] == 'p'
    &&& text[at + 1] == '='
    &&& (at == 0 || text[at - 1] == '$' || text[at - 1] == ',')
}

/// The number that follows the parameter name at `at`: what the run of digits
/// after the equals sign denotes.
pub open spec fn lanes_value(text: Seq<char>, at: int) -> int {
    digits_value(text.subrange(at + 2, digits_end(text, at + 2)))
}

/// Whether `stored` may be handed to the verifier: it is ASCII, and no
/// parameter named `p` in it, wherever it stands and however often it is
/// repeated, asks for more than `MAX_LANES` lanes.
pub open spec fn readable(stored: Seq<char>) -> bool {
    &&& vstd::utf8::is_ascii_chars(stored)
    &&& forall|at: int| #[trigger] names_lanes(stored, at) ==> lanes_value(stored, at) <= MAX_LANES
}

/// Whether `c` is a character of Base64: a letter, a digit, `+` or `/`.
pub open spec fn is_base64(c: char) -> bool {
    ('a' <= c <= 'z') || ('A' <= c <= 'Z') || ('0' <= c <= '9') || c == '+' || c == '/'
}

/// Whether `salt` has the shape of a salt that was just drawn: 22 characters
/// of Base64, which is what 16 bytes make without padding.
pub open spec fn fresh_shaped(salt: Seq<char>) -> bool {
    &&& salt.len() == 22
    &&& forall|i: int| 0 <= i < salt.len() ==> is_base64(#[trigger] salt[i])
}

/// Draws a fresh salt with `SaltString::generate` from the operating system's
/// random source and gives it as text. Claimed: the salt has 22 characters of
/// Base64, since the crate draws 16 bytes and encodes them without padding.
/// Nothing is claimed of which ones.
#[verifier::external_body]
fn fresh_salt() -> (salt: String)
    ensures
        fresh_shaped(salt@),
{
    SaltString::generate(OsRng).as_str().to_owned()
}

/// Reads `salt` with `SaltString::from_b64`, hashes `password` under it with
/// `Argon2::default().hash_password` and renders the hash as a PHC string.
/// Claimed: the answer is the one that `argon2_phc` names, which is to say
/// that it depends on the password and the salt alone. Claimed of a hash that
/// comes back: it parses again, and the same verifier accepts the same
/// password for it. That is the round trip of the crate's own usage example:
/// the verifier computes the hash anew from the parameters and the salt in the
/// string and compares. Success is not claimed.
#[verifier::external_body]
fn argon2_hash(password: &str, salt: &str) -> (hashed: Result<String, argon2::password_hash::Error>)
    ensures
        match hashed {
            Ok(stored) => argon2_phc(password@, salt@) == Some(stored@) && stored_hash_parses(
                stored@,
            ) && hash_accepts(password@, stored@),
            Err(_) => argon2_phc(password@, salt@) is None,
        },
{
    match SaltString::from_b64(salt) {
        Ok(salt) => match Argon2::default().hash_password(password.as_bytes(), &salt) {
            Ok(hash) => Ok(hash.to_string()),
            Err(error) => Err(error),
        },
        Err(error) => Err(error),
    }
}

/// Asks `PasswordHash::new` whether `stored` is a hash in the PHC string format.
#[verifier::external_body]
fn parses_as_hash(stored: &str) -> (parses: bool)
    ensures
        parses == stored_hash_parses(stored@),
{
    PasswordHash::new(stored).is_ok()
}

/// Asks `Argon2::default().verify_password` whether `password` matches the
/// hash `stored`, which must parse and be readable: the verifier multiplies
/// the number of lanes before it holds it against its limit, so a stored text
/// that asks for more lanes than `MAX_LANES` is never handed over. Any error
/// of the verifier counts as a refusal. How long the call takes and how much
/// memory it uses is set by the parameters in `stored`.
#[verifier::external_body]
fn accepts_password(password: &str, stored: &str) -> (accepted: bool)
    requires
        readable(stored@),
        stored_hash_parses(stored@),
    ensures
        accepted == hash_accepts(password@, stored@),
{
    match PasswordHash::new(stored) {
        Ok(parsed) => Argon2::default().verify_password(password.as_bytes(), &parsed).is_ok(),
        Err(_) => false,
    }
}

/// How a password compares with a stored hash.
#[derive(Clone, Copy, Debug, PartialEq, Eq, Structural)]
pub enum PasswordCheck {
    /// The password is the one that was hashed.
    Match,
    /// The hash is well formed and the password is another one.
    Mismatch,
    /// The stored hash is not a hash at all, or not one that may be verified.
    Malformed,
}

/// The verdict, given whether the stored text is readable, whether it parses
/// as a hash and whether the verifier accepts the password for it. A text that
/// is not readable or does not parse is malformed, whatever the last answer.
pub open spec fn password_check(readable: bool, parses: bool, accepts: bool) -> PasswordCheck {
    if !readable || !parses {
        PasswordCheck::Malformed
    } else if accepts {
        PasswordCheck::Match
    } else {
        PasswordCheck::Mismatch
    }
}

/// How `password` compares with `stored`, by the verifier's own answers.
pub open spec fn check_of(password: Seq<char>, stored: Seq<char>) -> PasswordCheck {
    password_check(readable(stored), stored_hash_parses(stored), hash_accepts(password, stored))
}

/// What the service makes of the hasher's answer: the hash, where there is
/// one and it is readable, and an internal error otherwise.
pub open spec fn hashing_of(answer: Option<Seq<char>>) -> Result<Seq<char>, ErrorKind> {
    match answer {
        Some(stored) => if readable(stored) {
            Ok(stored)
        } else {
            Err(ErrorKind::InternalError)
        },
        None => Err(ErrorKind::InternalError),
    }
}

/// The hasher's answer with the hash taken by its characters.
pub open spec fn answer_of(answer: Result<String, argon2::password_hash::Error>) -> Option<
    Seq<char>,
> {
    match answer {
        Ok(stored) => Some(stored@),
        Err(_) => None,
    }
}

/// One more digit multiplies the value of a run by ten and adds the digit.
proof fn lemma_run_extends(text: Seq<char>, from: int, to: int)
    requires
        0 <= from <= to < text.len(),
    ensures
        digits_value(text.subrange(from, to + 1)) == digits_value(text.subrange(from, to)) * 10
            + (text[to] as int - '0' as int),
{
    assert(text.subrange(from, to + 1).drop_last() =~= text.subrange(from, to));
}

/// Reads the number of lanes that the parameter at `at` asks for, and says
/// whether it is within `MAX_LANES`.
fn lanes_within_limit(stored: &str, at: usize) -> (within: bool)
    requires
        stored.is_ascii(),
        at + 2 <= stored@.len(),
    ensures
        within == (lanes_value(stored@, at as int) <= MAX_LANES),
{
    let len = stored.unicode_len();
    let start: usize = at + 2;
    let limit: u64 = 16_777_216;
    let mut value: u64 = 0;
    let mut i: usize = start;
    assert(stored@.subrange(start as int, start as int) =~= Seq::<char>::empty());
    while i < len
        invariant
            start <= i <= len,
            len == stored@.len(),
            stored.is_ascii(),
            limit == 16_777_216,
            digits_end(stored@, start as int) == digits_end(stored@, i as int),
            forall|j: int| start <= j < i ==> is_digit(#[trigger] stored@[j]),
            0 <= value <= limit,
            value == if digits_value(stored@.subrange(start as int, i as int)) < limit {
                digits_value(stored@.subrange(start as int, i as int))
            } else {
                limit as int
            },
        ensures
            i == len || !is_digit(stored@[i as int]),
        decreases len - i,
    {
        let byte = stored.get_ascii(i);
        assert('\0' <= stored@[i as int] <= '\u{7f}');
        if byte < 48 || byte > 57 {
            assert(!is_digit(stored@[i as int]));
            break;
        }
        proof {
            lemma_run_extends(stored@, start as int, i as int);
            assert forall|j: int| 0 <= j < i - start implies is_digit(
                #[trigger] stored@.subrange(start as int, i as int)[j],
            ) by {
                assert(is_digit(stored@[start + j]));
            }
            lemma_digits_value_nonnegative(stored@.subrange(start as int, i as int));
        }
        let next: u64 = value * 10 + (byte - 48) as u64;
        value = if next < limit { next } else { limit };
        i += 1;
    }
    assert(digits_end(stored@, i as int) == i);
    value < limit
}

/// Whether `stored` may be handed to the verifier.
pub fn is_readable(stored: &str) -> (answer: bool)
    ensures
        answer == readable(stored@),
{
    if !stored.is_ascii() {
        return false;
    }
    let len = stored.unicode_len();
    if len < 2 {
        return true;
    }
    let mut at: usize = 0;
    while at + 1 < len
        invariant
            at + 1 <= len,
            len == stored@.len(),
            stored.is_ascii(),
            forall|k: int| 0 <= k < at && #[trigger] names_lanes(stored@, k) ==> lanes_value(
                stored@,
                k,
            ) <= MAX_LANES,
        decreases len - at,
    {
        let letter = stored.get_ascii(at);
        let sign = stored.get_ascii(at + 1);
        assert('\0' <= stored@[at as int] <= '\u{7f}');
        assert('\0' <= stored@[at + 1] <= '\u{7f}');
        let mut opens = at == 0;
        if at > 0 {
            let before = stored.get_ascii(at - 1);
            assert('\0' <= stored@[at - 1] <= '\u{7f}');
            opens = before == 36 || before == 44;
        }
        assert((letter == 112 && sign == 61 && opens) == names_lanes(stored@, at as int));
        if letter == 112 && sign == 61 && opens {
            if !lanes_within_limit(stored, at) {
                return false;
            }
        }
        at += 1;
    }
    true
}

/// Turns the hasher's answer into the service's: a hash that is readable as
/// it is, anything else as an internal error.
pub fn hashed(answer: Result<String, argon2::password_hash::Error>) -> (result: Result<
    String,
    ErrorKind,
>)
    ensures
        text_of(result) == hashing_of(answer_of(answer)),
{
    match answer {
        Ok(stored) => {
            if is_readable(stored.as_str()) {
                Ok(stored)
            } else {
                Err(ErrorKind::InternalError)
            }
        },
        Err(_) => Err(ErrorKind::InternalError),
    }
}

/// Hashes `raw` under the salt `salt`: the hash that the hasher makes of the
/// two, where it makes one and the hash is readable, and an internal error
/// otherwise. A hash that comes back is well formed and matches `raw`.
pub fn hash_password_with_salt(raw: &str, salt: &str) -> (result: Result<String, ErrorKind>)
    ensures
        text_of(result) == hashing_of(argon2_phc(raw@, salt@)),
        result matches Ok(stored) ==> check_of(raw@, stored@) == PasswordCheck::Match,
{
    hashed(argon2_hash(raw, salt))
}

/// Hashes `raw` under a fresh random salt: the result of
/// `hash_password_with_salt` for the salt that was drawn, which has 22
/// characters of Base64. The hash differs from call to call; whichever comes
/// back is well formed and matches `raw`. The only failure is an internal
/// error.
pub fn hash_password(raw: &str) -> (result: Result<String, ErrorKind>)
    ensures
        exists|salt: Seq<char>|
            fresh_shaped(salt) && text_of(result) == hashing_of(
                #[trigger] argon2_phc(raw@, salt),
            ),
        result matches Ok(stored) ==> check_of(raw@, stored@) == PasswordCheck::Match,
        result matches Err(kind) ==> kind == ErrorKind::InternalError,
{
    let salt = fresh_salt();
    let result = hash_password_with_salt(raw, salt.as_str());
    assert(fresh_shaped(salt@) && text_of(result) == hashing_of(argon2_phc(raw@, salt@)));
    result
}

/// Checks `raw` against the stored hash `stored`. A text that is not readable
/// or is no hash at all is reported as malformed, and never as a wrong
/// password; the verifier is asked only about a text that is both.
pub fn verify_password(raw: &str, stored: &str) -> (check: PasswordCheck)
    ensures
        check == check_of(raw@, stored@),
{
    if !is_readable(stored) {
        PasswordCheck::Malformed
    } else if !parses_as_hash(stored) {
        PasswordCheck::Malformed
    } else if accepts_password(raw, stored) {
        PasswordCheck::Match
    } else {
        PasswordCheck::Mismatch
    }
}

/// A password is accepted for its own hash: whatever salt was drawn, a hash
/// that `hash_password` gives back for a password is one for which
/// `verify_password` answers with a match for that password.
pub proof fn lemma_hashed_password_verifies(raw: Seq<char>, salt: Seq<char>, stored: Seq<char>)
    requires
        hashing_of(argon2_phc(raw, salt)) == Ok::<Seq<char>, ErrorKind>(stored),
        stored_hash_parses(stored),
        hash_accepts(raw, stored),
    ensures
        check_of(raw, stored) == PasswordCheck::Match,
{
}

/// A stored text that asks for more lanes than the limit is malformed,
/// whatever else it holds and whichever password is tried.
pub proof fn lemma_excess_lanes_are_malformed(raw: Seq<char>, stored: Seq<char>, at: int)
    requires
        names_lanes(stored, at),
        lanes_value(stored, at) > MAX_LANES,
    ensures
        check_of(raw, stored) == PasswordCheck::Malformed,
{
}

} // verus!
