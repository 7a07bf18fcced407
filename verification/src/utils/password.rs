use vstd::prelude::*;
use crate::error::AppError;
use argon2::password_hash::rand_core::OsRng;
use argon2::password_hash::{PasswordHash, PasswordHasher, PasswordVerifier, SaltString};
use argon2::Argon2;

verus! {

/// Whether `password_hash` reads a text as a salt: the outcome of
/// `SaltString::from_b64`, which depends on the text alone.
pub uninterp spec fn argon2_salt_parses(salt: Seq<char>) -> bool;

/// What Argon2 with its default parameters makes of a password and a salt:
/// the hash in PHC notation, or the text of the error.
pub uninterp spec fn argon2_hash(password: Seq<char>, salt: Seq<char>) -> Result<
    Seq<char>,
    Seq<char>,
>;

/// Whether `password_hash` reads a text as a hash in PHC notation: the
/// outcome of `PasswordHash::new`.
pub uninterp spec fn argon2_hash_parses(hash: Seq<char>) -> bool;

/// Whether Argon2 finds that a password belongs to a hash.
pub uninterp spec fn argon2_verifies(password: Seq<char>, hash: Seq<char>) -> bool;

/// The views of a hashing outcome.
pub open spec fn outcome_view(outcome: Result<String, String>) -> Result<Seq<char>, Seq<char>> {
    match outcome {
        Ok(hash) => Ok(hash@),
        Err(message) => Err(message@),
    }
}

/// `SaltString::from_b64`, reduced to whether it succeeded.
#[verifier::external_body]
fn salt_parses(salt: &str) -> (parsed: bool)
    ensures
        parsed == argon2_salt_parses(salt@),
{
    SaltString::from_b64(salt).is_ok()
}

/// `Argon2::default().hash_password` with a salt that parses: the hash as a
/// text, or the error as a text. The result depends on the password and the
/// salt alone.
#[verifier::external_body]
fn hash_with_salt(password: &str, salt: &str) -> (outcome: Result<String, String>)
    requires
        argon2_salt_parses(salt@),
    ensures
        outcome_view(outcome) == argon2_hash(password@, salt@),
{
    let salt = SaltString::from_b64(salt).unwrap();
    Argon2::default().hash_password(password.as_bytes(), &salt).map(|hash| hash.to_string()).map_err(
        |error| error.to_string(),
    )
}

/// `SaltString::generate` with the system's random numbers: some salt, and
/// one that parses.
#[verifier::external_body]
fn fresh_salt() -> (salt: String)
    ensures
        argon2_salt_parses(salt@),
{
    SaltString::generate(&mut OsRng).to_string()
}

/// `PasswordHash::new`, reduced to whether it succeeded.
#[verifier::external_body]
fn hash_parses(hash: &str) -> (parsed: bool)
    ensures
        parsed == argon2_hash_parses(hash@),
{
    PasswordHash::new(hash).is_ok()
}

/// `Argon2::default().verify_password` against a hash that parses, reduced
/// to whether the password was accepted.
#[verifier::external_body]
fn verifies(password: &str, hash: &str) -> (accepted: bool)
    requires
        argon2_hash_parses(hash@),
    ensures
        accepted == argon2_verifies(password@, hash@),
{
    let parsed = PasswordHash::new(hash).unwrap();
    Argon2::default().verify_password(password.as_bytes(), &parsed).is_ok()
}

/// What `generate` answers once the password was hashed under `salt`: the
/// hash with the salt, or an authentication error with the hasher's message.
pub open spec fn spec_hashed(result: Result<String, String>, salt: String) -> Result<
    (String, String),
    AppError,
> {
    match result {
        Ok(hash) => Ok((hash, salt)),
        Err(message) => Err(AppError::Auth(message)),
    }
}

pub fn hashed(result: Result<String, String>, salt: String) -> (outcome: Result<
    (String, String),
    AppError,
>)
    ensures
        outcome == spec_hashed(result, salt),
{
    match result {
        Ok(hash) => Ok((hash, salt)),
        Err(message) => Err(AppError::Auth(message)),
    }
}

/// Hashes a password under the given salt, or under a new one where none is
/// given. Returns the hash and the salt.
pub fn generate(password: &str, salt: Option<&str>) -> (outcome: Result<(String, String), AppError>)
    requires
        salt matches Some(given) ==> argon2_salt_parses(given@),
    ensures
        match outcome {
            Ok(pair) => argon2_salt_parses(pair.1@) && argon2_hash(password@, pair.1@) == Ok::<
                Seq<char>,
                Seq<char>,
            >(pair.0@) && (salt matches Some(given) ==> pair.1@ == given@),
            Err(error) => error is Auth && (salt matches Some(given) ==> argon2_hash(
                password@,
                given@,
            ) == Err::<Seq<char>, Seq<char>>(error.spec_detail())),
        },
{
    let salt = match salt {
        Some(given) => given.to_owned(),
        None => fresh_salt(),
    };
    let outcome = hash_with_salt(password, salt.as_str());
    hashed(outcome, salt)
}

/// `generate` for any salt: `None` where the salt given is none that the
/// hasher reads.
pub fn try_generate(password: &str, salt: Option<&str>) -> (outcome: Option<
    Result<(String, String), AppError>,
>)
    ensures
        outcome is None <==> (salt matches Some(given) && !argon2_salt_parses(given@)),
        outcome matches Some(Ok(pair)) ==> argon2_hash(password@, pair.1@) == Ok::<
            Seq<char>,
            Seq<char>,
        >(pair.0@),
{
    match salt {
        Some(given) => {
            if !salt_parses(given) {
                return None;
            }
        },
        None => {},
    }
    Some(generate(password, salt))
}

/// Whether a password belongs to a hash.
pub fn verify(password: &str, password_hash: &str) -> (outcome: Result<bool, AppError>)
    requires
        argon2_hash_parses(password_hash@),
    ensures
        outcome == Ok::<bool, AppError>(argon2_verifies(password@, password_hash@)),
{
    Ok(verifies(password, password_hash))
}

/// `verify` for any text: `None` where the text is no hash.
pub fn try_verify(password: &str, password_hash: &str) -> (outcome: Option<bool>)
    ensures
        outcome == if argon2_hash_parses(password_hash@) {
            Some(argon2_verifies(password@, password_hash@))
        } else {
            None
        },
{
    if !hash_parses(password_hash) {
        return None;
    }
    match verify(password, password_hash) {
        Ok(accepted) => Some(accepted),
        Err(_) => None,
    }
}

} // verus!
