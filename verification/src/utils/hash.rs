//! The credential verifier: salted, memory-hard password hashes.

use argon2::password_hash::{PasswordHash, PasswordHasher, PasswordVerifier, SaltString};
use argon2::Argon2;
use rand::RngCore;
use vstd::prelude::*;

verus! {

/// What Argon2 with its default parameters makes of a password and a salt:
/// the hash in PHC string form, or the message of the error it fails with.
pub uninterp spec fn argon2_hash(password: Seq<char>, salt: Seq<u8>) -> Result<
    Seq<char>,
    Seq<char>,
>;

/// What checking a password against a stored hash string comes to.
#[derive(Debug, Clone, PartialEq, Eq)]
pub enum PasswordCheck {
    /// The hash string is well-formed and the password matches it.
    Match,
    /// The hash string is well-formed and the password does not match it.
    Mismatch,
    /// The hash string is malformed or cannot be verified; with the message.
    Failed(String),
}

pub ghost enum PasswordCheckModel {
    Match,
    Mismatch,
    Failed(Seq<char>),
}

impl View for PasswordCheck {
    type V = PasswordCheckModel;

    open spec fn view(&self) -> PasswordCheckModel {
        match self {
            PasswordCheck::Match => PasswordCheckModel::Match,
            PasswordCheck::Mismatch => PasswordCheckModel::Mismatch,
            PasswordCheck::Failed(message) => PasswordCheckModel::Failed(message@),
        }
    }
}

/// What parsing `hash` as a PHC string and verifying `password` against it
/// with Argon2 comes to.
pub uninterp spec fn argon2_check(password: Seq<char>, hash: Seq<char>) -> PasswordCheckModel;

/// A text result, as texts.
pub open spec fn texts(r: Result<String, String>) -> Result<Seq<char>, Seq<char>> {
    match r {
        Ok(s) => Ok(s@),
        Err(e) => Err(e@),
    }
}

/// `rand::rng().fill_bytes`: sixteen bytes from the thread-local generator.
/// Nothing is known of them but their number.
#[verifier::external_body]
fn fresh_salt() -> (r: [u8; 16])
{
    let mut salt = [0u8; 16];
    rand::rng().fill_bytes(&mut salt);
    salt
}

/// `SaltString::encode_b64` and `Argon2::default().hash_password`: the
/// sixteen salt bytes in B64, then the Argon2 hash of the password with that
/// salt, as a PHC string; an error of either call as its `Display` text. The
/// result is a function of the password and the salt alone.
#[verifier::external_body]
fn argon2_phc(password: &str, salt: &[u8; 16]) -> (r: Result<String, String>)
    ensures
        texts(r) == argon2_hash(password@, salt@),
{
    let salt = SaltString::encode_b64(salt).map_err(|e| e.to_string())?;
    Argon2::default()
        .hash_password(password.as_bytes(), &salt)
        .map(|phc| phc.to_string())
        .map_err(|e| e.to_string())
}

/// `PasswordHash::new` and `Argon2::default().verify_password`: `Match`
/// where both succeed, `Mismatch` where verification fails with
/// `Error::Password`, `Failed` with the `Display` text of any other error of
/// either call. The result is a function of the two texts alone.
#[verifier::external_body]
fn argon2_verify(password: &str, hash: &str) -> (r: PasswordCheck)
    ensures
        r@ == argon2_check(password@, hash@),
{
    let parsed = match PasswordHash::new(hash) {
        Ok(parsed) => parsed,
        Err(e) => return PasswordCheck::Failed(e.to_string()),
    };
    match Argon2::default().verify_password(password.as_bytes(), &parsed) {
        Ok(()) => PasswordCheck::Match,
        Err(argon2::password_hash::Error::Password) => PasswordCheck::Mismatch,
        Err(e) => PasswordCheck::Failed(e.to_string()),
    }
}

/// Hashes `password` with the given salt of sixteen bytes. The hash string
/// embeds the algorithm, its parameters and the salt.
pub fn hash_password_with_salt(password: &str, salt: &[u8; 16]) -> (r: Result<String, String>)
    ensures
        texts(r) == argon2_hash(password@, salt@),
{
    argon2_phc(password, salt)
}

/// Hashes `password` with a fresh random salt of sixteen bytes.
pub fn hash_password(password: &str) -> (r: Result<String, String>)
    ensures
        exists|salt: Seq<u8>| salt.len() == 16 && texts(r) == #[trigger] argon2_hash(password@, salt),
{
    let salt = fresh_salt();
    let r = argon2_phc(password, &salt);
    assert(salt@.len() == 16 && texts(r) == argon2_hash(password@, salt@));
    r
}

/// What `verify_password` answers for each outcome of the check: `true` for
/// a match, `false` for a mismatch, the error for a hash that is malformed
/// or cannot be verified.
pub open spec fn verdict(check: PasswordCheckModel) -> Result<bool, Seq<char>> {
    match check {
        PasswordCheckModel::Match => Ok(true),
        PasswordCheckModel::Mismatch => Ok(false),
        PasswordCheckModel::Failed(message) => Err(message),
    }
}

/// A verdict, with its error as text.
pub open spec fn verdict_text(r: Result<bool, String>) -> Result<bool, Seq<char>> {
    match r {
        Ok(b) => Ok(b),
        Err(e) => Err(e@),
    }
}

/// Turns the outcome of a check into the answer of `verify_password`.
pub fn verdict_of(check: PasswordCheck) -> (r: Result<bool, String>)
    ensures
        verdict_text(r) == verdict(check@),
{
    match check {
        PasswordCheck::Match => Ok(true),
        PasswordCheck::Mismatch => Ok(false),
        PasswordCheck::Failed(message) => Err(message),
    }
}

/// Checks `password` against the stored hash string `hash`: an error where
/// the hash string is malformed, `false` where it is well-formed and does
/// not match.
pub fn verify_password(password: &str, hash: &str) -> (r: Result<bool, String>)
    ensures
        verdict_text(r) == verdict(argon2_check(password@, hash@)),
{
    verdict_of(argon2_verify(password, hash))
}

} // verus!
