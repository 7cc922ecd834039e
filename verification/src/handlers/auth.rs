//! Login with email and password.

use vstd::prelude::*;

use crate::models::{Login, User, UserModel};
use crate::services::jwt::{create_jwt, minted};
use crate::utils::error::{
    internal_error, internal_message, AuthError, AuthErrorModel, ErrorKind,
};
use crate::utils::hash::{argon2_check, texts, verdict, verdict_text, verify_password};
use crate::utils::text::{lowercase, normalize_email};

verus! {

/// The refusal for an unknown email or a wrong password.
pub open spec fn invalid_credentials() -> AuthErrorModel {
    AuthErrorModel::new(ErrorKind::InvalidCredentials, "Invalid credentials"@)
}

/// The refusal for an account that is switched off.
pub open spec fn inactive_account() -> AuthErrorModel {
    AuthErrorModel::new(ErrorKind::Forbidden, "Account is inactive"@)
}

/// A login result, as models.
pub open spec fn login_view(r: Result<String, AuthError>) -> Result<Seq<char>, AuthErrorModel> {
    match r {
        Ok(token) => Ok(token@),
        Err(e) => Err(e@),
    }
}

/// What login answers once the token is minted, or has failed to be.
pub open spec fn token_outcome(minted: Result<Seq<char>, Seq<char>>) -> Result<
    Seq<char>,
    AuthErrorModel,
> {
    match minted {
        Ok(token) => Ok(token),
        Err(cause) => Err(
            AuthErrorModel::new(
                ErrorKind::InternalError,
                internal_message("JWT generation failed"@, cause),
            ),
        ),
    }
}

/// What login answers for an active user once the password is checked.
pub open spec fn verified_outcome(
    user: UserModel,
    verdict: Result<bool, Seq<char>>,
    secret: Seq<char>,
    now: u64,
) -> Result<Seq<char>, AuthErrorModel> {
    match verdict {
        Ok(true) => token_outcome(minted(user, secret, now)),
        Ok(false) => Err(invalid_credentials()),
        Err(cause) => Err(
            AuthErrorModel::new(
                ErrorKind::InternalError,
                internal_message("Password verification failed"@, cause),
            ),
        ),
    }
}

/// What login answers: for no user, invalid credentials; for an inactive
/// one, forbidden, whatever the password; for a wrong password, invalid
/// credentials; for the right one, the token.
pub open spec fn login_outcome(
    found: Option<UserModel>,
    password: Seq<char>,
    secret: Seq<char>,
    now: u64,
) -> Result<Seq<char>, AuthErrorModel> {
    match found {
        None => Err(invalid_credentials()),
        Some(user) => if !user.is_active {
            Err(inactive_account())
        } else {
            verified_outcome(
                user,
                verdict(argon2_check(password, user.password_hash)),
                secret,
                now,
            )
        },
    }
}

/// A user or none, as model.
pub open spec fn found_view(found: Option<&User>) -> Option<UserModel> {
    match found {
        Some(user) => Some(user@),
        None => None,
    }
}

/// The email under which login looks the user up: the one of the payload,
/// in lower case.
pub fn login_email(payload: &Login) -> (r: String)
    ensures
        r@ == lowercase(payload.email@),
{
    normalize_email(payload.email.as_str())
}

/// The answer of login once the token is minted, or has failed to be.
pub fn login_token(minted: Result<String, String>) -> (r: Result<String, AuthError>)
    ensures
        login_view(r) == token_outcome(texts(minted)),
{
    match minted {
        Ok(token) => Ok(token),
        Err(cause) => Err(internal_error("JWT generation failed", cause.as_str())),
    }
}

/// The answer of login for the active user `user` once the password is
/// checked: `verdict` is what the check came to.
pub fn login_verified(user: &User, verdict: Result<bool, String>, jwt_secret: &str, now: u64) -> (r:
    Result<String, AuthError>)
    ensures
        login_view(r) == verified_outcome(user@, verdict_text(verdict), jwt_secret@, now),
{
    match verdict {
        Ok(true) => login_token(create_jwt(user, jwt_secret, now)),
        Ok(false) => Err(AuthError::new(ErrorKind::InvalidCredentials, "Invalid credentials")),
        Err(cause) => Err(internal_error("Password verification failed", cause.as_str())),
    }
}

/// Logs in. `found` is the user that storage holds under the email of
/// [`login_email`], if any; `now` is the clock in seconds since the Unix
/// epoch.
///
/// Answers the session token, or refuses: with invalid credentials where
/// there is no such user or the password is wrong, as forbidden where the
/// account is inactive, with an internal error where the stored hash cannot
/// be checked or the token cannot be minted.
pub fn login(found: Option<&User>, password: &str, jwt_secret: &str, now: u64) -> (r: Result<
    String,
    AuthError,
>)
    ensures
        login_view(r) == login_outcome(found_view(found), password@, jwt_secret@, now),
{
    match found {
        None => Err(AuthError::new(ErrorKind::InvalidCredentials, "Invalid credentials")),
        Some(user) => {
            if !user.is_active {
                Err(AuthError::new(ErrorKind::Forbidden, "Account is inactive"))
            } else {
                let verdict = verify_password(password, user.password_hash.as_str());
                login_verified(user, verdict, jwt_secret, now)
            }
        },
    }
}

} // verus!
