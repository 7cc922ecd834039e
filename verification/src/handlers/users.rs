//! Registration and the views of users.

use chrono::{DateTime, Local};
use vstd::prelude::*;
use vstd::string::StringExecFns;

use crate::models::{
    NewUser, NewUserInput, NewUserInputModel, NewUserModel, Role, User, UserModel, UserTableView,
    UserTableViewModel, UserView, UserViewModel,
};
use crate::services::jwt::Claims;
use crate::services::permissions::{resolved_role_names, role_names};
use crate::utils::error::{
    internal_error, internal_message, AuthError, AuthErrorModel, ErrorKind,
};
use crate::utils::hash::{argon2_hash, hash_password, texts};
use crate::utils::ident::{parse_public_id, uuid_of_text};
use crate::utils::text::{lowercase, normalize_email};

verus! {

/// The name of the permission that reading the user table requires.
pub open spec fn user_table_permission() -> Seq<char> {
    "can_view_user_table"@
}

/// The permission that reading the user table requires.
pub fn view_user_table_permission() -> (r: &'static str)
    ensures
        r@ == user_table_permission(),
{
    "can_view_user_table"
}

/// A registration result, as models.
pub open spec fn registration_view(r: Result<NewUser, AuthError>) -> Result<
    NewUserModel,
    AuthErrorModel,
> {
    match r {
        Ok(user) => Ok(user@),
        Err(e) => Err(e@),
    }
}

/// What registration stores for a payload once the password is hashed, or
/// the refusal where hashing failed: the email in lower case, the hash in
/// place of the password, the other fields as they came.
pub open spec fn registration(payload: NewUserInputModel, hashed: Result<Seq<char>, Seq<char>>) -> Result<
    NewUserModel,
    AuthErrorModel,
> {
    match hashed {
        Ok(password_hash) => Ok(
            NewUserModel {
                email: lowercase(payload.email),
                username: payload.username,
                password_hash,
                first_name: payload.first_name,
                last_name: payload.last_name,
            },
        ),
        Err(cause) => Err(
            AuthErrorModel::new(
                ErrorKind::InternalError,
                internal_message("Password hashing failed"@, cause),
            ),
        ),
    }
}

/// Makes the record that registration stores, from the payload and the
/// outcome of hashing its password.
pub fn new_user(payload: NewUserInput, hashed: Result<String, String>) -> (r: Result<
    NewUser,
    AuthError,
>)
    ensures
        registration_view(r) == registration(payload@, texts(hashed)),
{
    match hashed {
        Ok(password_hash) => Ok(
            NewUser {
                email: normalize_email(payload.email.as_str()),
                username: payload.username,
                password_hash,
                first_name: payload.first_name,
                last_name: payload.last_name,
            },
        ),
        Err(cause) => Err(internal_error("Password hashing failed", cause.as_str())),
    }
}

/// Registers: hashes the password of the payload with a fresh salt of
/// sixteen bytes and makes the record to store. Whatever the salt, the
/// record holds the email in lower case, the hash of the payload's password
/// with that salt, and the other fields as they came.
pub fn create_user(payload: NewUserInput) -> (r: Result<NewUser, AuthError>)
    ensures
        exists|salt: Seq<u8>|
            salt.len() == 16 && registration_view(r) == registration(
                payload@,
                #[trigger] argon2_hash(payload.password@, salt),
            ),
{
    let hashed = hash_password(payload.password.as_str());
    let ghost salt = choose|salt: Seq<u8>|
        salt.len() == 16 && texts(hashed) == #[trigger] argon2_hash(payload.password@, salt);
    let ghost password = payload.password@;
    let ghost input = payload@;
    let r = new_user(payload, hashed);
    assert(salt.len() == 16 && registration_view(r) == registration(
        input,
        argon2_hash(password, salt),
    ));
    r
}

/// The table projection of a user: the record without its password hash
/// and public identifier.
pub open spec fn user_table_view_of(user: UserModel) -> UserTableViewModel {
    UserTableViewModel {
        id: user.id,
        email: user.email,
        username: user.username,
        first_name: user.first_name,
        last_name: user.last_name,
        is_active: user.is_active,
        roles: user.roles,
        permissions: user.permissions,
        created_at: user.created_at,
        updated_at: user.updated_at,
    }
}

/// Lists the users for the administrative table, in the order given.
pub fn view_user_table(users: &Vec<User>) -> (r: Vec<UserTableView>)
    ensures
        r.len() == users.len(),
        forall|i: int| 0 <= i < users.len() ==> (#[trigger] r[i])@ == user_table_view_of(users[i]@),
{
    let mut views: Vec<UserTableView> = Vec::new();
    let mut i: usize = 0;
    while i < users.len()
        invariant
            i <= users.len(),
            views.len() == i,
            forall|j: int| 0 <= j < i ==> (#[trigger] views[j])@ == user_table_view_of(users[j]@),
        decreases users.len() - i,
    {
        let user = &users[i];
        views.push(
            UserTableView {
                id: user.id,
                email: user.email.clone(),
                username: user.username.clone(),
                first_name: user.first_name.clone(),
                last_name: user.last_name.clone(),
                is_active: user.is_active,
                roles: user.roles,
                permissions: user.permissions,
                created_at: user.created_at,
                updated_at: user.updated_at,
            },
        );
        i = i + 1;
    }
    views
}

/// `chrono`: the instant `micros` microseconds after the Unix epoch
/// (`DateTime::from_timestamp_micros`), in the time zone of this machine
/// (`with_timezone(&Local)`), formatted as `%Y-%m-%d %H:%M:%S`; nothing
/// where chrono has no such instant. The text depends on the machine's
/// time zone, so nothing is said of it.
#[verifier::external_body]
fn local_time_text(micros: i64) -> (r: Option<String>)
{
    let instant = DateTime::from_timestamp_micros(micros)?;
    Some(instant.with_timezone(&Local).format("%Y-%m-%d %H:%M:%S").to_string())
}

/// The text for a missing creation time.
pub open spec fn unknown_time() -> Seq<char> {
    "Unknown"@
}

/// The creation time as a user view shows it: the formatted time, or
/// `Unknown` where there is none.
pub open spec fn created_at_label(formatted: Option<Seq<char>>) -> Seq<char> {
    match formatted {
        Some(text) => text,
        None => unknown_time(),
    }
}

/// The public projection of a user, against the role catalog, with the
/// creation time already formatted.
pub open spec fn user_view_of(user: User, roles: Seq<Role>, formatted: Option<Seq<char>>) -> UserViewModel {
    UserViewModel {
        email: user.email@,
        username: user.username@,
        first_name: user.first_name@,
        last_name: user.last_name@,
        roles: resolved_role_names(user.roles, roles),
        created_at: created_at_label(formatted),
    }
}

/// Makes the public projection of `user`: the names of the roles that its
/// role mask refers to, in ascending order of id, and the creation time as
/// `formatted` gives it, or `Unknown`.
pub fn user_view(user: &User, roles: &Vec<Role>, formatted: Option<String>) -> (r: UserView)
    ensures
        r@ == user_view_of(*user, roles@, crate::models::text_of(formatted)),
{
    let created_at = match formatted {
        Some(text) => text,
        None => "Unknown".to_owned(),
    };
    UserView {
        email: user.email.clone(),
        username: user.username.clone(),
        first_name: user.first_name.clone(),
        last_name: user.last_name.clone(),
        roles: role_names(user.roles, roles),
        created_at,
    }
}

/// Whether `view` is a public projection of `user`: with some text for the
/// creation time where the user has one, and `Unknown` where it has none.
pub open spec fn is_view_of(view: UserViewModel, user: User, roles: Seq<Role>) -> bool {
    if user.created_at is None {
        view == user_view_of(user, roles, None)
    } else {
        exists|formatted: Option<Seq<char>>| view == #[trigger] user_view_of(user, roles, formatted)
    }
}

/// Makes the public projection of `user` with the creation time in the
/// local time of this machine.
pub fn local_user_view(user: &User, roles: &Vec<Role>) -> (r: UserView)
    ensures
        is_view_of(r@, *user, roles@),
{
    let formatted = match user.created_at {
        Some(micros) => local_time_text(micros),
        None => None,
    };
    let ghost text = crate::models::text_of(formatted);
    let view = user_view(user, roles, formatted);
    assert(view@ == user_view_of(*user, roles@, text));
    view
}

/// The refusal for a token whose user does not exist.
pub open spec fn profile_not_found() -> AuthErrorModel {
    AuthErrorModel::new(ErrorKind::Unauthorized, "User not found"@)
}

/// The public projection of one's own user. `found` is the user that
/// storage holds under the public identifier of [`own_user_id`], if any: a
/// token for a user that does not exist is refused as unauthorized.
pub fn view_own_user(found: Option<&User>, roles: &Vec<Role>) -> (r: Result<UserView, AuthError>)
    ensures
        match found {
            Some(user) => r matches Ok(view) && is_view_of(view@, *user, roles@),
            None => r matches Err(e) && e@ == profile_not_found(),
        },
{
    match found {
        Some(user) => Ok(local_user_view(user, roles)),
        None => Err(AuthError::new(ErrorKind::Unauthorized, "User not found")),
    }
}

/// Lists the users for everyone, in the order given: each with the names
/// of its roles and the creation time in local time.
pub fn view_users(users: &Vec<User>, roles: &Vec<Role>) -> (r: Vec<UserView>)
    ensures
        r.len() == users.len(),
        forall|i: int| 0 <= i < users.len() ==> is_view_of((#[trigger] r[i])@, users[i], roles@),
{
    let mut views: Vec<UserView> = Vec::new();
    let mut i: usize = 0;
    while i < users.len()
        invariant
            i <= users.len(),
            views.len() == i,
            forall|j: int| 0 <= j < i ==> is_view_of((#[trigger] views[j])@, users[j], roles@),
        decreases users.len() - i,
    {
        views.push(local_user_view(&users[i], roles));
        i = i + 1;
    }
    views
}

/// The refusal for claims whose public identifier is no UUID.
pub open spec fn invalid_profile_id() -> AuthErrorModel {
    AuthErrorModel::new(ErrorKind::Unauthorized, "Invalid UUID in token"@)
}

/// The public identifier under which the profile of the holder of `claims`
/// is stored, or a refusal where the claims hold none.
pub fn own_user_id(claims: &Claims) -> (r: Result<u128, AuthError>)
    ensures
        match uuid_of_text(claims.user_temp_id@) {
            Some(id) => r == Ok::<u128, AuthError>(id),
            None => r matches Err(e) && e@ == invalid_profile_id(),
        },
{
    match parse_public_id(claims.user_temp_id.as_str()) {
        Some(id) => Ok(id),
        None => Err(AuthError::new(ErrorKind::Unauthorized, "Invalid UUID in token")),
    }
}

} // verus!
