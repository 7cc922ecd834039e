//! The authorization gate: the per-request state machine that every
//! protected operation passes.
//!
//! The machine decides; its caller does the storage work in between. Each call
//! of [`step`] takes the state and an event and gives the next state and
//! what the caller is to do before the next call.

use vstd::prelude::*;
use vstd::string::StringExecFns;

use crate::models::{Permission, Role, User, UserModel};
use crate::services::jwt::{
    bearer_token, extract_bearer, missing_token, validate, validated, Claims, ClaimsModel,
};
use crate::services::permissions::{permitted, user_has_permission};
use crate::utils::error::{
    internal_error, internal_message, AuthError, AuthErrorModel, ErrorKind,
};
use crate::utils::ident::{parse_public_id, uuid_of_text};

verus! {

/// What is fixed for one request: the signing secret, the permission the
/// operation requires, and the clock in seconds since the Unix epoch.
#[derive(Debug, Clone, PartialEq, Eq)]
pub struct GateConfig {
    pub jwt_secret: String,
    pub required_permission: String,
    pub now: u64,
}

pub ghost struct GateConfigModel {
    pub jwt_secret: Seq<char>,
    pub required_permission: Seq<char>,
    pub now: u64,
}

impl View for GateConfig {
    type V = GateConfigModel;

    open spec fn view(&self) -> GateConfigModel {
        GateConfigModel {
            jwt_secret: self.jwt_secret@,
            required_permission: self.required_permission@,
            now: self.now,
        }
    }
}

/// Where a request stands.
#[derive(Debug, Clone, PartialEq, Eq)]
pub enum GateState {
    /// Nothing is known yet.
    Start,
    /// The request carries a bearer token.
    TokenExtracted { token: String },
    /// The token is valid and names a public identifier.
    IdentityVerified { claims: Claims, public_id: u128 },
    /// The user is loaded and the required permission is looked up.
    PermissionChecked { user: User, permitted: bool },
    /// Terminal: the request may go on as `user`.
    Allowed { user: User },
    /// Terminal: the request is refused.
    Denied { error: AuthError },
}

pub ghost enum GateStateModel {
    Start,
    TokenExtracted { token: Seq<char> },
    IdentityVerified { claims: ClaimsModel, public_id: u128 },
    PermissionChecked { user: UserModel, permitted: bool },
    Allowed { user: UserModel },
    Denied { error: AuthErrorModel },
}

impl View for GateState {
    type V = GateStateModel;

    open spec fn view(&self) -> GateStateModel {
        match self {
            GateState::Start => GateStateModel::Start,
            GateState::TokenExtracted { token } => GateStateModel::TokenExtracted { token: token@ },
            GateState::IdentityVerified { claims, public_id } => GateStateModel::IdentityVerified {
                claims: claims@,
                public_id: *public_id,
            },
            GateState::PermissionChecked { user, permitted } => GateStateModel::PermissionChecked {
                user: user@,
                permitted: *permitted,
            },
            GateState::Allowed { user } => GateStateModel::Allowed { user: user@ },
            GateState::Denied { error } => GateStateModel::Denied { error: error@ },
        }
    }
}

/// The refusal for a request whose authorization was cut short.
pub open spec fn undecided() -> AuthErrorModel {
    AuthErrorModel::new(
        ErrorKind::InternalError,
        internal_message("Authorization failed"@, "no decision"@),
    )
}

impl GateStateModel {
    /// Whether the state is one of the two that end a request.
    pub open spec fn terminal(self) -> bool {
        self is Allowed || self is Denied
    }

    /// What the request is answered with: the identity where it is
    /// allowed, the refusal where it is denied, and an internal error in
    /// any state before the decision.
    pub open spec fn identity(self) -> Result<UserModel, AuthErrorModel> {
        match self {
            GateStateModel::Allowed { user } => Ok(user),
            GateStateModel::Denied { error } => Err(error),
            _ => Err(undecided()),
        }
    }
}

/// An identity or a refusal, as models.
pub open spec fn identity_view(r: Result<User, AuthError>) -> Result<UserModel, AuthErrorModel> {
    match r {
        Ok(user) => Ok(user@),
        Err(e) => Err(e@),
    }
}

impl GateState {
    /// Whether the state ends the request.
    pub fn is_terminal(&self) -> (r: bool)
        ensures
            r == self@.terminal(),
    {
        match self {
            GateState::Allowed { .. } => true,
            GateState::Denied { .. } => true,
            _ => false,
        }
    }

    /// The answer to the request: the verified identity, or the refusal. A
    /// state before the decision gives no identity.
    pub fn identity(self) -> (r: Result<User, AuthError>)
        ensures
            identity_view(r) == self@.identity(),
    {
        match self {
            GateState::Allowed { user } => Ok(user),
            GateState::Denied { error } => Err(error),
            _ => Err(internal_error("Authorization failed", "no decision")),
        }
    }
}

/// What happened since the last step.
#[derive(Debug, Clone, PartialEq, Eq)]
pub enum GateEvent {
    /// The request arrived; `authorization` is the value of its
    /// authorization header, if it has one that is text.
    Request { authorization: Option<String> },
    /// Nothing from outside.
    Proceed,
    /// Storage answered: the user with the public identifier asked for, if
    /// there is one, the role catalog and the permission catalog.
    Loaded { user: Option<User>, roles: Vec<Role>, permissions: Vec<Permission> },
    /// Storage failed.
    StorageFailed { cause: String },
}

pub ghost enum GateEventModel {
    Request { authorization: Option<Seq<char>> },
    Proceed,
    Loaded { user: Option<User>, roles: Seq<Role>, permissions: Seq<Permission> },
    StorageFailed { cause: Seq<char> },
}

impl View for GateEvent {
    type V = GateEventModel;

    open spec fn view(&self) -> GateEventModel {
        match self {
            GateEvent::Request { authorization } => GateEventModel::Request {
                authorization: crate::models::text_of(*authorization),
            },
            GateEvent::Proceed => GateEventModel::Proceed,
            GateEvent::Loaded { user, roles, permissions } => GateEventModel::Loaded {
                user: *user,
                roles: roles@,
                permissions: permissions@,
            },
            GateEvent::StorageFailed { cause } => GateEventModel::StorageFailed { cause: cause@ },
        }
    }
}

/// What the caller is to do before the next step.
#[derive(Debug, Clone, Copy, PartialEq, Eq, Structural)]
pub enum GateAction {
    /// Hand in the request.
    AwaitRequest,
    /// Nothing: step again with `Proceed`.
    Proceed,
    /// Load the user with this public identifier and the two catalogs, and
    /// step again with `Loaded` or `StorageFailed`.
    Load { public_id: u128 },
    /// Answer the request: the state is terminal.
    Finish,
}

/// The refusal for a token whose public identifier is no UUID.
pub open spec fn invalid_public_id() -> AuthErrorModel {
    AuthErrorModel::new(ErrorKind::Unauthorized, "Invalid UUID"@)
}

/// The refusal for a token whose user does not exist: storage answered
/// with no user, or with one that has another public identifier. It has
/// the kind of the refusal for a bad token.
pub open spec fn user_not_found() -> AuthErrorModel {
    AuthErrorModel::new(ErrorKind::Unauthorized, "User not found"@)
}

/// The refusal for a user who lacks the permission named `name`; the
/// message names it.
pub open spec fn missing_permission(name: Seq<char>) -> AuthErrorModel {
    AuthErrorModel::new(ErrorKind::Forbidden, "Missing permission: "@ + name)
}

/// The refusal after a storage failure.
pub open spec fn storage_failure(cause: Seq<char>) -> AuthErrorModel {
    AuthErrorModel::new(
        ErrorKind::InternalError,
        internal_message("Storage access failed"@, cause),
    )
}

/// The refusal for an event that the state does not expect.
pub open spec fn unexpected_event() -> AuthErrorModel {
    AuthErrorModel::new(
        ErrorKind::InternalError,
        internal_message("Authorization failed"@, "unexpected event"@),
    )
}

/// The transition function of the authorization gate.
///
/// A terminal state stays as it is. A storage failure ends every other
/// state in an internal error. Otherwise each state takes the one event it
/// expects, and refuses the request on any other.
pub open spec fn next(state: GateStateModel, event: GateEventModel, config: GateConfigModel) -> GateStateModel {
    if state.terminal() {
        state
    } else if event is StorageFailed {
        GateStateModel::Denied { error: storage_failure(event->cause) }
    } else {
        match (state, event) {
            (GateStateModel::Start, GateEventModel::Request { authorization }) => match bearer_token(
                authorization,
            ) {
                Some(token) => GateStateModel::TokenExtracted { token },
                None => GateStateModel::Denied { error: missing_token() },
            },
            (GateStateModel::TokenExtracted { token }, GateEventModel::Proceed) => match validated(
                token,
                config.jwt_secret,
                config.now,
            ) {
                Ok(claims) => match uuid_of_text(claims.user_temp_id) {
                    Some(public_id) => GateStateModel::IdentityVerified { claims, public_id },
                    None => GateStateModel::Denied { error: invalid_public_id() },
                },
                Err(error) => GateStateModel::Denied { error },
            },
            (
                GateStateModel::IdentityVerified { public_id, .. },
                GateEventModel::Loaded { user, roles, permissions },
            ) => match user {
                Some(user) if user.temp_id == public_id => GateStateModel::PermissionChecked {
                    user: user@,
                    permitted: permitted(
                        user.permissions,
                        user.roles,
                        roles,
                        permissions,
                        config.required_permission,
                    ),
                },
                _ => GateStateModel::Denied { error: user_not_found() },
            },
            (GateStateModel::PermissionChecked { user, permitted }, GateEventModel::Proceed) => {
                if permitted {
                    GateStateModel::Allowed { user }
                } else {
                    GateStateModel::Denied { error: missing_permission(config.required_permission) }
                }
            },
            _ => GateStateModel::Denied { error: unexpected_event() },
        }
    }
}

/// What the caller does in a state.
pub open spec fn action_in(state: GateStateModel) -> GateAction {
    match state {
        GateStateModel::Start => GateAction::AwaitRequest,
        GateStateModel::TokenExtracted { .. } => GateAction::Proceed,
        GateStateModel::IdentityVerified { public_id, .. } => GateAction::Load { public_id },
        GateStateModel::PermissionChecked { .. } => GateAction::Proceed,
        GateStateModel::Allowed { .. } => GateAction::Finish,
        GateStateModel::Denied { .. } => GateAction::Finish,
    }
}

/// The state a request ends in when its events come in the order the
/// actions ask for: the request, a step, the answer of storage, a step.
pub open spec fn decision(
    authorization: Option<Seq<char>>,
    answer: GateEventModel,
    config: GateConfigModel,
) -> GateStateModel {
    let extracted = next(GateStateModel::Start, GateEventModel::Request { authorization }, config);
    let verified = next(extracted, GateEventModel::Proceed, config);
    let checked = next(verified, answer, config);
    next(checked, GateEventModel::Proceed, config)
}

/// A terminal state is final: no event changes it.
pub proof fn lemma_terminal_is_final(
    state: GateStateModel,
    event: GateEventModel,
    config: GateConfigModel,
)
    requires
        state.terminal(),
    ensures
        next(state, event, config) == state,
{
}

/// A request is allowed only from the state in which the permission
/// was checked and found, and then as the user that was checked.
pub proof fn lemma_allowed_only_when_permitted(
    state: GateStateModel,
    event: GateEventModel,
    config: GateConfigModel,
)
    requires
        !state.terminal(),
        next(state, event, config) is Allowed,
    ensures
        state matches GateStateModel::PermissionChecked { user, permitted } && permitted && next(
            state,
            event,
            config,
        ) == (GateStateModel::Allowed { user }),
{
}

/// The decision on a request, end to end. A request is allowed exactly when
/// it carries a bearer token that validates to claims with a readable
/// public identifier, storage answers with the user of that identifier, and
/// the user may use the required permission. It is then allowed as that
/// user. Every other request is denied: as unauthorized for want of a valid
/// token or of the user, as an internal error where storage failed, as
/// forbidden where only the permission is missing.
pub proof fn lemma_decision(
    authorization: Option<Seq<char>>,
    answer: GateEventModel,
    config: GateConfigModel,
)
    ensures
        decision(authorization, answer, config).terminal(),
        match bearer_token(authorization) {
            None => decision(authorization, answer, config) == (GateStateModel::Denied {
                error: missing_token(),
            }),
            Some(token) => match validated(token, config.jwt_secret, config.now) {
                Err(error) => decision(authorization, answer, config) == (GateStateModel::Denied {
                    error,
                }),
                Ok(claims) => match uuid_of_text(claims.user_temp_id) {
                    None => decision(authorization, answer, config) == (GateStateModel::Denied {
                        error: invalid_public_id(),
                    }),
                    Some(public_id) => match answer {
                        GateEventModel::StorageFailed { cause } => decision(
                            authorization,
                            answer,
                            config,
                        ) == (GateStateModel::Denied { error: storage_failure(cause) }),
                        GateEventModel::Loaded { user: Some(user), roles, permissions } => decision(
                            authorization,
                            answer,
                            config,
                        ) == if user.temp_id != public_id {
                            GateStateModel::Denied { error: user_not_found() }
                        } else if permitted(
                            user.permissions,
                            user.roles,
                            roles,
                            permissions,
                            config.required_permission,
                        ) {
                            GateStateModel::Allowed { user: user@ }
                        } else {
                            GateStateModel::Denied {
                                error: missing_permission(config.required_permission),
                            }
                        },
                        GateEventModel::Loaded { user: None, .. } => decision(
                            authorization,
                            answer,
                            config,
                        ) == (GateStateModel::Denied { error: user_not_found() }),
                        _ => decision(authorization, answer, config) == (GateStateModel::Denied {
                            error: unexpected_event(),
                        }),
                    },
                },
            },
        },
{
}

fn denied(kind: ErrorKind, message: &str) -> (r: GateState)
    ensures
        r@ == (GateStateModel::Denied { error: AuthErrorModel::new(kind, message@) }),
{
    GateState::Denied { error: AuthError::new(kind, message) }
}

fn action_for(state: &GateState) -> (r: GateAction)
    ensures
        r == action_in(state@),
{
    match state {
        GateState::Start => GateAction::AwaitRequest,
        GateState::TokenExtracted { .. } => GateAction::Proceed,
        GateState::IdentityVerified { public_id, .. } => GateAction::Load { public_id: *public_id },
        GateState::PermissionChecked { .. } => GateAction::Proceed,
        GateState::Allowed { .. } => GateAction::Finish,
        GateState::Denied { .. } => GateAction::Finish,
    }
}

fn advance(state: GateState, event: GateEvent, config: &GateConfig) -> (r: GateState)
    ensures
        r@ == next(state@, event@, config@),
{
    match (state, event) {
        (GateState::Allowed { user }, _) => GateState::Allowed { user },
        (GateState::Denied { error }, _) => GateState::Denied { error },
        (_, GateEvent::StorageFailed { cause }) => GateState::Denied {
            error: internal_error("Storage access failed", cause.as_str()),
        },
        (GateState::Start, GateEvent::Request { authorization }) => {
            let header: Option<&str> = match &authorization {
                Some(value) => Some(value.as_str()),
                None => None,
            };
            match extract_bearer(header) {
                Some(token) => GateState::TokenExtracted { token: token.to_owned() },
                None => denied(ErrorKind::Unauthorized, "Missing or malformed token"),
            }
        },
        (GateState::TokenExtracted { token }, GateEvent::Proceed) => {
            match validate(token.as_str(), config.jwt_secret.as_str(), config.now) {
                Ok(claims) => match parse_public_id(claims.user_temp_id.as_str()) {
                    Some(public_id) => GateState::IdentityVerified { claims, public_id },
                    None => denied(ErrorKind::Unauthorized, "Invalid UUID"),
                },
                Err(error) => GateState::Denied { error },
            }
        },
        (
            GateState::IdentityVerified { public_id, .. },
            GateEvent::Loaded { user, roles, permissions },
        ) => {
            match user {
                Some(user) if user.temp_id == public_id => {
                    let permitted = user_has_permission(
                        &user,
                        &roles,
                        &permissions,
                        config.required_permission.as_str(),
                    );
                    GateState::PermissionChecked { user, permitted }
                },
                _ => denied(ErrorKind::Unauthorized, "User not found"),
            }
        },
        (GateState::PermissionChecked { user, permitted }, GateEvent::Proceed) => {
            if permitted {
                GateState::Allowed { user }
            } else {
                let mut message = "Missing permission: ".to_owned();
                message.append(config.required_permission.as_str());
                GateState::Denied { error: AuthError { kind: ErrorKind::Forbidden, message } }
            }
        },
        _ => GateState::Denied { error: internal_error("Authorization failed", "unexpected event") },
    }
}

/// Takes one step of the machine: the next state, and what the caller is to
/// do before the step after it.
pub fn step(state: GateState, event: GateEvent, config: &GateConfig) -> (r: (GateState, GateAction))
    ensures
        r.0@ == next(state@, event@, config@),
        r.1 == action_in(r.0@),
{
    let after = advance(state, event, config);
    let action = action_for(&after);
    (after, action)
}

} // verus!
