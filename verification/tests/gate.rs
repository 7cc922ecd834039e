use user_auth::models::{Permission, Role, User};
use user_auth::services::gate::{step, GateAction, GateConfig, GateEvent, GateState};
use user_auth::services::jwt::create_jwt;
use user_auth::utils::error::{AuthError, ErrorKind};

const GATE_SECRET: &str = "gate-secret";
const GATE_CLOCK: u64 = 1_600_000_000;
const GATE_ID: u128 = 0x1111_2222_3333_4444_5555_6666_7777_8888;

fn gate_config(required: &str) -> GateConfig {
    GateConfig {
        jwt_secret: String::from(GATE_SECRET),
        required_permission: String::from(required),
        now: GATE_CLOCK,
    }
}

fn gate_user(permissions: u64, roles: u16) -> User {
    User {
        id: 9,
        temp_id: GATE_ID,
        email: String::from("g@x.com"),
        username: String::from("g"),
        password_hash: String::new(),
        first_name: String::from("G"),
        last_name: String::from("X"),
        is_active: true,
        roles,
        permissions,
        created_at: None,
        updated_at: None,
    }
}

fn gate_catalog() -> Vec<Permission> {
    let names = ["one", "two", "three", "four"];
    let mut catalog = Vec::new();
    for (i, name) in names.iter().enumerate() {
        catalog.push(Permission { id: i as i32 + 1, name: String::from(*name), description: None });
    }
    catalog
}

fn gate_roles() -> Vec<Role> {
    vec![Role { id: 2, name: String::from("granting"), description: None, permission: 0b100 }]
}

fn gate_header(user: &User) -> Option<String> {
    Some(format!("Bearer {}", create_jwt(user, GATE_SECRET, GATE_CLOCK - 10).unwrap()))
}

fn run_gate(
    authorization: Option<String>,
    answer: GateEvent,
    config: &GateConfig,
) -> (GateState, Vec<GateAction>) {
    let mut actions = Vec::new();
    let mut state = GateState::Start;
    let mut event = GateEvent::Request { authorization };
    let mut answer = Some(answer);
    loop {
        let (next, action) = step(state, event, config);
        state = next;
        actions.push(action);
        event = match action {
            GateAction::Proceed => GateEvent::Proceed,
            GateAction::Load { .. } => answer.take().unwrap(),
            GateAction::Finish => return (state, actions),
            GateAction::AwaitRequest => unreachable!(),
        };
    }
}

fn loaded(user: Option<User>) -> GateEvent {
    GateEvent::Loaded { user, roles: gate_roles(), permissions: gate_catalog() }
}

#[test]
fn permission_through_a_role_is_allowed() {
    let user = gate_user(0, 0b10);
    let (state, actions) = run_gate(gate_header(&user), loaded(Some(user.clone())), &gate_config("three"));
    assert_eq!(state, GateState::Allowed { user });
    assert_eq!(
        actions,
        vec![
            GateAction::Proceed,
            GateAction::Load { public_id: GATE_ID },
            GateAction::Proceed,
            GateAction::Finish,
        ]
    );
}

#[test]
fn missing_permission_is_forbidden_and_named() {
    let user = gate_user(0, 0b10);
    let (state, _) = run_gate(gate_header(&user), loaded(Some(user)), &gate_config("four"));
    let expected = AuthError::new(ErrorKind::Forbidden, "Missing permission: four");
    assert_eq!(expected.status(), 403);
    assert_eq!(state, GateState::Denied { error: expected });
}

#[test]
fn unknown_required_permission_is_forbidden() {
    let user = gate_user(u64::MAX, u16::MAX);
    let (state, _) = run_gate(gate_header(&user), loaded(Some(user)), &gate_config("nonexistent"));
    assert_eq!(
        state,
        GateState::Denied {
            error: AuthError::new(ErrorKind::Forbidden, "Missing permission: nonexistent"),
        }
    );
}

#[test]
fn request_without_credential_is_denied_at_once() {
    let config = gate_config("three");
    for authorization in [None, Some(String::from("Basic abc")), Some(String::new())] {
        let (state, action) =
            step(GateState::Start, GateEvent::Request { authorization }, &config);
        assert_eq!(
            state,
            GateState::Denied {
                error: AuthError::new(ErrorKind::Unauthorized, "Missing or malformed token"),
            }
        );
        assert_eq!(action, GateAction::Finish);
    }
}

#[test]
fn bearer_credential_is_extracted_first() {
    let (state, action) = step(
        GateState::Start,
        GateEvent::Request { authorization: Some(String::from("Bearer abc")) },
        &gate_config("three"),
    );
    assert_eq!(state, GateState::TokenExtracted { token: String::from("abc") });
    assert_eq!(action, GateAction::Proceed);
}

#[test]
fn bad_token_is_unauthorized() {
    let config = gate_config("three");
    let user = gate_user(u64::MAX, 0);
    let expired = create_jwt(&user, GATE_SECRET, GATE_CLOCK - 86_401).unwrap();
    let mis_signed = create_jwt(&user, "other", GATE_CLOCK).unwrap();
    for token in [expired, mis_signed, String::from("garbage")] {
        let (state, action) =
            step(GateState::TokenExtracted { token }, GateEvent::Proceed, &config);
        assert_eq!(
            state,
            GateState::Denied { error: AuthError::new(ErrorKind::Unauthorized, "Invalid token") }
        );
        assert_eq!(action, GateAction::Finish);
    }
}

#[test]
fn token_at_its_expiration_instant_is_still_verified() {
    let user = gate_user(0, 0);
    let token = create_jwt(&user, GATE_SECRET, GATE_CLOCK - 86_400).unwrap();
    let (state, action) =
        step(GateState::TokenExtracted { token }, GateEvent::Proceed, &gate_config("three"));
    assert!(matches!(state, GateState::IdentityVerified { public_id: GATE_ID, .. }));
    assert_eq!(action, GateAction::Load { public_id: GATE_ID });
}

#[test]
fn missing_user_is_unauthorized_like_a_bad_token() {
    let user = gate_user(u64::MAX, 0);
    let (state, _) = run_gate(gate_header(&user), loaded(None), &gate_config("three"));
    let expected = AuthError::new(ErrorKind::Unauthorized, "User not found");
    assert_eq!(expected.status(), 401);
    assert_eq!(state, GateState::Denied { error: expected });
}

#[test]
fn storage_failure_is_an_internal_error() {
    let user = gate_user(u64::MAX, 0);
    let failure = GateEvent::StorageFailed { cause: String::from("pool exhausted") };
    let (state, actions) = run_gate(gate_header(&user), failure, &gate_config("three"));
    let expected =
        AuthError::new(ErrorKind::InternalError, "Storage access failed: pool exhausted");
    assert_eq!(expected.status(), 500);
    assert_eq!(expected.client_message(), "Internal server error");
    assert_eq!(state, GateState::Denied { error: expected });
    assert_eq!(actions.last(), Some(&GateAction::Finish));
}

#[test]
fn storage_failure_ends_every_state_that_is_not_terminal() {
    let config = gate_config("three");
    let states = [
        GateState::Start,
        GateState::TokenExtracted { token: String::from("t") },
        GateState::PermissionChecked { user: gate_user(0, 0), permitted: true },
    ];
    for state in states {
        let failure = GateEvent::StorageFailed { cause: String::from("down") };
        let (after, action) = step(state, failure, &config);
        assert_eq!(
            after,
            GateState::Denied {
                error: AuthError::new(ErrorKind::InternalError, "Storage access failed: down"),
            }
        );
        assert_eq!(action, GateAction::Finish);
    }
}

#[test]
fn terminal_states_stay_as_they_are() {
    let config = gate_config("three");
    let allowed = GateState::Allowed { user: gate_user(1, 1) };
    let denied = GateState::Denied { error: AuthError::new(ErrorKind::Forbidden, "no") };
    for state in [allowed, denied] {
        let events = [
            GateEvent::Proceed,
            GateEvent::Request { authorization: None },
            GateEvent::StorageFailed { cause: String::from("down") },
            loaded(Some(gate_user(u64::MAX, 0))),
        ];
        for event in events {
            let (after, action) = step(state.clone(), event, &config);
            assert_eq!(after, state);
            assert_eq!(action, GateAction::Finish);
        }
    }
}

#[test]
fn event_out_of_turn_denies_the_request() {
    let config = gate_config("three");
    let expected = GateState::Denied {
        error: AuthError::new(ErrorKind::InternalError, "Authorization failed: unexpected event"),
    };
    let (after, action) = step(GateState::Start, GateEvent::Proceed, &config);
    assert_eq!(after, expected);
    assert_eq!(action, GateAction::Finish);
    let (after, _) = step(GateState::Start, loaded(Some(gate_user(u64::MAX, 0))), &config);
    assert_eq!(after, expected);
    let (after, _) = step(
        GateState::TokenExtracted { token: String::from("t") },
        GateEvent::Request { authorization: None },
        &config,
    );
    assert_eq!(after, expected);
    let (after, _) = step(
        GateState::PermissionChecked { user: gate_user(0, 0), permitted: true },
        loaded(None),
        &config,
    );
    assert_eq!(after, expected);
}

#[test]
fn token_with_unreadable_public_id_is_unauthorized() {
    let mut payload = serde_json::Map::new();
    payload.insert(String::from("sub"), serde_json::Value::from("g@x.com"));
    payload.insert(String::from("exp"), serde_json::Value::from(GATE_CLOCK));
    payload.insert(String::from("user_temp_id"), serde_json::Value::from("not-a-uuid"));
    let token = jsonwebtoken::encode(
        &jsonwebtoken::Header::new(jsonwebtoken::Algorithm::HS256),
        &payload,
        &jsonwebtoken::EncodingKey::from_secret(GATE_SECRET.as_bytes()),
    )
    .unwrap();
    let (state, action) =
        step(GateState::TokenExtracted { token }, GateEvent::Proceed, &gate_config("three"));
    assert_eq!(
        state,
        GateState::Denied { error: AuthError::new(ErrorKind::Unauthorized, "Invalid UUID") }
    );
    assert_eq!(action, GateAction::Finish);
}

#[test]
fn direct_permission_is_allowed_without_roles() {
    let user = gate_user(0b1000, 0);
    let answer = GateEvent::Loaded {
        user: Some(user.clone()),
        roles: Vec::new(),
        permissions: gate_catalog(),
    };
    let (state, _) = run_gate(gate_header(&user), answer, &gate_config("four"));
    assert_eq!(state, GateState::Allowed { user });
}

#[test]
fn user_with_another_public_id_counts_as_missing() {
    let user = gate_user(u64::MAX, u16::MAX);
    let mut other = user.clone();
    other.temp_id = GATE_ID + 1;
    let (state, _) = run_gate(gate_header(&user), loaded(Some(other)), &gate_config("three"));
    assert_eq!(
        state,
        GateState::Denied { error: AuthError::new(ErrorKind::Unauthorized, "User not found") }
    );
}

#[test]
fn identity_is_the_user_or_the_refusal() {
    let user = gate_user(1, 1);
    assert_eq!(GateState::Allowed { user: user.clone() }.identity(), Ok(user.clone()));
    let error = AuthError::new(ErrorKind::Forbidden, "Missing permission: x");
    assert_eq!(GateState::Denied { error: error.clone() }.identity(), Err(error));
    let undecided = AuthError::new(ErrorKind::InternalError, "Authorization failed: no decision");
    assert_eq!(GateState::Start.identity(), Err(undecided.clone()));
    assert_eq!(
        GateState::PermissionChecked { user, permitted: true }.identity(),
        Err(undecided)
    );
}

#[test]
fn only_allowed_and_denied_are_terminal() {
    let user = gate_user(1, 1);
    assert!(GateState::Allowed { user: user.clone() }.is_terminal());
    assert!(GateState::Denied { error: AuthError::new(ErrorKind::Forbidden, "no") }.is_terminal());
    assert!(!GateState::Start.is_terminal());
    assert!(!GateState::TokenExtracted { token: String::from("t") }.is_terminal());
    assert!(!GateState::PermissionChecked { user, permitted: false }.is_terminal());
}
