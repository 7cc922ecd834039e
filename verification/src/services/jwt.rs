//! The session token codec: signed, time-limited tokens that carry a
//! user's email and public identifier.

use jsonwebtoken::{decode, encode, Algorithm, DecodingKey, EncodingKey, Header, Validation};
use serde_json::Value;
use vstd::prelude::*;

use crate::models::{text_of, User, UserModel};
use crate::utils::error::{AuthError, AuthErrorModel, ErrorKind};
use crate::utils::hash::texts;
use crate::utils::ident::{public_id_text, text_of_uuid, uuid_of_text};
use crate::utils::text::strip_prefix;

verus! {

/// Seconds from minting to expiration: 24 hours.
pub const TOKEN_LIFETIME: u64 = 86_400;

/// What a session token carries: the user's email, the expiration instant
/// in seconds since the Unix epoch, and the user's public identifier as
/// text.
#[derive(Debug, Clone, PartialEq, Eq)]
pub struct Claims {
    pub sub: String,
    pub exp: u64,
    pub user_temp_id: String,
}

pub ghost struct ClaimsModel {
    pub sub: Seq<char>,
    pub exp: u64,
    pub user_temp_id: Seq<char>,
}

impl View for Claims {
    type V = ClaimsModel;

    open spec fn view(&self) -> ClaimsModel {
        ClaimsModel { sub: self.sub@, exp: self.exp, user_temp_id: self.user_temp_id@ }
    }
}

impl DeepView for Claims {
    type V = ClaimsModel;

    open spec fn deep_view(&self) -> ClaimsModel {
        self@
    }
}

/// The three payload fields of a token whose signature was verified, each
/// as far as the payload holds it with the right type.
#[derive(Debug, Clone, PartialEq, Eq)]
pub struct RawClaims {
    pub sub: Option<String>,
    pub exp: Option<u64>,
    pub user_temp_id: Option<String>,
}

pub ghost struct RawClaimsModel {
    pub sub: Option<Seq<char>>,
    pub exp: Option<u64>,
    pub user_temp_id: Option<Seq<char>>,
}

impl View for RawClaims {
    type V = RawClaimsModel;

    open spec fn view(&self) -> RawClaimsModel {
        RawClaimsModel {
            sub: text_of(self.sub),
            exp: self.exp,
            user_temp_id: text_of(self.user_temp_id),
        }
    }
}

impl DeepView for RawClaims {
    type V = RawClaimsModel;

    open spec fn deep_view(&self) -> RawClaimsModel {
        self@
    }
}

impl ClaimsModel {
    /// The payload that holds exactly these claims.
    pub open spec fn raw(self) -> RawClaimsModel {
        RawClaimsModel {
            sub: Some(self.sub),
            exp: Some(self.exp),
            user_temp_id: Some(self.user_temp_id),
        }
    }
}

/// The HS256 token that `jsonwebtoken::encode` makes of the three claims
/// under a secret, or the message of the error it fails with.
pub uninterp spec fn hs256_token(
    sub: Seq<char>,
    exp: u64,
    user_temp_id: Seq<char>,
    secret: Seq<char>,
) -> Result<Seq<char>, Seq<char>>;

/// What `jsonwebtoken::decode` reads from a token under a secret when it
/// checks the HS256 signature and not the clock: the payload fields, or
/// `None` where it refuses the token.
pub uninterp spec fn hs256_payload(token: Seq<char>, secret: Seq<char>) -> Option<RawClaimsModel>;

/// `jsonwebtoken::encode` with an HS256 header, a JSON object of the three
/// claims and the secret as HMAC key; an error as its `Display` text.
///
/// The result is a function of the arguments alone. The second clause is
/// the codec's round trip, for `decode` as `decode_hs256` calls it: it
/// accepts the HS256 header that `encode` wrote, recomputes the HMAC over
/// the same header and payload with the same key and finds it equal, finds
/// the one claim it requires, `exp`, and reads back the JSON object that
/// `encode` serialised.
#[verifier::external_body]
fn encode_hs256(sub: &str, exp: u64, user_temp_id: &str, secret: &str) -> (r: Result<
    String,
    String,
>)
    ensures
        texts(r) == hs256_token(sub@, exp, user_temp_id@, secret@),
        r matches Ok(token) ==> hs256_payload(token@, secret@) == Some(
            (ClaimsModel { sub: sub@, exp, user_temp_id: user_temp_id@ }).raw(),
        ),
{
    let mut claims = serde_json::Map::new();
    claims.insert("sub".to_string(), Value::from(sub));
    claims.insert("exp".to_string(), Value::from(exp));
    claims.insert("user_temp_id".to_string(), Value::from(user_temp_id));
    let key = EncodingKey::from_secret(secret.as_bytes());
    encode(&Header::new(Algorithm::HS256), &claims, &key).map_err(|e| e.to_string())
}

/// `jsonwebtoken::decode` into a JSON value, with HS256 as the only
/// algorithm, the secret as HMAC key and the expiry check switched off;
/// then the fields `sub` and `user_temp_id` where they are JSON strings and
/// `exp` where it is an unsigned integer. The result is a function of the
/// token and the secret alone.
#[verifier::external_body]
fn decode_hs256(token: &str, secret: &str) -> (r: Option<RawClaims>)
    ensures
        r.deep_view() == hs256_payload(token@, secret@),
{
    let mut validation = Validation::new(Algorithm::HS256);
    validation.validate_exp = false;
    let key = DecodingKey::from_secret(secret.as_bytes());
    let payload = decode::<Value>(token, &key, &validation).ok()?.claims;
    Some(RawClaims {
        sub: payload.get("sub").and_then(Value::as_str).map(str::to_owned),
        exp: payload.get("exp").and_then(Value::as_u64),
        user_temp_id: payload.get("user_temp_id").and_then(Value::as_str).map(str::to_owned),
    })
}

/// The claims of a token minted for `user` at clock `now`.
pub open spec fn claims_for(user: UserModel, now: u64) -> ClaimsModel {
    ClaimsModel {
        sub: user.email,
        exp: (now + TOKEN_LIFETIME) as u64,
        user_temp_id: text_of_uuid(user.temp_id),
    }
}

/// The message of the error for a clock so late that the expiration has no
/// 64-bit value.
pub open spec fn expiration_overflow_message() -> Seq<char> {
    "expiration out of range"@
}

/// The token minted for `user` under `secret` at clock `now`, or the
/// message of the error.
pub open spec fn minted(user: UserModel, secret: Seq<char>, now: u64) -> Result<
    Seq<char>,
    Seq<char>,
> {
    if now + TOKEN_LIFETIME > u64::MAX {
        Err(expiration_overflow_message())
    } else {
        let claims = claims_for(user, now);
        hs256_token(claims.sub, claims.exp, claims.user_temp_id, secret)
    }
}

/// A refusal for want of a valid token.
pub open spec fn invalid_token() -> AuthErrorModel {
    AuthErrorModel::new(ErrorKind::Unauthorized, "Invalid token"@)
}

/// A refusal for want of a bearer credential.
pub open spec fn missing_token() -> AuthErrorModel {
    AuthErrorModel::new(ErrorKind::Unauthorized, "Missing or malformed token"@)
}

/// What validation makes of a decoded payload at clock `now`: the claims
/// where all three fields are there and the expiration is not past, and a
/// refusal otherwise. There is no grace period: the token is good up to
/// and including its expiration instant.
pub open spec fn claims_outcome(raw: Option<RawClaimsModel>, now: u64) -> Result<
    ClaimsModel,
    AuthErrorModel,
> {
    match raw {
        Some(RawClaimsModel { sub: Some(sub), exp: Some(exp), user_temp_id: Some(user_temp_id) }) =>
            if now <= exp {
                Ok(ClaimsModel { sub, exp, user_temp_id })
            } else {
                Err(invalid_token())
            },
        _ => Err(invalid_token()),
    }
}

/// What validating `token` under `secret` at clock `now` comes to.
pub open spec fn validated(token: Seq<char>, secret: Seq<char>, now: u64) -> Result<
    ClaimsModel,
    AuthErrorModel,
> {
    claims_outcome(hs256_payload(token, secret), now)
}

/// A validation result, as models.
pub open spec fn outcome_view(r: Result<Claims, AuthError>) -> Result<ClaimsModel, AuthErrorModel> {
    match r {
        Ok(claims) => Ok(claims@),
        Err(e) => Err(e@),
    }
}

/// Expiry boundary: a token whose claims were minted at clock `minted_at`
/// is accepted at clock `at` exactly when `at` is no later than 24 hours
/// after `minted_at`. One second before that instant it is accepted, one
/// second after it is refused.
pub proof fn lemma_expiry_boundary(user: UserModel, minted_at: u64, at: u64)
    requires
        minted_at + TOKEN_LIFETIME <= u64::MAX,
    ensures
        claims_outcome(Some(claims_for(user, minted_at).raw()), at) is Ok <==> at <= minted_at
            + TOKEN_LIFETIME,
        at <= minted_at + TOKEN_LIFETIME ==> claims_outcome(
            Some(claims_for(user, minted_at).raw()),
            at,
        ) == Ok::<ClaimsModel, AuthErrorModel>(claims_for(user, minted_at)),
        at == minted_at + TOKEN_LIFETIME - 1 ==> claims_outcome(
            Some(claims_for(user, minted_at).raw()),
            at,
        ) is Ok,
        at == minted_at + TOKEN_LIFETIME + 1 ==> claims_outcome(
            Some(claims_for(user, minted_at).raw()),
            at,
        ) == Err::<ClaimsModel, AuthErrorModel>(invalid_token()),
{
}

/// Mints the session token of `user` under `secret` at clock `now`
/// (seconds since the Unix epoch). The token expires 24 hours later.
///
/// A minted token validates under the same secret, at every clock up to
/// and including its expiration, to claims that hold the user's email and
/// the text of the user's public identifier, which reads back as that
/// identifier. At every later clock it is refused.
pub fn create_jwt(user: &User, secret: &str, now: u64) -> (r: Result<String, String>)
    ensures
        texts(r) == minted(user@, secret@, now),
        r matches Ok(token) ==> {
            &&& now + TOKEN_LIFETIME <= u64::MAX
            &&& uuid_of_text(claims_for(user@, now).user_temp_id) == Some(user.temp_id)
            &&& forall|at: u64| #[trigger]
                validated(token@, secret@, at) == if at <= now + TOKEN_LIFETIME {
                    Ok::<ClaimsModel, AuthErrorModel>(claims_for(user@, now))
                } else {
                    Err::<ClaimsModel, AuthErrorModel>(invalid_token())
                }
        },
{
    match now.checked_add(TOKEN_LIFETIME) {
        Some(expiration) => {
            let public_id = public_id_text(user.temp_id);
            encode_hs256(user.email.as_str(), expiration, public_id.as_str(), secret)
        },
        None => Err("expiration out of range".to_owned()),
    }
}

/// Decides on a decoded payload at clock `now`.
pub fn check_claims(raw: Option<RawClaims>, now: u64) -> (r: Result<Claims, AuthError>)
    ensures
        outcome_view(r) == claims_outcome(raw.deep_view(), now),
{
    match raw {
        Some(RawClaims { sub: Some(sub), exp: Some(exp), user_temp_id: Some(user_temp_id) }) => {
            if now <= exp {
                Ok(Claims { sub, exp, user_temp_id })
            } else {
                Err(AuthError::new(ErrorKind::Unauthorized, "Invalid token"))
            }
        },
        _ => Err(AuthError::new(ErrorKind::Unauthorized, "Invalid token")),
    }
}

/// Validates `token` under `secret` at clock `now` (seconds since the Unix
/// epoch): the claims, or `Unauthorized` where the token is malformed,
/// carries a wrong signature, lacks a claim or is expired.
pub fn validate(token: &str, secret: &str, now: u64) -> (r: Result<Claims, AuthError>)
    ensures
        outcome_view(r) == validated(token@, secret@, now),
{
    check_claims(decode_hs256(token, secret), now)
}

/// The scheme word and the space that a bearer credential starts with.
pub open spec fn bearer_prefix() -> Seq<char> {
    "Bearer "@
}

/// The token of a bearer credential: what follows the scheme.
pub open spec fn bearer_token(authorization: Option<Seq<char>>) -> Option<Seq<char>> {
    match authorization {
        Some(value) => if bearer_prefix().is_prefix_of(value) {
            Some(value.skip(bearer_prefix().len() as int))
        } else {
            None
        },
        None => None,
    }
}

/// A text or nothing, as text.
pub open spec fn str_text(value: Option<&str>) -> Option<Seq<char>> {
    match value {
        Some(s) => Some(s@),
        None => None,
    }
}

/// Takes the token out of the value of the authorization header.
pub fn extract_bearer<'a>(authorization: Option<&'a str>) -> (r: Option<&'a str>)
    ensures
        str_text(r) == bearer_token(str_text(authorization)),
{
    match authorization {
        Some(value) => {
            let rest = strip_prefix(value, "Bearer ");
            proof {
                if let Some(token) = rest {
                    assert(value@.skip(bearer_prefix().len() as int) =~= token@);
                    assert(bearer_prefix().is_prefix_of(value@));
                }
            }
            rest
        },
        None => None,
    }
}

/// What the authorization header of a request comes to under `secret` at
/// clock `now`.
pub open spec fn extraction(
    secret: Seq<char>,
    authorization: Option<Seq<char>>,
    now: u64,
) -> Result<ClaimsModel, AuthErrorModel> {
    match bearer_token(authorization) {
        Some(token) => validated(token, secret, now),
        None => Err(missing_token()),
    }
}

/// Recovers the identity that a request carries. `authorization` is the
/// value of its authorization header, if it has one that is text.
///
/// `Unauthorized` where the header is absent, does not use the bearer
/// scheme, or holds a token that does not validate at clock `now`.
pub fn extract_user_from_jwt(jwt_secret: &str, authorization: Option<&str>, now: u64) -> (r:
    Result<Claims, AuthError>)
    ensures
        outcome_view(r) == extraction(jwt_secret@, str_text(authorization), now),
{
    match extract_bearer(authorization) {
        Some(token) => validate(token, jwt_secret, now),
        None => Err(AuthError::new(ErrorKind::Unauthorized, "Missing or malformed token")),
    }
}

} // verus!
