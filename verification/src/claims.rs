//! Tokens: the claims that are signed into one, and what comes out when one
//! is checked. A token is valid by its signature and its expiry alone.

use crate::clock::{unix_seconds, CLOCK_BOUND_SECONDS};
use crate::error::AuthError;
use crate::model::Auth;
use crate::request::LoginResponse;
use crate::text::{copy_texts, texts};
use vstd::prelude::*;

verus! {

/// The lifetime of a token where none is chosen.
pub const JWT_EXPIRATION_HOURS: i64 = 24;

/// The same in seconds.
pub const JWT_EXPIRATION_SECONDS: u32 = 86_400;

/// The key that tokens are signed and checked with, and how long a token
/// lasts. One value is made at startup and handed to issuer and verifier
/// alike.
pub struct SigningContext {
    secret: Vec<u8>,
    lifetime: u32,
}

impl SigningContext {
    /// The signing key.
    pub closed spec fn secret(&self) -> Seq<u8> {
        self.secret@
    }

    /// The lifetime of a token, in seconds.
    pub closed spec fn lifetime(&self) -> u32 {
        self.lifetime
    }

    /// A context with the given key and a lifetime of 24 hours.
    pub fn new(secret: Vec<u8>) -> (r: SigningContext)
        ensures
            r.secret() == secret@,
            r.lifetime() == JWT_EXPIRATION_SECONDS,
    {
        SigningContext { secret, lifetime: JWT_EXPIRATION_SECONDS }
    }

    /// A context with the given key and lifetime.
    pub fn with_lifetime(secret: Vec<u8>, seconds: u32) -> (r: SigningContext)
        ensures
            r.secret() == secret@,
            r.lifetime() == seconds,
    {
        SigningContext { secret, lifetime: seconds }
    }

    /// The lifetime of a token, in seconds.
    pub fn lifetime_seconds(&self) -> (r: u32)
        ensures
            r == self.lifetime(),
    {
        self.lifetime
    }
}

/// The claims of a token: whose it is, what they may do, when it ends and
/// when it was made (both in seconds since the Unix epoch).
#[derive(Debug, Clone, PartialEq, Eq)]
pub struct Claims {
    pub sub: String,
    pub permissions: Vec<String>,
    pub exp: i64,
    pub iat: i64,
}

/// What claims hold, as text and numbers.
pub struct ClaimsView {
    pub sub: Seq<char>,
    pub permissions: Seq<Seq<char>>,
    pub exp: i64,
    pub iat: i64,
}

impl View for Claims {
    type V = ClaimsView;

    open spec fn view(&self) -> ClaimsView {
        ClaimsView {
            sub: self.sub@,
            permissions: texts(self.permissions@),
            exp: self.exp,
            iat: self.iat,
        }
    }
}

/// What was read out of the body of a token whose signature holds: each of
/// the four claims, where the body has it in the right form.
#[derive(Debug, Clone, PartialEq, Eq)]
pub struct TokenPayload {
    /// The claim `sub`, if it is a string.
    pub sub: Option<String>,
    /// The claim `permissions`, if it is a list of strings.
    pub permissions: Option<Vec<String>>,
    /// The claim `exp`, if it is an integer of 64 bits.
    pub exp: Option<i64>,
    /// The claim `iat`, if it is an integer of 64 bits.
    pub iat: Option<i64>,
}

/// What a payload holds, as text and numbers.
pub struct TokenPayloadView {
    pub sub: Option<Seq<char>>,
    pub permissions: Option<Seq<Seq<char>>>,
    pub exp: Option<i64>,
    pub iat: Option<i64>,
}

impl View for TokenPayload {
    type V = TokenPayloadView;

    open spec fn view(&self) -> TokenPayloadView {
        TokenPayloadView {
            sub: match self.sub {
                Some(sub) => Some(sub@),
                None => None,
            },
            permissions: match self.permissions {
                Some(list) => Some(texts(list@)),
                None => None,
            },
            exp: self.exp,
            iat: self.iat,
        }
    }
}

/// Why a token was not taken before its claims were looked at.
#[derive(Debug, Clone, Copy, PartialEq, Eq, Structural)]
pub enum TokenFault {
    /// The signature is not that of this key.
    Signature,
    /// The token names another algorithm than HS256.
    Algorithm,
    /// The text is not a token: its parts, its encoding or its JSON.
    Structure,
}

/// The token could not be signed.
#[derive(Debug, Clone, Copy, PartialEq, Eq, Structural)]
pub struct SigningError {}

/// The token that `jsonwebtoken::encode` makes of the four claims with the
/// default header (HS256) and the key.
pub uninterp spec fn jwt_encoded(
    secret: Seq<u8>,
    sub: Seq<char>,
    permissions: Seq<Seq<char>>,
    exp: i64,
    iat: i64,
) -> Seq<char>;

/// What `jsonwebtoken::decode` makes of a text under the key, with HS256 as
/// the only algorithm and no check of the expiry: the JSON of the body, or
/// why the text was refused.
pub uninterp spec fn jwt_decoded(secret: Seq<u8>, token: Seq<char>) -> Result<Seq<char>, TokenFault>;

/// The four claims that `serde_json` finds in a JSON text.
pub uninterp spec fn claims_in(json: Seq<char>) -> TokenPayloadView;

/// The payload in which all four claims are present.
pub open spec fn complete_payload(claims: ClaimsView) -> TokenPayloadView {
    TokenPayloadView {
        sub: Some(claims.sub),
        permissions: Some(claims.permissions),
        exp: Some(claims.exp),
        iat: Some(claims.iat),
    }
}

/// Calls `jsonwebtoken::encode` with the default header, a JSON object of the
/// four claims and the key as an HMAC secret.
///
/// Assumed of it: with an HMAC key and the default header `encode` has
/// nothing to refuse, so a token comes back; the token is a function of key
/// and claims and is not empty (two dots stand in it); and
/// `jsonwebtoken::decode` takes that token under the same key and gives back
/// a body in which `serde_json` finds the same four claims.
#[verifier::external_body]
fn jwt_encode(secret: &[u8], claims: &Claims) -> (r: Option<String>)
    ensures
        r is Some,
        r matches Some(token) ==> token@ == jwt_encoded(secret@, claims.sub@, texts(claims.permissions@), claims.exp, claims.iat),
        r matches Some(token) ==> token@.len() > 0,
        r matches Some(token) ==> jwt_decoded(secret@, token@) is Ok,
        r matches Some(token) ==> claims_in(jwt_decoded(secret@, token@)->Ok_0) == complete_payload(claims@),
{
    let mut body = serde_json::Map::new();
    body.insert("sub".to_string(), serde_json::Value::from(claims.sub.clone()));
    body.insert("permissions".to_string(), serde_json::Value::from(claims.permissions.clone()));
    body.insert("exp".to_string(), serde_json::Value::from(claims.exp));
    body.insert("iat".to_string(), serde_json::Value::from(claims.iat));
    let key = jsonwebtoken::EncodingKey::from_secret(secret);
    jsonwebtoken::encode(&jsonwebtoken::Header::default(), &body, &key).ok()
}

/// Calls `jsonwebtoken::decode` with the key as an HMAC secret and the
/// default validation, but for the expiry, which is checked here against a
/// time that the caller gives. Of the errors of `decode` two are told apart,
/// `InvalidSignature` and `InvalidAlgorithm`; every other is a fault of the
/// structure.
///
/// Assumed of it: the result is a function of key and text.
#[verifier::external_body]
fn jwt_decode(secret: &[u8], token: &str) -> (r: Result<String, TokenFault>)
    ensures
        r is Ok <==> jwt_decoded(secret@, token@) is Ok,
        r matches Ok(json) ==> jwt_decoded(secret@, token@)->Ok_0 == json@,
        r matches Err(fault) ==> jwt_decoded(secret@, token@)->Err_0 == fault,
{
    let mut rules = jsonwebtoken::Validation::default();
    rules.validate_exp = false;
    rules.required_spec_claims.clear();
    let key = jsonwebtoken::DecodingKey::from_secret(secret);
    match jsonwebtoken::decode::<serde_json::Value>(token, &key, &rules) {
        Ok(data) => Ok(data.claims.to_string()),
        Err(e) => Err(match e.kind() {
            jsonwebtoken::errors::ErrorKind::InvalidSignature => TokenFault::Signature,
            jsonwebtoken::errors::ErrorKind::InvalidAlgorithm => TokenFault::Algorithm,
            _ => TokenFault::Structure,
        }),
    }
}

/// Calls `serde_json::from_str` and reads the four claims out of the value
/// with `as_str`, `as_array` and `as_i64`: a claim that is absent or of
/// another type is `None`.
///
/// Assumed of it: the result is a function of the text.
#[verifier::external_body]
fn read_claims(json: &str) -> (r: TokenPayload)
    ensures
        r@ == claims_in(json@),
{
    let c = serde_json::from_str::<serde_json::Value>(json).unwrap_or_default();
    let text = |v: &serde_json::Value| v.as_str().map(String::from);
    TokenPayload {
        sub: text(&c["sub"]),
        permissions: c["permissions"].as_array().and_then(|a| a.iter().map(text).collect()),
        exp: c["exp"].as_i64(),
        iat: c["iat"].as_i64(),
    }
}

/// The claims of an identity at `now`, for a token that lasts `lifetime`
/// seconds.
pub open spec fn issued_spec(
    sub: Seq<char>,
    permissions: Seq<Seq<char>>,
    now: i64,
    lifetime: u32,
) -> ClaimsView
    recommends
        now + lifetime <= i64::MAX,
{
    ClaimsView { sub, permissions, exp: (now + lifetime) as i64, iat: now }
}

/// What checking a payload at `now` gives: the claims if all four are there
/// and the expiry is still ahead.
pub open spec fn payload_spec(payload: TokenPayloadView, now: i64) -> Result<ClaimsView, AuthError> {
    if payload.sub is None || payload.permissions is None || payload.exp is None
        || payload.iat is None {
        Err(AuthError::Malformed)
    } else if now >= payload.exp->0 {
        Err(AuthError::Expired)
    } else {
        Ok(
            ClaimsView {
                sub: payload.sub->0,
                permissions: payload.permissions->0,
                exp: payload.exp->0,
                iat: payload.iat->0,
            },
        )
    }
}

/// What checking a decoded token at `now` gives: first the signature, then
/// the form, then the expiry.
pub open spec fn decoded_spec(decoded: Result<TokenPayloadView, TokenFault>, now: i64) -> Result<
    ClaimsView,
    AuthError,
> {
    match decoded {
        Err(TokenFault::Signature) => Err(AuthError::InvalidSignature),
        Err(TokenFault::Algorithm) => Err(AuthError::InvalidSignature),
        Err(TokenFault::Structure) => Err(AuthError::Malformed),
        Ok(payload) => payload_spec(payload, now),
    }
}

/// What checking the text `token` under `secret` at `now` gives.
pub open spec fn verify_spec(secret: Seq<u8>, token: Seq<char>, now: i64) -> Result<
    ClaimsView,
    AuthError,
> {
    decoded_spec(
        match jwt_decoded(secret, token) {
            Ok(json) => Ok(claims_in(json)),
            Err(fault) => Err(fault),
        },
        now,
    )
}

/// Whether `token` is the token of `claims` under `secret`: it is what the
/// signing makes of them, it is not empty, and checking it under the same key
/// gives the claims back at every time from the issue until the expiry.
pub open spec fn issued_token(secret: Seq<u8>, token: Seq<char>, claims: ClaimsView) -> bool {
    &&& token == jwt_encoded(secret, claims.sub, claims.permissions, claims.exp, claims.iat)
    &&& token.len() > 0
    &&& forall|later: i64|
        claims.iat <= later < claims.exp ==> #[trigger] verify_spec(secret, token, later) == Ok::<
            ClaimsView,
            AuthError,
        >(claims)
}

/// Whether the clock can read `now`.
pub open spec fn on_the_clock(now: i64) -> bool {
    -CLOCK_BOUND_SECONDS < now < CLOCK_BOUND_SECONDS
}

/// Claims are issued at `now` and expire no earlier.
pub proof fn issued_claims_span_the_issue(
    sub: Seq<char>,
    permissions: Seq<Seq<char>>,
    now: i64,
    lifetime: u32,
)
    requires
        now + lifetime <= i64::MAX,
    ensures
        issued_spec(sub, permissions, now, lifetime).iat == now,
        issued_spec(sub, permissions, now, lifetime).iat <= now <= issued_spec(
            sub,
            permissions,
            now,
            lifetime,
        ).exp,
        issued_spec(sub, permissions, now, lifetime).sub == sub,
        issued_spec(sub, permissions, now, lifetime).permissions == permissions,
{
}

/// A token whose expiry is not ahead of `now` is refused as expired, whatever
/// else its claims say.
pub proof fn expired_token_is_refused(secret: Seq<u8>, token: Seq<char>, now: i64)
    requires
        jwt_decoded(secret, token) is Ok,
        claims_in(jwt_decoded(secret, token)->Ok_0).sub is Some,
        claims_in(jwt_decoded(secret, token)->Ok_0).permissions is Some,
        claims_in(jwt_decoded(secret, token)->Ok_0).iat is Some,
        claims_in(jwt_decoded(secret, token)->Ok_0).exp matches Some(exp) && exp <= now,
    ensures
        verify_spec(secret, token, now) == Err::<ClaimsView, AuthError>(AuthError::Expired),
{
}

/// The claims behind a result, as text and numbers.
pub open spec fn claims_result_view(r: Result<Claims, AuthError>) -> Result<ClaimsView, AuthError> {
    match r {
        Ok(claims) => Ok(claims@),
        Err(e) => Err(e),
    }
}

/// The payload behind a result, as text and numbers.
pub open spec fn payload_result_view(r: Result<TokenPayload, TokenFault>) -> Result<
    TokenPayloadView,
    TokenFault,
> {
    match r {
        Ok(payload) => Ok(payload@),
        Err(fault) => Err(fault),
    }
}

/// Checks what was decoded from a token against the time `now`: a signature
/// that does not hold, under this key or for want of the right algorithm, is
/// `InvalidSignature`; a fault of the structure or a missing claim is
/// `Malformed`; an expiry at or before `now` is `Expired`.
pub fn check_decoded(decoded: Result<TokenPayload, TokenFault>, now: i64) -> (r: Result<
    Claims,
    AuthError,
>)
    ensures
        claims_result_view(r) == decoded_spec(payload_result_view(decoded), now),
{
    match decoded {
        Err(TokenFault::Signature) => Err(AuthError::InvalidSignature),
        Err(TokenFault::Algorithm) => Err(AuthError::InvalidSignature),
        Err(TokenFault::Structure) => Err(AuthError::Malformed),
        Ok(payload) => {
            let TokenPayload { sub, permissions, exp, iat } = payload;
            match (sub, permissions, exp, iat) {
                (Some(sub), Some(permissions), Some(exp), Some(iat)) => {
                    if now >= exp {
                        Err(AuthError::Expired)
                    } else {
                        Ok(Claims { sub, permissions, exp, iat })
                    }
                },
                _ => Err(AuthError::Malformed),
            }
        },
    }
}

/// The answer to a login for which a token was or was not signed.
pub fn bearer_response(signed: Option<String>) -> (r: Result<LoginResponse, SigningError>)
    ensures
        match signed {
            Some(token) => r matches Ok(response) && response.access_token@ == token@
                && response.token_type@ == "Bearer"@,
            None => r == Err::<LoginResponse, SigningError>(SigningError {  }),
        },
{
    match signed {
        Some(token) => Ok(LoginResponse { access_token: token, token_type: "Bearer".to_owned() }),
        None => Err(SigningError {  }),
    }
}

impl Claims {
    /// The claims of `sub` with `permissions`, made at `now` for `lifetime`
    /// seconds.
    pub fn issued_at(sub: &String, permissions: &Vec<String>, now: i64, lifetime: u32) -> (r:
        Claims)
        requires
            now + lifetime <= i64::MAX,
        ensures
            r@ == issued_spec(sub@, texts(permissions@), now, lifetime),
    {
        Claims {
            sub: sub.clone(),
            permissions: copy_texts(permissions),
            exp: now + lifetime as i64,
            iat: now,
        }
    }

    /// The claims of `sub` with `permissions`, made now for 24 hours.
    pub fn new(sub: &String, permissions: &Vec<String>) -> (r: Claims)
        ensures
            r@ == issued_spec(sub@, texts(permissions@), r.iat, JWT_EXPIRATION_SECONDS),
            on_the_clock(r.iat),
    {
        Claims::issued_at(sub, permissions, unix_seconds(), JWT_EXPIRATION_SECONDS)
    }

    /// Signs a token for the identity at `now`. A token always comes back:
    /// it carries the identity's id and roles and nothing else of it, was
    /// issued at `now`, and is accepted under the same key at every time from
    /// `now` until it expires.
    pub fn create_jwt_token_at(context: &SigningContext, auth: &Auth, now: i64) -> (r: Result<
        LoginResponse,
        SigningError,
    >)
        requires
            now + context.lifetime() <= i64::MAX,
        ensures
            r matches Ok(response) && response.token_type@ == "Bearer"@ && issued_token(
                context.secret(),
                response.access_token@,
                issued_spec(auth.id@, texts(auth.roles@), now, context.lifetime()),
            ),
    {
        let claims = Claims::issued_at(&auth.id, &auth.roles, now, context.lifetime);
        bearer_response(jwt_encode(context.secret.as_slice(), &claims))
    }

    /// Signs a token for the identity at the time that the clock reads.
    pub fn create_jwt_token(context: &SigningContext, auth: &Auth) -> (r: Result<
        LoginResponse,
        SigningError,
    >)
        ensures
            r matches Ok(response) && response.token_type@ == "Bearer"@ && exists|now: i64|
                on_the_clock(now) && #[trigger] issued_token(
                    context.secret(),
                    response.access_token@,
                    issued_spec(auth.id@, texts(auth.roles@), now, context.lifetime()),
                ),
    {
        let now = unix_seconds();
        Claims::create_jwt_token_at(context, auth, now)
    }

    /// Checks a token at `now`: the signature first, then the form, then the
    /// expiry.
    pub fn decode_jwt_at(context: &SigningContext, token: &str, now: i64) -> (r: Result<
        Claims,
        AuthError,
    >)
        ensures
            claims_result_view(r) == verify_spec(context.secret(), token@, now),
    {
        match jwt_decode(context.secret.as_slice(), token) {
            Ok(json) => check_decoded(Ok(read_claims(json.as_str())), now),
            Err(fault) => check_decoded(Err(fault), now),
        }
    }

    /// Checks a token at the time that the clock reads. A token whose expiry
    /// lies beyond every time that the clock can read is never refused as
    /// expired.
    pub fn decode_jwt(context: &SigningContext, token: &str) -> (r: Result<Claims, AuthError>)
        ensures
            exists|now: i64|
                on_the_clock(now) && claims_result_view(r) == #[trigger] verify_spec(
                    context.secret(),
                    token@,
                    now,
                ),
    {
        let now = unix_seconds();
        Claims::decode_jwt_at(context, token, now)
    }
}

} // verus!
