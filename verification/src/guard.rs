//! The request guard: it takes the bearer token of a request, checks it, and
//! decides from the signed claims alone what the request may do. The identity
//! store is never asked.

use crate::claims::{
    claims_result_view, on_the_clock, verify_spec, Claims, ClaimsView, SigningContext,
};
use crate::clock::unix_seconds;
use crate::error::{ApiErrorType, AuthError};
use crate::text::{same_text, texts};
use vstd::prelude::*;
use vstd::string::*;

verus! {

/// The token of an `Authorization` header: what follows `Bearer` and one
/// space, if anything does.
pub open spec fn bearer_spec(header: Seq<char>) -> Option<Seq<char>> {
    if header.len() >= 8 && header.subrange(0, 7) == "Bearer "@ {
        Some(header.subrange(7, header.len() as int))
    } else {
        None
    }
}

/// Whether `permissions` holds the role: the role's name behind `ROLE_`.
pub open spec fn role_granted(permissions: Seq<Seq<char>>, role: Seq<char>) -> bool {
    permissions.contains("ROLE_"@ + role)
}

/// Whether `permissions` holds one of the roles.
pub open spec fn any_role_granted(permissions: Seq<Seq<char>>, roles: Seq<Seq<char>>) -> bool {
    exists|i: int| 0 <= i < roles.len() && role_granted(permissions, #[trigger] roles[i])
}

/// What the guard makes of a request's `Authorization` header at `now`: a
/// request without a bearer token is refused as malformed, every other one
/// goes by its token.
pub open spec fn authenticate_spec(secret: Seq<u8>, header: Option<Seq<char>>, now: i64) -> Result<
    ClaimsView,
    AuthError,
> {
    match header {
        None => Err(AuthError::Malformed),
        Some(text) => match bearer_spec(text) {
            None => Err(AuthError::Malformed),
            Some(token) => verify_spec(secret, token, now),
        },
    }
}

/// Calls `RolesCheck::has_any_role` of `actix_web_grants` on an `AuthDetails`
/// with the permissions.
///
/// Assumed of it, as its source has it: a role is held where a permission
/// equals `ROLE_` followed by the role's name, and the answer is whether one
/// of the roles is held.
#[verifier::external_body]
fn has_any_role(permissions: &Vec<String>, roles: &Vec<String>) -> (r: bool)
    ensures
        r == any_role_granted(texts(permissions@), texts(roles@)),
{
    let names: Vec<&str> = roles.iter().map(|role| role.as_str()).collect();
    let details = actix_web_grants::permissions::AuthDetails::new(permissions.clone());
    actix_web_grants::permissions::RolesCheck::has_any_role(&details, &names[..])
}

/// The token of an `Authorization` header.
pub fn bearer_token(header: &str) -> (r: Option<String>)
    ensures
        match r {
            Some(token) => bearer_spec(header@) == Some(token@),
            None => bearer_spec(header@) is None,
        },
{
    proof {
        reveal_strlit("Bearer ");
    }
    let n = header.unicode_len();
    if n < 8 {
        return None;
    }
    let scheme = header.substring_char(0, 7);
    if !same_text(scheme, "Bearer ") {
        return None;
    }
    Some(header.substring_char(7, n).to_owned())
}

/// Whether the permissions of a token hold one of the roles; without one the
/// request is refused with `AuthorizationError`.
pub fn authorize(permissions: &Vec<String>, roles: &Vec<String>) -> (r: Result<(), ApiErrorType>)
    ensures
        any_role_granted(texts(permissions@), texts(roles@)) ==> r is Ok,
        !any_role_granted(texts(permissions@), texts(roles@)) ==> r == Err::<(), ApiErrorType>(
            ApiErrorType::AuthorizationError,
        ),
{
    if has_any_role(permissions, roles) {
        Ok(())
    } else {
        Err(ApiErrorType::AuthorizationError)
    }
}

/// Checks the `Authorization` header of a request at `now` and gives the
/// claims of its token.
pub fn authenticate_at(context: &SigningContext, authorization: Option<&str>, now: i64) -> (r:
    Result<Claims, AuthError>)
    ensures
        claims_result_view(r) == authenticate_spec(
            context.secret(),
            match authorization {
                Some(text) => Some(text@),
                None => None,
            },
            now,
        ),
{
    match authorization {
        None => Err(AuthError::Malformed),
        Some(text) => match bearer_token(text) {
            None => Err(AuthError::Malformed),
            Some(token) => Claims::decode_jwt_at(context, token.as_str(), now),
        },
    }
}

/// Checks a bearer token at `now` and gives the permissions that the request
/// carries from then on.
pub fn validator_at(context: &SigningContext, token: &str, now: i64) -> (r: Result<
    Vec<String>,
    AuthError,
>)
    ensures
        match r {
            Ok(permissions) => verify_spec(context.secret(), token@, now) is Ok && texts(
                permissions@,
            ) == verify_spec(context.secret(), token@, now)->Ok_0.permissions,
            Err(e) => verify_spec(context.secret(), token@, now) == Err::<ClaimsView, AuthError>(e),
        },
{
    match Claims::decode_jwt_at(context, token, now) {
        Ok(claims) => Ok(claims.permissions),
        Err(e) => Err(e),
    }
}

/// Checks a bearer token at the time that the clock reads and gives the
/// permissions that the request carries from then on.
pub fn validator(context: &SigningContext, token: &str) -> (r: Result<Vec<String>, AuthError>)
    ensures
        exists|now: i64|
            on_the_clock(now) && match r {
                Ok(permissions) => #[trigger] verify_spec(context.secret(), token@, now) is Ok
                    && texts(permissions@) == verify_spec(
                    context.secret(),
                    token@,
                    now,
                )->Ok_0.permissions,
                Err(e) => verify_spec(context.secret(), token@, now) == Err::<ClaimsView, AuthError>(
                    e,
                ),
            },
{
    let now = unix_seconds();
    validator_at(context, token, now)
}

/// The whole guard at `now`: a request whose token does not hold is refused
/// with the error that a client is shown for it, one whose token holds none
/// of the roles with `AuthorizationError`; every other request passes with
/// its claims.
pub fn guard_at(
    context: &SigningContext,
    authorization: Option<&str>,
    roles: &Vec<String>,
    now: i64,
) -> (r: Result<Claims, ApiErrorType>)
    ensures
        ({
            let checked = authenticate_spec(
                context.secret(),
                match authorization {
                    Some(text) => Some(text@),
                    None => None,
                },
                now,
            );
            match checked {
                Err(e) => r == Err::<Claims, ApiErrorType>(e.api_error_spec()),
                Ok(claims) => if any_role_granted(claims.permissions, texts(roles@)) {
                    r matches Ok(passed) && passed@ == claims
                } else {
                    r == Err::<Claims, ApiErrorType>(ApiErrorType::AuthorizationError)
                },
            }
        }),
{
    match authenticate_at(context, authorization, now) {
        Err(e) => Err(e.api_error()),
        Ok(claims) => match authorize(&claims.permissions, roles) {
            Ok(()) => Ok(claims),
            Err(e) => Err(e),
        },
    }
}

} // verus!
