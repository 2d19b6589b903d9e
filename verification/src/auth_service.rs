//! Registration and login. The store is asked by the caller; each function
//! here takes what the store answered and decides what happens next.

use crate::claims::{
    issued_spec, issued_token, jwt_encoded, on_the_clock, Claims, SigningContext, SigningError,
};
use crate::clock::{unix_millis, unix_seconds, CLOCK_BOUND_MILLIS};
use crate::entropy::{fresh_id, fresh_salt};
use crate::error::{field_errors_view, ApiErrorType, StoreError};
use crate::hasher::{hash_spec, verify_spec, HashError, HashParams, Hasher};
use crate::model::{Auth, AuthView};
use crate::request::{LoginRequest, LoginResponse, RegisterRequest, RegisterResponse, Reply};
use crate::text::{texts, utf8};
use vstd::prelude::*;
use vstd::string::*;

verus! {

/// A registration request that keeps every rule of its fields. There is no
/// way to one but through `auth_register`, and no way to a new identity but
/// through one.
#[derive(Debug, PartialEq, Eq)]
pub struct ValidRegistration {
    request: RegisterRequest,
}

impl ValidRegistration {
    #[verifier::type_invariant]
    spec fn keeps_its_rules(&self) -> bool {
        self.request.violations().len() == 0
    }

    /// The request as it was sent.
    pub closed spec fn request(&self) -> RegisterRequest {
        self.request
    }

    /// The email to ask the store about.
    pub fn email(&self) -> (r: &String)
        ensures
            r@ == self.request().email@,
    {
        &self.request.email
    }
}

/// What a registration that was not refused asks of the caller.
#[derive(Debug, Clone, PartialEq, Eq)]
pub enum Registration {
    /// The email is taken: answer with this, and store nothing.
    AlreadyExists(Reply<RegisterResponse>),
    /// Store this identity, then answer with what `registered` makes of the
    /// outcome.
    Insert(Auth),
}

/// The identity that a registration makes: the role `ROLE_USER`, active, no
/// reset pending, made and last changed at `now`.
pub open spec fn new_identity_spec(
    email: Seq<char>,
    first_name: Seq<char>,
    last_name: Seq<char>,
    id: Seq<char>,
    record: Seq<char>,
    now: i64,
) -> AuthView {
    AuthView {
        id,
        email,
        first_name,
        last_name,
        password_hash: record,
        roles: seq!["ROLE_USER"@],
        active: true,
        reset_password: false,
        created_ts: now,
        updated_ts: now,
    }
}

/// Why a login is refused before any token is signed, if it is: a store that
/// failed or a record that cannot be read is an internal error; an email that
/// is not known and a password that does not match are the same
/// `InvalidCredential`.
pub open spec fn login_refusal(found: Result<Option<AuthView>, StoreError>, password: Seq<u8>) -> Option<
    ApiErrorType,
> {
    match found {
        Err(_) => Some(ApiErrorType::InternalServerError),
        Ok(None) => Some(ApiErrorType::InvalidCredential),
        Ok(Some(identity)) => match verify_spec(password, identity.password_hash) {
            Err(_) => Some(ApiErrorType::InternalServerError),
            Ok(false) => Some(ApiErrorType::InvalidCredential),
            Ok(true) => None,
        },
    }
}

/// What a login at `now` gives: the refusal, if there is one; else the token
/// that is signed for the identity.
pub open spec fn login_spec(
    secret: Seq<u8>,
    lifetime: u32,
    found: Result<Option<AuthView>, StoreError>,
    password: Seq<u8>,
    now: i64,
) -> Result<Seq<char>, ApiErrorType> {
    match login_refusal(found, password) {
        Some(e) => Err(e),
        None => {
            let claims = issued_spec(found->Ok_0->0.id, found->Ok_0->0.roles, now, lifetime);
            Ok(jwt_encoded(secret, claims.sub, claims.permissions, claims.exp, claims.iat))
        },
    }
}

/// Whether `r` is what the second step of a registration gives for the
/// identifier, the salt and the time: an internal error where the store could
/// not count or the password could not be hashed; the answer `Failed` where the
/// email is taken; else the identity to store, whose record is not empty, is
/// not the password and accepts the password. A record that came out equal to
/// the password would not be stored: that is an internal error too.
pub open spec fn registered_as(
    r: Result<Registration, ApiErrorType>,
    params: HashParams,
    request: RegisterRequest,
    count: Result<u64, StoreError>,
    id: Seq<char>,
    salt: Seq<u8>,
    now: i64,
) -> bool {
    match count {
        Err(_) => r == Err::<Registration, ApiErrorType>(ApiErrorType::InternalServerError),
        Ok(n) => if n > 0 {
            r matches Ok(Registration::AlreadyExists(reply)) && reply.status == 400
                && reply.body.status@ == "Failed"@ && reply.body.message@
                == "User already exists with email"@
        } else {
            match hash_spec(params, utf8(request.password@), salt) {
                Err(_) => r == Err::<Registration, ApiErrorType>(ApiErrorType::InternalServerError),
                Ok(record) => if record == request.password@ {
                    r == Err::<Registration, ApiErrorType>(ApiErrorType::InternalServerError)
                } else {
                    r matches Ok(Registration::Insert(identity)) && identity@ == new_identity_spec(
                        request.email@,
                        request.first_name@,
                        request.last_name@,
                        id,
                        record,
                        now,
                    ) && identity.password_hash@.len() > 0 && identity.password_hash@
                        != request.password@ && verify_spec(
                        utf8(request.password@),
                        identity.password_hash@,
                    ) == Ok::<bool, HashError>(true)
                },
            }
        },
    }
}

/// What the store found, as text and numbers.
pub open spec fn found_view(found: Result<Option<Auth>, StoreError>) -> Result<
    Option<AuthView>,
    StoreError,
> {
    match found {
        Err(e) => Err(e),
        Ok(None) => Ok(None),
        Ok(Some(identity)) => Ok(Some(identity@)),
    }
}

/// The first step of a registration: the request is held to its rules, and
/// refused with every field that breaks one.
pub fn auth_register(register_user: RegisterRequest) -> (r: Result<ValidRegistration, ApiErrorType>)
    ensures
        register_user.violations().len() == 0 <==> r is Ok,
        r matches Ok(valid) ==> valid.request() == register_user,
        r matches Err(e) ==> e matches ApiErrorType::ValidationError { validation_error, object }
            && field_errors_view(validation_error@) == register_user.violations() && object@
            == "RegisterRequest"@,
{
    let errors = register_user.validate();
    assert(field_errors_view(errors@).len() == errors@.len());
    if errors.len() == 0 {
        Ok(ValidRegistration { request: register_user })
    } else {
        Err(
            ApiErrorType::ValidationError {
                validation_error: errors,
                object: "RegisterRequest".to_owned(),
            },
        )
    }
}

/// The first step of a login: the request is held to its rules, and refused
/// with every field that breaks one.
pub fn auth_login(login_user: &LoginRequest) -> (r: Result<(), ApiErrorType>)
    ensures
        login_user.violations().len() == 0 <==> r is Ok,
        r matches Err(e) ==> e matches ApiErrorType::ValidationError { validation_error, object }
            && field_errors_view(validation_error@) == login_user.violations() && object@
            == "LoginRequest"@,
{
    let errors = login_user.validate();
    if errors.len() == 0 {
        Ok(())
    } else {
        Err(
            ApiErrorType::ValidationError {
                validation_error: errors,
                object: "LoginRequest".to_owned(),
            },
        )
    }
}

/// Whether an email is free, from the number of identities that the store
/// counted with it. A store that failed is an internal error.
pub fn check_email(count: Result<u64, StoreError>) -> (r: Result<bool, ApiErrorType>)
    ensures
        match count {
            Ok(n) => r == Ok::<bool, ApiErrorType>(n == 0),
            Err(_) => r == Err::<bool, ApiErrorType>(ApiErrorType::InternalServerError),
        },
{
    match count {
        Ok(n) => Ok(n == 0),
        Err(_) => Err(ApiErrorType::InternalServerError),
    }
}

/// The second step of a registration, with the identifier, the salt and the
/// time given: if the email is taken the request is answered as failed and
/// nothing is hashed; else the password is hashed and the identity to store
/// is made. The password goes nowhere but into the hash. Whatever comes of
/// it, the request kept every rule of its fields.
pub fn create_user_with(
    hasher: &Hasher,
    register_user: ValidRegistration,
    count: Result<u64, StoreError>,
    id: String,
    salt: &[u8],
    now: i64,
) -> (r: Result<Registration, ApiErrorType>)
    ensures
        register_user.request().violations().len() == 0,
        registered_as(r, hasher.params(), register_user.request(), count, id@, salt@, now),
{
    proof {
        use_type_invariant(&register_user);
    }
    match check_email(count) {
        Err(e) => Err(e),
        Ok(false) => Ok(
            Registration::AlreadyExists(
                Reply {
                    status: 400,
                    body: RegisterResponse {
                        status: "Failed".to_owned(),
                        message: "User already exists with email".to_owned(),
                    },
                },
            ),
        ),
        Ok(true) => {
            let request = register_user.request;
            match hasher.hash(request.password.as_str().as_bytes(), salt) {
                Err(_) => Err(ApiErrorType::InternalServerError),
                Ok(record) => {
                    if record == request.password {
                        return Err(ApiErrorType::InternalServerError);
                    }
                    let mut roles: Vec<String> = Vec::new();
                    roles.push("ROLE_USER".to_owned());
                    assert(texts(roles@) =~= seq!["ROLE_USER"@]);
                    Ok(
                        Registration::Insert(
                            Auth {
                                id,
                                first_name: request.first_name,
                                last_name: request.last_name,
                                email: request.email,
                                roles,
                                active: true,
                                reset_password: false,
                                password_hash: record,
                                created_ts: now,
                                updated_ts: now,
                            },
                        ),
                    )
                },
            }
        },
    }
}

/// The second step of a registration, with a fresh identifier of 21
/// characters, a fresh random salt of 16 bytes and the time that the clock
/// reads.
pub fn create_user(
    hasher: &Hasher,
    register_user: ValidRegistration,
    count: Result<u64, StoreError>,
) -> (r: Result<Registration, ApiErrorType>)
    ensures
        register_user.request().violations().len() == 0,
        exists|id: Seq<char>, salt: Seq<u8>, now: i64|
            id.len() == 21 && salt.len() == 16 && -CLOCK_BOUND_MILLIS < now < CLOCK_BOUND_MILLIS
                && #[trigger] registered_as(
                r,
                hasher.params(),
                register_user.request(),
                count,
                id,
                salt,
                now,
            ),
{
    let id = fresh_id();
    let salt = fresh_salt();
    let now = unix_millis();
    create_user_with(hasher, register_user, count, id, salt.as_slice(), now)
}

/// The last step of a registration: the answer to the client once the store
/// has taken the identity, or not.
pub fn registered(inserted: Result<(), StoreError>) -> (r: Result<
    Reply<RegisterResponse>,
    ApiErrorType,
>)
    ensures
        match inserted {
            Ok(_) => r matches Ok(reply) && reply.status == 201 && reply.body.status@ == "Success"@
                && reply.body.message@ == "User registered successfully"@,
            Err(_) => r == Err::<Reply<RegisterResponse>, ApiErrorType>(
                ApiErrorType::InternalServerError,
            ),
        },
{
    match inserted {
        Ok(_) => Ok(
            Reply {
                status: 201,
                body: RegisterResponse {
                    status: "Success".to_owned(),
                    message: "User registered successfully".to_owned(),
                },
            },
        ),
        Err(_) => Err(ApiErrorType::InternalServerError),
    }
}

/// What the store found for an email, or the internal error that stands for
/// its failure.
pub fn fetch_by_email(found: Result<Option<Auth>, StoreError>) -> (r: Result<
    Option<Auth>,
    ApiErrorType,
>)
    ensures
        match found {
            Ok(identity) => r == Ok::<Option<Auth>, ApiErrorType>(identity),
            Err(_) => r == Err::<Option<Auth>, ApiErrorType>(ApiErrorType::InternalServerError),
        },
{
    match found {
        Ok(identity) => Ok(identity),
        Err(_) => Err(ApiErrorType::InternalServerError),
    }
}

/// The answer to a login whose credentials held, from what the signing gave.
pub fn login_reply(issued: Result<LoginResponse, SigningError>) -> (r: Result<
    LoginResponse,
    ApiErrorType,
>)
    ensures
        match issued {
            Ok(response) => r == Ok::<LoginResponse, ApiErrorType>(response),
            Err(_) => r == Err::<LoginResponse, ApiErrorType>(ApiErrorType::AuthenticationError),
        },
{
    match issued {
        Ok(response) => Ok(response),
        Err(_) => Err(ApiErrorType::AuthenticationError),
    }
}

/// Whether `r` is what a login at `now` gives: the refusal, if there is one;
/// else a bearer token that carries the identity's id and roles, was issued at
/// `now` and is accepted under the same key until it expires.
pub open spec fn logged_in_as(
    r: Result<LoginResponse, ApiErrorType>,
    secret: Seq<u8>,
    lifetime: u32,
    found: Result<Option<AuthView>, StoreError>,
    password: Seq<u8>,
    now: i64,
) -> bool {
    match login_spec(secret, lifetime, found, password, now) {
        Ok(token) => r matches Ok(response) && response.access_token@ == token
            && response.token_type@ == "Bearer"@ && issued_token(
            secret,
            token,
            issued_spec(found->Ok_0->0.id, found->Ok_0->0.roles, now, lifetime),
        ),
        Err(e) => r == Err::<LoginResponse, ApiErrorType>(e),
    }
}

/// A login at `now`, from what the store found for the email: the password
/// is checked against the stored record, and for the right one a token is
/// signed that carries the identity's id and roles.
pub fn login_at(
    context: &SigningContext,
    login_request: &LoginRequest,
    found: Result<Option<Auth>, StoreError>,
    now: i64,
) -> (r: Result<LoginResponse, ApiErrorType>)
    requires
        now + context.lifetime() <= i64::MAX,
    ensures
        logged_in_as(
            r,
            context.secret(),
            context.lifetime(),
            found_view(found),
            utf8(login_request.password@),
            now,
        ),
{
    match fetch_by_email(found) {
        Err(e) => Err(e),
        Ok(None) => Err(ApiErrorType::InvalidCredential),
        Ok(Some(identity)) => {
            match Hasher::verify(
                login_request.password.as_str().as_bytes(),
                identity.password_hash.as_str(),
            ) {
                Err(_) => Err(ApiErrorType::InternalServerError),
                Ok(false) => Err(ApiErrorType::InvalidCredential),
                Ok(true) => login_reply(Claims::create_jwt_token_at(context, &identity, now)),
            }
        },
    }
}

/// A login at the time that the clock reads.
pub fn login(
    context: &SigningContext,
    login_request: &LoginRequest,
    found: Result<Option<Auth>, StoreError>,
) -> (r: Result<LoginResponse, ApiErrorType>)
    ensures
        exists|now: i64|
            on_the_clock(now) && #[trigger] logged_in_as(
                r,
                context.secret(),
                context.lifetime(),
                found_view(found),
                utf8(login_request.password@),
                now,
            ),
{
    let now = unix_seconds();
    login_at(context, login_request, found, now)
}

/// A login with the password that the stored record accepts is answered with
/// a token, at every time.
pub proof fn right_password_yields_token(
    secret: Seq<u8>,
    lifetime: u32,
    identity: AuthView,
    password: Seq<u8>,
    now: i64,
)
    requires
        verify_spec(password, identity.password_hash) == Ok::<bool, HashError>(true),
    ensures
        login_spec(secret, lifetime, Ok(Some(identity)), password, now) is Ok,
{
}

/// A login with a password that the stored record does not accept is refused
/// with `InvalidCredential`, and no token is made.
pub proof fn refused_password_yields_no_token(
    secret: Seq<u8>,
    lifetime: u32,
    identity: AuthView,
    password: Seq<u8>,
    now: i64,
)
    requires
        verify_spec(password, identity.password_hash) == Ok::<bool, HashError>(false),
    ensures
        login_spec(secret, lifetime, Ok(Some(identity)), password, now) == Err::<
            Seq<char>,
            ApiErrorType,
        >(ApiErrorType::InvalidCredential),
{
}

/// A login with an email that is not known and a login with a known email
/// and a password that does not match are refused alike: with the same
/// error, and so with the same status and, at the same time, the same body.
pub proof fn unknown_email_and_wrong_password_alike(
    identity: AuthView,
    password: Seq<u8>,
    other_password: Seq<u8>,
    time: Seq<char>,
)
    requires
        verify_spec(password, identity.password_hash) == Ok::<bool, HashError>(false),
    ensures
        login_refusal(Ok(None), other_password) == login_refusal(Ok(Some(identity)), password),
        login_refusal(Ok(None), other_password) == Some(ApiErrorType::InvalidCredential),
        login_refusal(Ok(None), other_password)->0.status_code_spec() == login_refusal(
            Ok(Some(identity)),
            password,
        )->0.status_code_spec(),
        login_refusal(Ok(None), other_password)->0.error_body_spec(time) == login_refusal(
            Ok(Some(identity)),
            password,
        )->0.error_body_spec(time),
{
}

} // verus!
