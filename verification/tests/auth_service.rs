use auth_core::auth_service::{
    auth_login, auth_register, check_email, create_user, create_user_with, fetch_by_email, login,
    login_at, login_reply, registered, Registration,
};
use auth_core::claims::{Claims, SigningContext, SigningError};
use auth_core::error::{ApiErrorType, FieldError, StoreError};
use auth_core::hasher::{HashParams, Hasher};
use auth_core::model::Auth;
use auth_core::request::{LoginRequest, LoginResponse, RegisterRequest, RegisterResponse, Reply};

fn hasher() -> Hasher {
    Hasher::new(HashParams { mem_cost: 64, time_cost: 1, lanes: 1, hash_length: 32 }).unwrap()
}

fn context() -> SigningContext {
    SigningContext::new(b"service key".to_vec())
}

fn request(email: &str, password: &str) -> RegisterRequest {
    RegisterRequest {
        email: email.to_string(),
        first_name: "Ada".to_string(),
        last_name: "Byron".to_string(),
        password: password.to_string(),
    }
}

fn credentials(email: &str, password: &str) -> LoginRequest {
    LoginRequest { email: email.to_string(), password: password.to_string() }
}

/// The identities that a test keeps in place of the store.
fn count(store: &Vec<Auth>, email: &str) -> Result<u64, StoreError> {
    Ok(store.iter().filter(|a| a.email == email).count() as u64)
}

fn find(store: &Vec<Auth>, email: &str) -> Result<Option<Auth>, StoreError> {
    Ok(store.iter().find(|a| a.email == email).cloned())
}

/// A whole registration against the store of the test.
fn register(store: &mut Vec<Auth>, req: RegisterRequest) -> Result<Reply<RegisterResponse>, ApiErrorType> {
    let valid = auth_register(req)?;
    let counted = count(store, valid.email());
    match create_user(&hasher(), valid, counted)? {
        Registration::AlreadyExists(reply) => Ok(reply),
        Registration::Insert(identity) => {
            store.push(identity);
            registered(Ok(()))
        }
    }
}

fn sign_in(store: &Vec<Auth>, req: &LoginRequest) -> Result<LoginResponse, ApiErrorType> {
    auth_login(req)?;
    login(&context(), req, find(store, &req.email))
}

#[test]
fn register_then_login() {
    let mut store = Vec::new();
    let reply = register(&mut store, request("a@b.com", "longenoughpassword1")).unwrap();
    assert_eq!(reply.status, 201);
    assert_eq!(reply.body.status, "Success");
    assert_eq!(reply.body.message, "User registered successfully");
    assert_eq!(store.len(), 1);

    let response = sign_in(&store, &credentials("a@b.com", "longenoughpassword1")).unwrap();
    assert_eq!(response.token_type, "Bearer");
    let claims = Claims::decode_jwt(&context(), &response.access_token).unwrap();
    assert_eq!(claims.sub, store[0].id);
    assert_eq!(claims.permissions, vec!["ROLE_USER".to_string()]);
}

#[test]
fn duplicate_registration() {
    let mut store = Vec::new();
    register(&mut store, request("a@b.com", "longenoughpassword1")).unwrap();
    let second = register(&mut store, request("a@b.com", "anotherlongpassword")).unwrap();
    assert_eq!(
        second,
        Reply {
            status: 400,
            body: RegisterResponse {
                status: "Failed".to_string(),
                message: "User already exists with email".to_string(),
            },
        }
    );
    assert_eq!(store.len(), 1);
    // the first password still holds, the second never did
    assert!(sign_in(&store, &credentials("a@b.com", "longenoughpassword1")).is_ok());
    assert_eq!(
        sign_in(&store, &credentials("a@b.com", "anotherlongpassword")),
        Err(ApiErrorType::InvalidCredential)
    );
}

#[test]
fn same_password_is_stored_under_different_hashes() {
    let mut store = Vec::new();
    register(&mut store, request("a@b.com", "longenoughpassword1")).unwrap();
    register(&mut store, request("c@d.com", "longenoughpassword1")).unwrap();
    assert_eq!(store.len(), 2);
    assert_ne!(store[0].password_hash, store[1].password_hash);
    assert_ne!(store[0].id, store[1].id);
    assert_eq!(Hasher::verify(b"longenoughpassword1", &store[0].password_hash), Ok(true));
    assert_eq!(Hasher::verify(b"longenoughpassword1", &store[1].password_hash), Ok(true));
    // the salt is the fifth part of the record: 16 bytes are 22 characters
    let salt_of = |record: &str| record.split('$').nth(4).unwrap().to_string();
    assert_eq!(salt_of(&store[0].password_hash).len(), 22);
    assert_ne!(salt_of(&store[0].password_hash), salt_of(&store[1].password_hash));
}

#[test]
fn unknown_email_and_wrong_password_are_answered_alike() {
    let mut store = Vec::new();
    register(&mut store, request("a@b.com", "longenoughpassword1")).unwrap();
    let unknown = sign_in(&store, &credentials("x@y.com", "longenoughpassword1")).unwrap_err();
    let wrong = sign_in(&store, &credentials("a@b.com", "longenoughpassword2")).unwrap_err();
    assert_eq!(unknown, ApiErrorType::InvalidCredential);
    assert_eq!(unknown, wrong);
    assert_eq!(unknown.status_code(), 401);
    assert_eq!(unknown.status_code(), wrong.status_code());
    assert_eq!(
        unknown.error_response_at("2024-01-02T03:04:05.000006Z".to_string()),
        wrong.error_response_at("2024-01-02T03:04:05.000006Z".to_string())
    );
}

#[test]
fn new_identity_is_an_active_user() {
    let made = create_user_with(
        &hasher(),
        auth_register(request("a@b.com", "longenoughpassword1")).unwrap(),
        Ok(0),
        "V1StGXR8_Z5jdHi6B-myT".to_string(),
        b"0123456789abcdef",
        1_700_000_000_123,
    )
    .unwrap();
    let record = hasher().hash(b"longenoughpassword1", b"0123456789abcdef").unwrap();
    assert_eq!(
        made,
        Registration::Insert(Auth {
            id: "V1StGXR8_Z5jdHi6B-myT".to_string(),
            email: "a@b.com".to_string(),
            first_name: "Ada".to_string(),
            last_name: "Byron".to_string(),
            password_hash: record,
            roles: vec!["ROLE_USER".to_string()],
            active: true,
            reset_password: false,
            created_ts: 1_700_000_000_123,
            updated_ts: 1_700_000_000_123,
        })
    );
}

#[test]
fn password_is_stored_as_its_hash_only() {
    let valid = auth_register(request("a@b.com", "longenoughpassword1")).unwrap();
    let made = create_user(&hasher(), valid, Ok(0)).unwrap();
    match made {
        Registration::Insert(identity) => {
            assert!(!identity.password_hash.is_empty());
            assert!(identity.password_hash.starts_with("$argon2id$v=19$m=64,t=1,p=1$"));
            assert!(!identity.password_hash.contains("longenoughpassword1"));
            assert_eq!(identity.id.chars().count(), 21);
            assert_eq!(identity.created_ts, identity.updated_ts);
            assert!(identity.created_ts > 1_600_000_000_000);
            assert_eq!(identity.roles, vec!["ROLE_USER".to_string()]);
            assert!(identity.active);
            assert!(!identity.reset_password);
        }
        other => panic!("{:?}", other),
    }
}

#[test]
fn taken_email_is_answered_without_hashing() {
    // a salt that no hash would take shows that none was made
    let made = create_user_with(
        &hasher(),
        auth_register(request("a@b.com", "longenoughpassword1")).unwrap(),
        Ok(2),
        "id".to_string(),
        b"",
        0,
    )
    .unwrap();
    match made {
        Registration::AlreadyExists(reply) => {
            assert_eq!(reply.status, 400);
            assert_eq!(reply.body.status, "Failed");
        }
        other => panic!("{:?}", other),
    }
}

#[test]
fn store_failure_is_an_internal_error() {
    let failed = Err(StoreError {});
    let valid = auth_register(request("a@b.com", "longenoughpassword1")).unwrap();
    assert_eq!(create_user(&hasher(), valid, failed), Err(ApiErrorType::InternalServerError));
    assert_eq!(registered(Err(StoreError {})), Err(ApiErrorType::InternalServerError));
    assert_eq!(
        login(&context(), &credentials("a@b.com", "longenoughpassword1"), Err(StoreError {})),
        Err(ApiErrorType::InternalServerError)
    );
    assert_eq!(check_email(Err(StoreError {})), Err(ApiErrorType::InternalServerError));
    assert_eq!(fetch_by_email(Err(StoreError {})), Err(ApiErrorType::InternalServerError));
}

#[test]
fn hasher_failure_is_an_internal_error() {
    let made = create_user_with(
        &hasher(),
        auth_register(request("a@b.com", "longenoughpassword1")).unwrap(),
        Ok(0),
        "id".to_string(),
        b"short salt",
        0,
    );
    assert_eq!(made, Err(ApiErrorType::InternalServerError));
}

#[test]
fn unreadable_record_is_an_internal_error() {
    let mut store = Vec::new();
    register(&mut store, request("a@b.com", "longenoughpassword1")).unwrap();
    store[0].password_hash = "longenoughpassword1".to_string();
    assert_eq!(
        sign_in(&store, &credentials("a@b.com", "longenoughpassword1")),
        Err(ApiErrorType::InternalServerError)
    );
}

#[test]
fn email_is_free_where_none_was_counted() {
    assert_eq!(check_email(Ok(0)), Ok(true));
    assert_eq!(check_email(Ok(1)), Ok(false));
    assert_eq!(check_email(Ok(u64::MAX)), Ok(false));
}

#[test]
fn found_identity_is_handed_on() {
    assert_eq!(fetch_by_email(Ok(None)), Ok(None));
    let mut store = Vec::new();
    register(&mut store, request("a@b.com", "longenoughpassword1")).unwrap();
    assert_eq!(fetch_by_email(Ok(Some(store[0].clone()))), Ok(Some(store[0].clone())));
}

#[test]
fn registered_answers_created() {
    assert_eq!(
        registered(Ok(())),
        Ok(Reply {
            status: 201,
            body: RegisterResponse {
                status: "Success".to_string(),
                message: "User registered successfully".to_string(),
            },
        })
    );
}

#[test]
fn login_at_a_given_time_issues_for_that_time() {
    let mut store = Vec::new();
    register(&mut store, request("a@b.com", "longenoughpassword1")).unwrap();
    let req = credentials("a@b.com", "longenoughpassword1");
    let response = login_at(&context(), &req, find(&store, "a@b.com"), 1_700_000_000).unwrap();
    let claims = Claims::decode_jwt_at(&context(), &response.access_token, 1_700_000_000).unwrap();
    assert_eq!(claims.iat, 1_700_000_000);
    assert_eq!(claims.exp, 1_700_086_400);
    assert_eq!(claims.sub, store[0].id);
    assert_eq!(
        response,
        Claims::create_jwt_token_at(&context(), &store[0], 1_700_000_000).unwrap()
    );
}

#[test]
fn signing_failure_is_an_authentication_error() {
    assert_eq!(login_reply(Err(SigningError {})), Err(ApiErrorType::AuthenticationError));
    let response =
        LoginResponse { access_token: "t".to_string(), token_type: "Bearer".to_string() };
    assert_eq!(login_reply(Ok(response.clone())), Ok(response));
}

#[test]
fn registration_lists_every_failing_field() {
    let bad = RegisterRequest {
        email: "not an email".to_string(),
        first_name: "".to_string(),
        last_name: "B".to_string(),
        password: "short".to_string(),
    };
    assert_eq!(
        auth_register(bad.clone()),
        Err(ApiErrorType::ValidationError {
            validation_error: vec![
                FieldError {
                    field: "email".to_string(),
                    rejected_value: "not an email".to_string(),
                    message: "email must be valid email".to_string(),
                },
                FieldError {
                    field: "first_name".to_string(),
                    rejected_value: "".to_string(),
                    message: "first name length between 1 and 50".to_string(),
                },
                FieldError {
                    field: "last_name".to_string(),
                    rejected_value: "B".to_string(),
                    message: "last name length between 2 and 50".to_string(),
                },
                FieldError {
                    field: "password".to_string(),
                    rejected_value: "short".to_string(),
                    message: "password is required and must be at least 12 characters".to_string(),
                },
            ],
            object: "RegisterRequest".to_string(),
        })
    );
    assert_eq!(auth_register(bad).unwrap_err().status_code(), 422);
}

#[test]
fn registration_with_one_failing_field_lists_it_alone() {
    let bad = request("a@b.com", "elevenchars");
    match auth_register(bad) {
        Err(ApiErrorType::ValidationError { validation_error, object }) => {
            assert_eq!(object, "RegisterRequest");
            assert_eq!(validation_error.len(), 1);
            assert_eq!(validation_error[0].field, "password");
        }
        other => panic!("{:?}", other),
    }
    let kept = auth_register(request("a@b.com", "twelve chars")).unwrap();
    assert_eq!(kept.email(), "a@b.com");
}

#[test]
fn refused_registration_stores_nothing() {
    let mut store = Vec::new();
    assert!(register(&mut store, request("nobody", "longenoughpassword1")).is_err());
    assert!(store.is_empty());
}

#[test]
fn login_request_is_held_to_its_rules() {
    assert_eq!(auth_login(&credentials("a@b.com", "longenoughpassword1")), Ok(()));
    assert_eq!(
        auth_login(&credentials("a@b", "short")),
        Err(ApiErrorType::ValidationError {
            validation_error: vec![FieldError {
                field: "password".to_string(),
                rejected_value: "short".to_string(),
                message: "password is required and must be at least 12 characters".to_string(),
            }],
            object: "LoginRequest".to_string(),
        })
    );
    match auth_login(&credentials("", "")) {
        Err(ApiErrorType::ValidationError { validation_error, .. }) => {
            assert_eq!(validation_error.len(), 2);
            assert_eq!(validation_error[0].field, "email");
            assert_eq!(validation_error[1].field, "password");
        }
        other => panic!("{:?}", other),
    }
}
