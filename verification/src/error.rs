//! The error taxonomy: every failure of the service is one `ApiErrorType`,
//! and every `ApiErrorType` has one status, one message and one response body.

use crate::clock::rfc3339_now;
use vstd::prelude::*;

verus! {

/// One rejected field of a request: which field, the value that was refused
/// and the reason.
#[derive(Debug, Clone, PartialEq, Eq)]
pub struct FieldError {
    pub field: String,
    pub rejected_value: String,
    pub message: String,
}

/// What a `FieldError` holds, as text.
pub struct FieldErrorView {
    pub field: Seq<char>,
    pub rejected_value: Seq<char>,
    pub message: Seq<char>,
}

impl View for FieldError {
    type V = FieldErrorView;

    open spec fn view(&self) -> FieldErrorView {
        FieldErrorView {
            field: self.field@,
            rejected_value: self.rejected_value@,
            message: self.message@,
        }
    }
}

/// What a list of field errors holds.
pub open spec fn field_errors_view(list: Seq<FieldError>) -> Seq<FieldErrorView> {
    list.map_values(|e: FieldError| e@)
}

/// Why a token or a login was refused. The three token faults stay apart
/// here, though a client sees one `AuthenticationError` for all of them.
#[derive(Debug, Clone, Copy, PartialEq, Eq, Structural)]
pub enum AuthError {
    /// No identity with that email, or the password does not match.
    InvalidCredentials,
    /// The token was not signed with this service's key.
    InvalidSignature,
    /// The token's time is over.
    Expired,
    /// The token is not a token of this service in its form.
    Malformed,
}

/// The store behind the service failed. What went wrong there stays there.
#[derive(Debug, Clone, Copy, PartialEq, Eq, Structural)]
pub struct StoreError {}

/// Every failure the service reports.
#[derive(Debug, Clone, PartialEq, Eq)]
pub enum ApiErrorType {
    InternalServerError,
    BadRequest,
    UserNotFound,
    AuthenticationError,
    AuthorizationError,
    InvalidCredential,
    ValidationError { validation_error: Vec<FieldError>, object: String },
}

/// One entry of an error body: a rejected field of the named object.
#[derive(Debug, Clone, PartialEq, Eq)]
pub struct ValidationError {
    pub object: String,
    pub field: String,
    pub rejected_value: String,
    pub message: String,
}

/// What a `ValidationError` holds, as text.
pub struct ValidationErrorView {
    pub object: Seq<char>,
    pub field: Seq<char>,
    pub rejected_value: Seq<char>,
    pub message: Seq<char>,
}

impl View for ValidationError {
    type V = ValidationErrorView;

    open spec fn view(&self) -> ValidationErrorView {
        ValidationErrorView {
            object: self.object@,
            field: self.field@,
            rejected_value: self.rejected_value@,
            message: self.message@,
        }
    }
}

/// The body of every error response.
#[derive(Debug, Clone, PartialEq, Eq)]
pub struct ApiError {
    pub status: u16,
    pub time: String,
    pub message: String,
    pub debug_message: Option<String>,
    pub sub_errors: Vec<ValidationError>,
}

/// What an `ApiError` holds, as text.
pub struct ApiErrorView {
    pub status: u16,
    pub time: Seq<char>,
    pub message: Seq<char>,
    pub debug_message: Option<Seq<char>>,
    pub sub_errors: Seq<ValidationErrorView>,
}

impl View for ApiError {
    type V = ApiErrorView;

    open spec fn view(&self) -> ApiErrorView {
        ApiErrorView {
            status: self.status,
            time: self.time@,
            message: self.message@,
            debug_message: match self.debug_message {
                Some(text) => Some(text@),
                None => None,
            },
            sub_errors: self.sub_errors@.map_values(|e: ValidationError| e@),
        }
    }
}

impl AuthError {
    /// The error a client is shown: bad credentials as such, every token fault
    /// as the one `AuthenticationError`.
    pub open spec fn api_error_spec(&self) -> ApiErrorType {
        match self {
            AuthError::InvalidCredentials => ApiErrorType::InvalidCredential,
            AuthError::InvalidSignature => ApiErrorType::AuthenticationError,
            AuthError::Expired => ApiErrorType::AuthenticationError,
            AuthError::Malformed => ApiErrorType::AuthenticationError,
        }
    }

    pub fn api_error(&self) -> (r: ApiErrorType)
        ensures
            r == self.api_error_spec(),
    {
        match self {
            AuthError::InvalidCredentials => ApiErrorType::InvalidCredential,
            AuthError::InvalidSignature => ApiErrorType::AuthenticationError,
            AuthError::Expired => ApiErrorType::AuthenticationError,
            AuthError::Malformed => ApiErrorType::AuthenticationError,
        }
    }
}

impl ApiErrorType {
    /// The text for operators.
    pub open spec fn debug_message_spec(&self) -> Seq<char> {
        match self {
            ApiErrorType::InternalServerError => "Internal server error. Please try again later."@,
            ApiErrorType::BadRequest => "Bad request. Missing parameter or wrong payload."@,
            ApiErrorType::UserNotFound => "User not found for given ID"@,
            ApiErrorType::AuthenticationError => "User not authenticated. Please reauthenticate and try again."@,
            ApiErrorType::AuthorizationError => "User not authorized to access this resource."@,
            ApiErrorType::InvalidCredential => "Invalid credentials. Check the email and the password."@,
            ApiErrorType::ValidationError { .. } => "Validation error"@,
        }
    }

    /// The text for clients.
    pub open spec fn message_spec(&self) -> Seq<char> {
        match self {
            ApiErrorType::InternalServerError => "Internal server error. Try again after some time."@,
            ApiErrorType::BadRequest => "Bad request."@,
            ApiErrorType::UserNotFound => "User not found for the given ID"@,
            ApiErrorType::AuthenticationError => "Authentication error."@,
            ApiErrorType::AuthorizationError => "Authorization error."@,
            ApiErrorType::InvalidCredential => "Invalid credentials."@,
            ApiErrorType::ValidationError { .. } => "Validation error on field"@,
        }
    }

    /// The name of the kind, for programs that read the error.
    pub open spec fn kind_spec(&self) -> Seq<char> {
        match self {
            ApiErrorType::InternalServerError => "InternalServerError"@,
            ApiErrorType::BadRequest => "BadRequest"@,
            ApiErrorType::UserNotFound => "UserNotFound"@,
            ApiErrorType::AuthenticationError => "AuthenticationError"@,
            ApiErrorType::AuthorizationError => "AuthorizationError"@,
            ApiErrorType::InvalidCredential => "InvalidCredential"@,
            ApiErrorType::ValidationError { .. } => "ValidationError"@,
        }
    }

    /// The HTTP status.
    pub open spec fn status_code_spec(&self) -> u16 {
        match self {
            ApiErrorType::InternalServerError => 500,
            ApiErrorType::BadRequest => 400,
            ApiErrorType::UserNotFound => 404,
            ApiErrorType::AuthenticationError => 401,
            ApiErrorType::AuthorizationError => 403,
            ApiErrorType::InvalidCredential => 401,
            ApiErrorType::ValidationError { .. } => 422,
        }
    }

    /// One entry for each rejected field, in the order in which they were
    /// found; empty for every other kind of error.
    pub open spec fn sub_errors_spec(&self) -> Seq<ValidationErrorView> {
        match self {
            ApiErrorType::ValidationError { validation_error, object } => Seq::new(
                validation_error@.len(),
                |i: int|
                    ValidationErrorView {
                        object: object@,
                        field: validation_error@[i].field@,
                        rejected_value: validation_error@[i].rejected_value@,
                        message: validation_error@[i].message@,
                    },
            ),
            _ => Seq::empty(),
        }
    }

    /// The whole body of the response that reports this error at `time`.
    pub open spec fn error_body_spec(&self, time: Seq<char>) -> ApiErrorView {
        ApiErrorView {
            status: self.status_code_spec(),
            time,
            message: self.message_spec(),
            debug_message: Some(self.debug_message_spec()),
            sub_errors: self.sub_errors_spec(),
        }
    }

    pub fn debug_message(&self) -> (r: String)
        ensures
            r@ == self.debug_message_spec(),
    {
        match self {
            ApiErrorType::InternalServerError => {
                "Internal server error. Please try again later.".to_owned()
            },
            ApiErrorType::BadRequest => {
                "Bad request. Missing parameter or wrong payload.".to_owned()
            },
            ApiErrorType::UserNotFound => "User not found for given ID".to_owned(),
            ApiErrorType::AuthenticationError => {
                "User not authenticated. Please reauthenticate and try again.".to_owned()
            },
            ApiErrorType::AuthorizationError => {
                "User not authorized to access this resource.".to_owned()
            },
            ApiErrorType::InvalidCredential => {
                "Invalid credentials. Check the email and the password.".to_owned()
            },
            ApiErrorType::ValidationError { .. } => "Validation error".to_owned(),
        }
    }

    pub fn message(&self) -> (r: String)
        ensures
            r@ == self.message_spec(),
    {
        match self {
            ApiErrorType::InternalServerError => {
                "Internal server error. Try again after some time.".to_owned()
            },
            ApiErrorType::BadRequest => "Bad request.".to_owned(),
            ApiErrorType::UserNotFound => "User not found for the given ID".to_owned(),
            ApiErrorType::AuthenticationError => "Authentication error.".to_owned(),
            ApiErrorType::AuthorizationError => "Authorization error.".to_owned(),
            ApiErrorType::InvalidCredential => "Invalid credentials.".to_owned(),
            ApiErrorType::ValidationError { .. } => "Validation error on field".to_owned(),
        }
    }

    pub fn kind(&self) -> (r: String)
        ensures
            r@ == self.kind_spec(),
    {
        match self {
            ApiErrorType::InternalServerError => "InternalServerError".to_owned(),
            ApiErrorType::BadRequest => "BadRequest".to_owned(),
            ApiErrorType::UserNotFound => "UserNotFound".to_owned(),
            ApiErrorType::AuthenticationError => "AuthenticationError".to_owned(),
            ApiErrorType::AuthorizationError => "AuthorizationError".to_owned(),
            ApiErrorType::InvalidCredential => "InvalidCredential".to_owned(),
            ApiErrorType::ValidationError { .. } => "ValidationError".to_owned(),
        }
    }

    pub fn status_code(&self) -> (r: u16)
        ensures
            r == self.status_code_spec(),
    {
        match self {
            ApiErrorType::InternalServerError => 500,
            ApiErrorType::BadRequest => 400,
            ApiErrorType::UserNotFound => 404,
            ApiErrorType::AuthenticationError => 401,
            ApiErrorType::AuthorizationError => 403,
            ApiErrorType::InvalidCredential => 401,
            ApiErrorType::ValidationError { .. } => 422,
        }
    }

    /// The entries of the body's list of rejected fields.
    pub fn sub_errors(&self) -> (r: Vec<ValidationError>)
        ensures
            r@.map_values(|e: ValidationError| e@) == self.sub_errors_spec(),
    {
        let mut out: Vec<ValidationError> = Vec::new();
        match self {
            ApiErrorType::ValidationError { validation_error, object } => {
                let mut i: usize = 0;
                while i < validation_error.len()
                    invariant
                        i <= validation_error.len(),
                        out@.len() == i,
                        forall|k: int|
                            0 <= k < i ==> (#[trigger] out@[k])@ == (ValidationErrorView {
                                object: object@,
                                field: validation_error@[k].field@,
                                rejected_value: validation_error@[k].rejected_value@,
                                message: validation_error@[k].message@,
                            }),
                    decreases validation_error.len() - i,
                {
                    let found = &validation_error[i];
                    out.push(
                        ValidationError {
                            object: object.clone(),
                            field: found.field.clone(),
                            rejected_value: found.rejected_value.clone(),
                            message: found.message.clone(),
                        },
                    );
                    i = i + 1;
                }
                assert(out@.map_values(|e: ValidationError| e@) =~= self.sub_errors_spec());
            },
            _ => {
                assert(out@.map_values(|e: ValidationError| e@) =~= self.sub_errors_spec());
            },
        }
        out
    }

    /// The body of the response that reports this error at `time`.
    pub fn error_response_at(&self, time: String) -> (r: ApiError)
        ensures
            r@ == self.error_body_spec(time@),
    {
        ApiError {
            status: self.status_code(),
            time,
            message: self.message(),
            debug_message: Some(self.debug_message()),
            sub_errors: self.sub_errors(),
        }
    }

    /// The body of the response that reports this error now. Everything but
    /// the time is fixed by the kind of error.
    pub fn error_response(&self) -> (r: ApiError)
        ensures
            r@ == self.error_body_spec(r.time@),
    {
        self.error_response_at(rfc3339_now())
    }
}

/// Why the JSON payload of a request could not be taken.
#[derive(Debug, Clone, Copy, PartialEq, Eq, Structural)]
pub enum JsonPayloadFault {
    /// The content type is not JSON.
    ContentType,
    /// The JSON was read, but its data does not fit the request.
    DeserializeData,
    /// Anything else: no JSON, a body too large, a broken stream.
    Other,
}

impl JsonPayloadFault {
    pub open spec fn status_spec(&self) -> u16 {
        match self {
            JsonPayloadFault::ContentType => 415,
            JsonPayloadFault::DeserializeData => 422,
            JsonPayloadFault::Other => 400,
        }
    }

    pub open spec fn message_spec(&self) -> Seq<char> {
        match self {
            JsonPayloadFault::ContentType => "Unsupported media type"@,
            JsonPayloadFault::DeserializeData => "Unprocessable payload"@,
            JsonPayloadFault::Other => "Bad request. Missing parameter and / or wrong payload."@,
        }
    }

    /// The body that reports this fault at `time`, with `detail` for operators.
    pub open spec fn body_spec(&self, detail: Seq<char>, time: Seq<char>) -> ApiErrorView {
        ApiErrorView {
            status: self.status_spec(),
            time,
            message: self.message_spec(),
            debug_message: Some(detail),
            sub_errors: Seq::empty(),
        }
    }
}

/// The body of the response to a payload that could not be taken, at `time`.
pub fn json_error_body(fault: JsonPayloadFault, detail: String, time: String) -> (r: ApiError)
    ensures
        r@ == fault.body_spec(detail@, time@),
{
    let (status, message) = match fault {
        JsonPayloadFault::ContentType => (415u16, "Unsupported media type".to_owned()),
        JsonPayloadFault::DeserializeData => (422u16, "Unprocessable payload".to_owned()),
        JsonPayloadFault::Other => (
            400u16,
            "Bad request. Missing parameter and / or wrong payload.".to_owned(),
        ),
    };
    let r = ApiError {
        status,
        time,
        message,
        debug_message: Some(detail),
        sub_errors: Vec::new(),
    };
    assert(r@.sub_errors =~= Seq::empty());
    r
}

/// The body of the response to a payload that could not be taken, now.
pub fn json_error_handler(fault: JsonPayloadFault, detail: String) -> (r: ApiError)
    ensures
        r@ == fault.body_spec(detail@, r.time@),
{
    json_error_body(fault, detail, rfc3339_now())
}

} // verus!
