//! The errors that the HTTP API answers with.

use vstd::prelude::*;
use vstd::string::*;

use crate::couchdb::error::Error as CouchError;
use crate::oauth::error::{Error as OAuthError, ErrorKind};

verus! {

/// An error of the HTTP API.
#[derive(Debug)]
pub enum ApiError {
    BadRequest(String),
    BlockingError(String),
    Conflict(String),
    Forbidden(String),
    InternalServerError(String),
    NotFound(String),
    ValidationError(Vec<String>),
    Unauthorized(String),
    ServiceUnavailable(String),
}

/// The abstract value of an [`ApiError`].
pub enum ApiErrorView {
    BadRequest(Seq<char>),
    BlockingError(Seq<char>),
    Conflict(Seq<char>),
    Forbidden(Seq<char>),
    InternalServerError(Seq<char>),
    NotFound(Seq<char>),
    ValidationError(Seq<Seq<char>>),
    Unauthorized(Seq<char>),
    ServiceUnavailable(Seq<char>),
}

impl View for ApiError {
    type V = ApiErrorView;

    open spec fn view(&self) -> ApiErrorView {
        match self {
            ApiError::BadRequest(m) => ApiErrorView::BadRequest(m@),
            ApiError::BlockingError(m) => ApiErrorView::BlockingError(m@),
            ApiError::Conflict(m) => ApiErrorView::Conflict(m@),
            ApiError::Forbidden(m) => ApiErrorView::Forbidden(m@),
            ApiError::InternalServerError(m) => ApiErrorView::InternalServerError(m@),
            ApiError::NotFound(m) => ApiErrorView::NotFound(m@),
            ApiError::ValidationError(ms) => ApiErrorView::ValidationError(ms.deep_view()),
            ApiError::Unauthorized(m) => ApiErrorView::Unauthorized(m@),
            ApiError::ServiceUnavailable(m) => ApiErrorView::ServiceUnavailable(m@),
        }
    }
}

/// The HTTP status of an error.
pub open spec fn api_status(e: ApiErrorView) -> u16 {
    match e {
        ApiErrorView::BadRequest(_) => 400,
        ApiErrorView::Conflict(_) => 409,
        ApiErrorView::Forbidden(_) => 403,
        ApiErrorView::NotFound(_) => 404,
        ApiErrorView::ValidationError(_) => 400,
        ApiErrorView::Unauthorized(_) => 401,
        ApiErrorView::ServiceUnavailable(_) => 503,
        _ => 500,
    }
}

/// The status that the answer to an error is sent with; a validation error
/// is answered as unprocessable (422), though its body names the status of
/// a bad request.
pub open spec fn reply_status(e: ApiErrorView) -> u16 {
    match e {
        ApiErrorView::ValidationError(_) => 422,
        _ => api_status(e),
    }
}

/// The reasons that the answer to an error lists; `None` for the errors
/// answered with an empty body.
pub open spec fn reply_reasons(e: ApiErrorView) -> Option<Seq<Seq<char>>> {
    match e {
        ApiErrorView::BadRequest(m) => Some(seq![m]),
        ApiErrorView::Conflict(m) => Some(seq![m]),
        ApiErrorView::Forbidden(m) => Some(seq![m]),
        ApiErrorView::NotFound(m) => Some(seq![m]),
        ApiErrorView::ValidationError(ms) => Some(ms),
        ApiErrorView::Unauthorized(m) => Some(seq![m]),
        ApiErrorView::ServiceUnavailable(m) => Some(seq![m]),
        _ => None,
    }
}

/// The API error that an OAuth error is answered with, keeping its
/// description.
pub open spec fn oauth_api_error(kind: ErrorKind, message: Seq<char>) -> ApiErrorView {
    match kind {
        ErrorKind::AccessDenied => ApiErrorView::Forbidden(message),
        ErrorKind::InvalidClient => ApiErrorView::Unauthorized(message),
        ErrorKind::ServerError => ApiErrorView::InternalServerError(message),
        ErrorKind::Unknown => ApiErrorView::InternalServerError(message),
        ErrorKind::TemporarilyUnavailable => ApiErrorView::ServiceUnavailable(message),
        _ => ApiErrorView::BadRequest(message),
    }
}

/// The API error that a failed request to the store is answered with,
/// keeping its message.
pub open spec fn couch_api_error(status: u16, message: Seq<char>) -> ApiErrorView {
    if status == 409 {
        ApiErrorView::Conflict(message)
    } else if status == 404 {
        ApiErrorView::NotFound(message)
    } else {
        ApiErrorView::InternalServerError(message)
    }
}

/// The standard reason phrase of an HTTP status, if it has one.
pub uninterp spec fn status_reason(code: u16) -> Option<Seq<char>>;

/// Calls `http::StatusCode::from_u16` and `canonical_reason`: the standard
/// reason phrase of the status (such as "Not Found" for 404), if it has one;
/// none for a number that is no status (outside 100 to 999). The contract
/// names the phrase and does not list the table of phrases.
#[verifier::external_body]
fn canonical_reason(code: u16) -> (r: Option<String>)
    ensures
        r.deep_view() == status_reason(code),
{
    match http::StatusCode::from_u16(code) {
        Ok(status) => match status.canonical_reason() {
            Some(reason) => Some(String::from(reason)),
            None => None,
        },
        Err(_) => None,
    }
}

/// The body of the answer to an error: the reason phrase of its status,
/// and the reasons it was refused for.
#[derive(Debug)]
pub struct ErrorResponse {
    error: String,
    reasons: Vec<String>,
}

/// The abstract value of an [`ErrorResponse`].
pub struct ErrorResponseView {
    pub error: Seq<char>,
    pub reasons: Seq<Seq<char>>,
}

impl View for ErrorResponse {
    type V = ErrorResponseView;

    closed spec fn view(&self) -> ErrorResponseView {
        ErrorResponseView { error: self.error@, reasons: self.reasons.deep_view() }
    }
}

/// The text an error body names its status with: the standard reason
/// phrase, else "Internal Server Error".
pub open spec fn status_title(code: u16) -> Seq<char> {
    match status_reason(code) {
        Some(reason) => reason,
        None => "Internal Server Error"@,
    }
}

impl ErrorResponse {
    /// The body naming the given status, with the given reasons.
    pub fn new(status: u16, reasons: Vec<String>) -> (r: ErrorResponse)
        ensures
            r@.error == status_title(status),
            r@.reasons == reasons.deep_view(),
    {
        let error = match canonical_reason(status) {
            Some(reason) => reason,
            None => String::from_str("Internal Server Error"),
        };
        ErrorResponse { error, reasons }
    }

    /// The title of the body.
    pub fn error(&self) -> (r: &String)
        ensures
            r@ == self@.error,
    {
        &self.error
    }

    /// The reasons listed in the body.
    pub fn reasons(&self) -> (r: &Vec<String>)
        ensures
            r.deep_view() == self@.reasons,
    {
        &self.reasons
    }
}

/// The answer to an error: its HTTP status and, but for internal errors,
/// a body.
#[derive(Debug)]
pub struct ErrorReply {
    pub status: u16,
    pub body: Option<ErrorResponse>,
}

/// A copy of a list of texts.
fn copy_texts(v: &Vec<String>) -> (r: Vec<String>)
    ensures
        r.deep_view() == v.deep_view(),
{
    let mut out: Vec<String> = Vec::new();
    let mut i: usize = 0;
    while i < v.len()
        invariant
            i <= v.len(),
            out.deep_view() == v.deep_view().take(i as int),
        decreases v.len() - i,
    {
        let ghost before = out.deep_view();
        let t = v[i].clone();
        out.push(t);
        assert(out.deep_view() =~= before.push(v[i as int]@));
        assert(v.deep_view().take(i + 1) =~= v.deep_view().take(i as int).push(v.deep_view()[i as int]));
        i = i + 1;
    }
    assert(v.deep_view().take(v.len() as int) =~= v.deep_view());
    out
}

impl ApiError {
    /// The error of a request without valid credentials.
    pub fn unauthorized() -> (r: ApiError)
        ensures
            r@ == ApiErrorView::Unauthorized("unauthorized"@),
    {
        ApiError::Unauthorized(String::from_str("unauthorized"))
    }

    /// The HTTP status of the error.
    pub fn status_code(&self) -> (r: u16)
        ensures
            r == api_status(self@),
    {
        match self {
            ApiError::BadRequest(_) => 400,
            ApiError::Conflict(_) => 409,
            ApiError::Forbidden(_) => 403,
            ApiError::NotFound(_) => 404,
            ApiError::ValidationError(_) => 400,
            ApiError::Unauthorized(_) => 401,
            ApiError::ServiceUnavailable(_) => 503,
            _ => 500,
        }
    }

    /// The answer to the error: its status and, but for internal errors, a
    /// body titled with the error's status that lists its reasons.
    pub fn error_response(&self) -> (r: ErrorReply)
        ensures
            r.status == reply_status(self@),
            match reply_reasons(self@) {
                Some(reasons) => r.body matches Some(b) && b@.error == status_title(api_status(self@))
                    && b@.reasons == reasons,
                None => r.body is None,
            },
    {
        let status = self.status_code();
        match self {
            ApiError::ValidationError(errors) => ErrorReply {
                status: 422,
                body: Some(ErrorResponse::new(status, copy_texts(errors))),
            },
            ApiError::BadRequest(m) | ApiError::Conflict(m) | ApiError::Forbidden(m) | ApiError::NotFound(m)
            | ApiError::Unauthorized(m) | ApiError::ServiceUnavailable(m) => {
                let reasons = vec![m.clone()];
                proof {
                    assert(reasons.deep_view() =~= seq![m@]);
                }
                ErrorReply { status, body: Some(ErrorResponse::new(status, reasons)) }
            },
            _ => ErrorReply { status: 500, body: None },
        }
    }

    /// The message of the error; empty for a validation error.
    pub fn to_string(&self) -> (r: String)
        ensures
            r@ == match self@ {
                ApiErrorView::ValidationError(_) => Seq::<char>::empty(),
                ApiErrorView::BadRequest(m) => m,
                ApiErrorView::BlockingError(m) => m,
                ApiErrorView::Conflict(m) => m,
                ApiErrorView::Forbidden(m) => m,
                ApiErrorView::InternalServerError(m) => m,
                ApiErrorView::NotFound(m) => m,
                ApiErrorView::Unauthorized(m) => m,
                ApiErrorView::ServiceUnavailable(m) => m,
            },
    {
        match self {
            ApiError::ValidationError(_) => String::new(),
            ApiError::BadRequest(m) | ApiError::BlockingError(m) | ApiError::Conflict(m) | ApiError::Forbidden(m)
            | ApiError::InternalServerError(m) | ApiError::NotFound(m) | ApiError::Unauthorized(m)
            | ApiError::ServiceUnavailable(m) => m.clone(),
        }
    }

    /// The API error that an OAuth error is answered with.
    pub fn from_oauth(err: OAuthError) -> (r: ApiError)
        ensures
            r@ == oauth_api_error(err@.kind, err@.description),
    {
        let message = err.description().to_string();
        match err.kind() {
            ErrorKind::AccessDenied => ApiError::Forbidden(message),
            ErrorKind::InvalidClient => ApiError::Unauthorized(message),
            ErrorKind::ServerError | ErrorKind::Unknown => ApiError::InternalServerError(message),
            ErrorKind::TemporarilyUnavailable => ApiError::ServiceUnavailable(message),
            _ => ApiError::BadRequest(message),
        }
    }

    /// The API error that a failed request to the store is answered with.
    pub fn from_couch(err: CouchError) -> (r: ApiError)
        ensures
            r@ == couch_api_error(err@.status, err@.message),
    {
        let message = err.to_string();
        let status = err.status();
        if status == 409 {
            ApiError::Conflict(message)
        } else if status == 404 {
            ApiError::NotFound(message)
        } else {
            ApiError::InternalServerError(message)
        }
    }

    /// The API error that a malformed URL is answered with: a bad request
    /// that tells what the parser found wrong.
    pub fn from_parse_error(message: String) -> (r: ApiError)
        ensures
            r@ == ApiErrorView::BadRequest(message@),
    {
        ApiError::BadRequest(message)
    }
}

impl From<OAuthError> for ApiError {
    fn from(err: OAuthError) -> (r: ApiError)
        ensures
            r@ == oauth_api_error(err@.kind, err@.description),
    {
        ApiError::from_oauth(err)
    }
}

impl vstd::std_specs::convert::FromSpecImpl<OAuthError> for ApiError {
    open spec fn obeys_from_spec() -> bool {
        false
    }

    open spec fn from_spec(v: OAuthError) -> ApiError {
        arbitrary()
    }
}

impl From<CouchError> for ApiError {
    fn from(err: CouchError) -> (r: ApiError)
        ensures
            r@ == couch_api_error(err@.status, err@.message),
    {
        ApiError::from_couch(err)
    }
}

impl vstd::std_specs::convert::FromSpecImpl<CouchError> for ApiError {
    open spec fn obeys_from_spec() -> bool {
        false
    }

    open spec fn from_spec(v: CouchError) -> ApiError {
        arbitrary()
    }
}

/// Every error is answered with the status it names, but a validation
/// error, which is answered as unprocessable; only internal errors and
/// blocking errors go without a body, and those are answered with 500.
pub proof fn lemma_reply_status(e: ApiErrorView)
    ensures
        reply_status(e) == api_status(e) || (e is ValidationError && reply_status(e) == 422),
        reply_reasons(e) is None <==> (e is InternalServerError || e is BlockingError),
        reply_reasons(e) is None ==> reply_status(e) == 500,
        400 <= reply_status(e) <= 599,
{
}

/// An OAuth error is answered with a client error, but for the server's
/// own errors and unavailability, and keeps its description.
pub proof fn lemma_oauth_error_status(kind: ErrorKind, message: Seq<char>)
    ensures
        api_status(oauth_api_error(kind, message)) == match kind {
            ErrorKind::AccessDenied => 403u16,
            ErrorKind::InvalidClient => 401u16,
            ErrorKind::ServerError => 500u16,
            ErrorKind::Unknown => 500u16,
            ErrorKind::TemporarilyUnavailable => 503u16,
            _ => 400u16,
        },
        reply_reasons(oauth_api_error(kind, message)) == (if kind == ErrorKind::ServerError || kind
            == ErrorKind::Unknown {
            None
        } else {
            Some(seq![message])
        }),
{
}

} // verus!
