use vstd::prelude::*;
use vstd::string::*;

verus! {

/// The ways a client request can fail.
#[derive(Debug, Clone, Copy, PartialEq, Eq, Structural)]
pub enum ErrorType {
    /// No route or resource matches the request.
    NotFound,
    /// The schema and the engine disagree; never the client's fault.
    Internal,
    /// The request body is malformed, incomplete or ill-typed.
    BadRequest,
    /// The path exists but not for the request's verb.
    MethodNotAllowed,
}

/// An error with its kind and the message shown to the client.
#[derive(Debug)]
pub struct AppError {
    pub err_type: ErrorType,
    pub message: String,
}

/// The uniform error payload: the HTTP status number and a message.
#[derive(Debug)]
pub struct ErrorMessage {
    pub code: u16,
    pub message: String,
}

/// The mathematical content of an `AppError`.
pub struct ErrorModel {
    pub kind: ErrorType,
    pub message: Seq<char>,
}

impl View for AppError {
    type V = ErrorModel;

    open spec fn view(&self) -> ErrorModel {
        ErrorModel { kind: self.err_type, message: self.message@ }
    }
}

/// The error that `check` gives for an empty option.
pub open spec fn not_found_internal() -> ErrorModel {
    ErrorModel { kind: ErrorType::Internal, message: "err: value not found (internal)"@ }
}

/// Whether a returned result is what an outcome says, value for value and
/// error for error.
pub open spec fn is_outcome<T: View>(r: Result<T, AppError>, outcome: Result<T::V, ErrorModel>) -> bool {
    match r {
        Ok(v) => outcome == Ok::<T::V, ErrorModel>(v@),
        Err(e) => outcome == Err::<T::V, ErrorModel>(e@),
    }
}

/// Status of every successful operation.
pub const ACCEPTED: u16 = 202;

/// Largest request body, in bytes, that is parsed at all.
pub const BODY_LIMIT: u64 = 1024 * 16;

/// The HTTP status number of each error kind.
pub open spec fn status_of(kind: ErrorType) -> u16 {
    match kind {
        ErrorType::NotFound => 404,
        ErrorType::Internal => 500,
        ErrorType::BadRequest => 400,
        ErrorType::MethodNotAllowed => 405,
    }
}

impl AppError {
    /// Constructs a new error from the provided information.
    pub fn new(err_type: ErrorType, message: String) -> (e: Self)
        ensures
            e.err_type == err_type,
            e.message == message,
    {
        AppError { err_type, message }
    }

    /// An `Internal` error with the given message.
    pub fn internal(message: &str) -> (e: Self)
        ensures
            e.err_type == ErrorType::Internal,
            e.message@ == message@,
    {
        AppError { err_type: ErrorType::Internal, message: String::from_str(message) }
    }

    /// A `BadRequest` error with the given message.
    pub fn bad_request(message: String) -> (e: Self)
        ensures
            e.err_type == ErrorType::BadRequest,
            e.message == message,
    {
        AppError { err_type: ErrorType::BadRequest, message }
    }

    /// The HTTP status number for this error.
    pub fn to_http_status(&self) -> (code: u16)
        ensures
            code == status_of(self.err_type),
    {
        match self.err_type {
            ErrorType::NotFound => 404,
            ErrorType::Internal => 500,
            ErrorType::BadRequest => 400,
            ErrorType::MethodNotAllowed => 405,
        }
    }

    /// The payload sent to the client for this error.
    pub fn to_message(&self) -> (m: ErrorMessage)
        ensures
            m.code == status_of(self.err_type),
            m.message@ == self.message@,
    {
        ErrorMessage { code: self.to_http_status(), message: self.message.clone() }
    }
}

impl Clone for AppError {
    fn clone(&self) -> (e: Self)
        ensures
            e@ == self@,
    {
        AppError { err_type: self.err_type, message: self.message.clone() }
    }
}

/// Unwrapping that reports an empty option as an error.
pub trait Check<T>: Sized {
    /// What the value holds, as an `Option`.
    spec fn held(self) -> Option<T>;

    /// The value inside, or an `Internal` error when there is none.
    fn check(self) -> (r: Result<T, AppError>)
        ensures
            match r {
                Ok(v) => self.held() == Some(v),
                Err(e) => self.held() is None && e@ == not_found_internal(),
            },
    ;
}

impl<T> Check<T> for Option<T> {
    open spec fn held(self) -> Option<T> {
        self
    }

    fn check(self) -> (r: Result<T, AppError>) {
        match self {
            Some(value) => Ok(value),
            None => Err(AppError::internal("err: value not found (internal)")),
        }
    }
}

/// What is known of a request that no handler answered.
#[derive(Debug)]
pub struct Rejected {
    /// No route matched.
    pub not_found: bool,
    /// The error that a handler gave, if one did.
    pub app_error: Option<AppError>,
    /// The body could not be read as JSON.
    pub invalid_body: bool,
    /// A route matched, but not for the verb.
    pub method_not_allowed: bool,
    /// The rejection as the transport describes it.
    pub debug: String,
}

/// The mathematical content of a `Rejected`.
pub struct RejectedModel {
    pub not_found: bool,
    pub app_error: Option<ErrorModel>,
    pub invalid_body: bool,
    pub method_not_allowed: bool,
    pub debug: Seq<char>,
}

/// The mathematical content of an `ErrorMessage`.
pub struct ErrorMessageModel {
    pub code: u16,
    pub message: Seq<char>,
}

impl View for Rejected {
    type V = RejectedModel;

    open spec fn view(&self) -> RejectedModel {
        RejectedModel {
            not_found: self.not_found,
            app_error: match self.app_error {
                Some(e) => Some(e@),
                None => None,
            },
            invalid_body: self.invalid_body,
            method_not_allowed: self.method_not_allowed,
            debug: self.debug@,
        }
    }
}

impl View for ErrorMessage {
    type V = ErrorMessageModel;

    open spec fn view(&self) -> ErrorMessageModel {
        ErrorMessageModel { code: self.code, message: self.message@ }
    }
}

/// The payload for a rejected request. The first of these decides: no
/// route, a handler's error, an unreadable body, a wrong verb; anything
/// else is a server error that shows the rejection.
pub open spec fn rejection_message(err: RejectedModel) -> ErrorMessageModel {
    if err.not_found {
        ErrorMessageModel { code: 404, message: "Not Found"@ }
    } else if err.app_error is Some {
        ErrorMessageModel {
            code: status_of(err.app_error->0.kind),
            message: err.app_error->0.message,
        }
    } else if err.invalid_body {
        ErrorMessageModel { code: 400, message: "Invalid Body"@ }
    } else if err.method_not_allowed {
        ErrorMessageModel { code: 405, message: "Method Not Allowed"@ }
    } else {
        ErrorMessageModel { code: 500, message: "Unhandled rejection: "@ + err.debug }
    }
}

/// Whether a rejection is none of the kinds that are told apart.
pub open spec fn is_unhandled(err: RejectedModel) -> bool {
    !err.not_found && err.app_error is None && !err.invalid_body && !err.method_not_allowed
}

/// The payload that answers a rejected request.
pub fn handle_rejection(err: &Rejected) -> (reply: ErrorMessage)
    ensures
        reply@ == rejection_message(err@),
{
    if err.not_found {
        ErrorMessage { code: 404, message: String::from_str("Not Found") }
    } else if let Some(app_err) = &err.app_error {
        app_err.to_message()
    } else if err.invalid_body {
        ErrorMessage { code: 400, message: String::from_str("Invalid Body") }
    } else if err.method_not_allowed {
        ErrorMessage { code: 405, message: String::from_str("Method Not Allowed") }
    } else {
        let mut message = String::from_str("Unhandled rejection: ");
        message.append(err.debug.as_str());
        ErrorMessage { code: 500, message }
    }
}

/// The line to log for a rejected request: one for a rejection that is
/// none of the kinds that are told apart, none otherwise.
pub fn unhandled_log(err: &Rejected) -> (line: Option<String>)
    ensures
        match line {
            Some(text) => is_unhandled(err@) && text@ == "unhandled rejection: "@ + err@.debug,
            None => !is_unhandled(err@),
        },
{
    if err.not_found || err.app_error.is_some() || err.invalid_body || err.method_not_allowed {
        None
    } else {
        let mut text = String::from_str("unhandled rejection: ");
        text.append(err.debug.as_str());
        Some(text)
    }
}

#[verifier::external_type_specification]
#[verifier::external_body]
pub struct ExJsonError(serde_json::Error);

#[verifier::external_type_specification]
#[verifier::external_body]
pub struct ExIoError(std::io::Error);

/// `serde_json::Error`'s `Display`: the sentence that describes the error.
/// It may hold the text of an I/O error, so nothing is said of it.
#[verifier::external_body]
fn json_error_to_string(e: &serde_json::Error) -> String {
    e.to_string()
}

/// `std::io::Error`'s `Display`: the text may come from the operating
/// system, so nothing is said of it.
#[verifier::external_body]
fn io_error_to_string(e: &std::io::Error) -> String {
    e.to_string()
}

impl vstd::std_specs::convert::FromSpecImpl<serde_json::Error> for AppError {
    open spec fn obeys_from_spec() -> bool {
        false
    }

    open spec fn from_spec(e: serde_json::Error) -> Self {
        arbitrary()
    }
}

impl From<serde_json::Error> for AppError {
    /// A JSON error becomes an `Internal` error with the same sentence.
    fn from(e: serde_json::Error) -> (r: Self)
        ensures
            r.err_type == ErrorType::Internal,
    {
        AppError { err_type: ErrorType::Internal, message: json_error_to_string(&e) }
    }
}

impl vstd::std_specs::convert::FromSpecImpl<std::io::Error> for AppError {
    open spec fn obeys_from_spec() -> bool {
        false
    }

    open spec fn from_spec(e: std::io::Error) -> Self {
        arbitrary()
    }
}

impl From<std::io::Error> for AppError {
    /// An I/O error becomes an `Internal` error with the same sentence.
    fn from(e: std::io::Error) -> (r: Self)
        ensures
            r.err_type == ErrorType::Internal,
    {
        AppError { err_type: ErrorType::Internal, message: io_error_to_string(&e) }
    }
}

impl<T> vstd::std_specs::convert::FromSpecImpl<Option<T>> for AppError {
    open spec fn obeys_from_spec() -> bool {
        false
    }

    open spec fn from_spec(v: Option<T>) -> Self {
        arbitrary()
    }
}

impl<T> From<Option<T>> for AppError {
    /// Any option becomes the `Internal` error for an empty one.
    fn from(v: Option<T>) -> (r: Self)
        ensures
            r@ == (ErrorModel { kind: ErrorType::Internal, message: "err: option returned empty"@ }),
    {
        AppError::internal("err: option returned empty")
    }
}

} // verus!
