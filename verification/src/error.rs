//! What can go wrong, and how each failure is shown to a caller: a status
//! code, a short machine-readable message and a description. Nothing of an
//! infrastructure failure's detail reaches the caller.

use crate::model::{text_opt, copy_text_opt, CacheId};
use vstd::prelude::*;

verus! {

/// The ways a request can be refused.
#[derive(Clone, Copy, Debug, PartialEq, Eq, Structural)]
pub enum AuthenticationError {
    Unauthenticated,
    InvalidCredentials,
    InvalidToken(CacheId),
    InvalidOTP,
    InvalidCsrfHeader,
    InsufficientRights,
    AccountFrozen,
    EmailTaken,
    AlreadyVerified,
    EmailUnverified,
    AuthBlocked,
}

impl AuthenticationError {
    /// The HTTP status of a refusal: 403 where the role does not suffice, 409
    /// where the request conflicts with what is there, 401 otherwise.
    pub open spec fn status_code_spec(self) -> u16 {
        match self {
            AuthenticationError::InsufficientRights => 403,
            AuthenticationError::EmailTaken => 409,
            AuthenticationError::AlreadyVerified => 409,
            _ => 401,
        }
    }

    /// The HTTP status the refusal is answered with.
    pub fn status_code(&self) -> (r: u16)
        ensures
            r == self.status_code_spec(),
    {
        match self {
            AuthenticationError::Unauthenticated => 401,
            AuthenticationError::InvalidCredentials => 401,
            AuthenticationError::InvalidToken(_) => 401,
            AuthenticationError::InsufficientRights => 403,
            AuthenticationError::InvalidOTP => 401,
            AuthenticationError::InvalidCsrfHeader => 401,
            AuthenticationError::AccountFrozen => 401,
            AuthenticationError::EmailTaken => 409,
            AuthenticationError::EmailUnverified => 401,
            AuthenticationError::AlreadyVerified => 409,
            AuthenticationError::AuthBlocked => 401,
        }
    }

    /// The short, machine-readable message of a refusal.
    pub open spec fn message_spec(self) -> Seq<char> {
        match self {
            AuthenticationError::AccountFrozen => "SUSPENDED"@,
            AuthenticationError::EmailTaken => "EMAIL_TAKEN"@,
            AuthenticationError::EmailUnverified => "UNVERIFIED"@,
            AuthenticationError::AuthBlocked => "BLOCKED"@,
            AuthenticationError::AlreadyVerified => "VERIFIED"@,
            AuthenticationError::InsufficientRights => "FORBIDDEN"@,
            AuthenticationError::InvalidToken(_) => "INVALID_TOKEN"@,
            _ => "UNAUTHORIZED"@,
        }
    }

    /// The description of a refusal for a human reader.
    pub open spec fn description_spec(self) -> Seq<char> {
        match self {
            AuthenticationError::Unauthenticated => "No session"@,
            AuthenticationError::InvalidCsrfHeader => "Invalid CSRF header"@,
            AuthenticationError::InvalidCredentials => "Invalid credentials"@,
            AuthenticationError::InvalidOTP => "Invalid OTP provided"@,
            AuthenticationError::AccountFrozen => "Account suspended"@,
            AuthenticationError::EmailTaken => "Cannot use provided email"@,
            AuthenticationError::EmailUnverified => "Email not verified"@,
            AuthenticationError::AuthBlocked => "Authentication currently blocked"@,
            AuthenticationError::AlreadyVerified => "Account already verified"@,
            AuthenticationError::InsufficientRights => "Insufficient rights"@,
            AuthenticationError::InvalidToken(id) => match id {
                CacheId::OTPToken => "Invalid OTP token"@,
                CacheId::RegToken => "Invalid registration token"@,
                CacheId::PWToken => "Invalid password change token"@,
                _ => "Token not found"@,
            },
        }
    }

    /// The message and the description shown for the refusal.
    pub fn message_and_description(&self) -> (r: (&'static str, &'static str))
        ensures
            r.0@ == self.message_spec(),
            r.1@ == self.description_spec(),
    {
        match self {
            AuthenticationError::Unauthenticated => ("UNAUTHORIZED", "No session"),
            AuthenticationError::InvalidCsrfHeader => ("UNAUTHORIZED", "Invalid CSRF header"),
            AuthenticationError::InvalidCredentials => ("UNAUTHORIZED", "Invalid credentials"),
            AuthenticationError::InvalidOTP => ("UNAUTHORIZED", "Invalid OTP provided"),
            AuthenticationError::AccountFrozen => ("SUSPENDED", "Account suspended"),
            AuthenticationError::EmailTaken => ("EMAIL_TAKEN", "Cannot use provided email"),
            AuthenticationError::EmailUnverified => ("UNVERIFIED", "Email not verified"),
            AuthenticationError::AuthBlocked => ("BLOCKED", "Authentication currently blocked"),
            AuthenticationError::AlreadyVerified => ("VERIFIED", "Account already verified"),
            AuthenticationError::InsufficientRights => ("FORBIDDEN", "Insufficient rights"),
            AuthenticationError::InvalidToken(id) => match id {
                CacheId::OTPToken => ("INVALID_TOKEN", "Invalid OTP token"),
                CacheId::RegToken => ("INVALID_TOKEN", "Invalid registration token"),
                CacheId::PWToken => ("INVALID_TOKEN", "Invalid password change token"),
                _ => ("INVALID_TOKEN", "Token not found"),
            },
        }
    }
}

/// A failure of the store behind the repository.
#[derive(Debug, PartialEq, Eq)]
pub enum AdapterError {
    /// The named kind of record is not there.
    DoesNotExist(String),
    /// The store refused or failed; the text is for the log only.
    Failure(String),
}

pub enum AdapterErrorView {
    DoesNotExist(Seq<char>),
    Failure(Seq<char>),
}

impl View for AdapterError {
    type V = AdapterErrorView;

    open spec fn view(&self) -> AdapterErrorView {
        match self {
            AdapterError::DoesNotExist(r) => AdapterErrorView::DoesNotExist(r@),
            AdapterError::Failure(r) => AdapterErrorView::Failure(r@),
        }
    }
}

/// One violated rule on one input field.
#[derive(Debug, PartialEq, Eq)]
pub struct ValidationError {
    /// The path of the field, from the validated value down.
    pub field: String,
    pub code: String,
    pub message: Option<String>,
}

pub struct ValidationErrorView {
    pub field: Seq<char>,
    pub code: Seq<char>,
    pub message: Option<Seq<char>>,
}

impl View for ValidationError {
    type V = ValidationErrorView;

    open spec fn view(&self) -> ValidationErrorView {
        ValidationErrorView {
            field: self.field@,
            code: self.code@,
            message: text_opt(self.message),
        }
    }
}

impl Clone for ValidationError {
    fn clone(&self) -> (r: Self)
        ensures
            r@ == self@,
    {
        ValidationError {
            field: self.field.clone(),
            code: self.code.clone(),
            message: copy_text_opt(&self.message),
        }
    }
}

/// The violations as plain values.
pub open spec fn violations(v: Seq<ValidationError>) -> Seq<ValidationErrorView> {
    v.map_values(|e: ValidationError| e@)
}

/// A copy of the violations.
pub fn copy_violations(v: &Vec<ValidationError>) -> (r: Vec<ValidationError>)
    ensures
        violations(r@) == violations(v@),
{
    let mut out: Vec<ValidationError> = Vec::new();
    let mut i: usize = 0;
    while i < v.len()
        invariant
            i <= v.len(),
            out@.len() == i,
            forall|j: int| 0 <= j < i ==> out@[j]@ == v@[j]@,
        decreases v.len() - i,
    {
        out.push(v[i].clone());
        i = i + 1;
    }
    proof {
        assert(violations(out@) =~= violations(v@));
    }
    out
}

/// Every failure an operation can end in. The variants that carry a text hold
/// what a collaborator reported; the text is kept for the log and never shown.
#[derive(Debug, PartialEq, Eq)]
pub enum Error {
    Authentication(AuthenticationError),
    ClientError(String),
    Cache(String),
    Adapter(AdapterError),
    Redis(String),
    Crypto(String),
    Serde(String),
    HeaderValue(String),
    ToStr(String),
    Validation(Vec<ValidationError>),
    Http(String),
    /// A failure without content, for callers that only need one.
    Empty,
}

pub enum ErrorView {
    Authentication(AuthenticationError),
    ClientError(Seq<char>),
    Cache(Seq<char>),
    Adapter(AdapterErrorView),
    Redis(Seq<char>),
    Crypto(Seq<char>),
    Serde(Seq<char>),
    HeaderValue(Seq<char>),
    ToStr(Seq<char>),
    Validation(Seq<ValidationErrorView>),
    Http(Seq<char>),
    Empty,
}

impl View for Error {
    type V = ErrorView;

    open spec fn view(&self) -> ErrorView {
        match self {
            Error::Authentication(e) => ErrorView::Authentication(*e),
            Error::ClientError(t) => ErrorView::ClientError(t@),
            Error::Cache(t) => ErrorView::Cache(t@),
            Error::Adapter(e) => ErrorView::Adapter(e@),
            Error::Redis(t) => ErrorView::Redis(t@),
            Error::Crypto(t) => ErrorView::Crypto(t@),
            Error::Serde(t) => ErrorView::Serde(t@),
            Error::HeaderValue(t) => ErrorView::HeaderValue(t@),
            Error::ToStr(t) => ErrorView::ToStr(t@),
            Error::Validation(v) => ErrorView::Validation(violations(v@)),
            Error::Http(t) => ErrorView::Http(t@),
            Error::Empty => ErrorView::Empty,
        }
    }
}

impl ErrorView {
    /// Whether the failure says that a record is not in the store.
    pub open spec fn is_absent(self) -> bool {
        self matches ErrorView::Adapter(AdapterErrorView::DoesNotExist(_))
    }

    /// The HTTP status of a failure: that of a refusal, 404 for a missing
    /// record, 400 for invalid input, 500 for anything else.
    pub open spec fn status_code(self) -> u16 {
        match self {
            ErrorView::Authentication(e) => e.status_code_spec(),
            ErrorView::Adapter(AdapterErrorView::DoesNotExist(_)) => 404,
            ErrorView::Validation(_) => 400,
            _ => 500,
        }
    }

    /// The short, machine-readable message of a failure.
    pub open spec fn message(self) -> Seq<char> {
        match self {
            ErrorView::Authentication(e) => e.message_spec(),
            ErrorView::Adapter(AdapterErrorView::DoesNotExist(_)) => "NOT_FOUND"@,
            ErrorView::Validation(_) => "VALIDATION"@,
            _ => "INTERNAL_SERVER_ERROR"@,
        }
    }

    /// The description of a failure for a human reader. Only a missing
    /// record's kind is taken from the failure itself.
    pub open spec fn description(self) -> Seq<char> {
        match self {
            ErrorView::Authentication(e) => e.description_spec(),
            ErrorView::Adapter(AdapterErrorView::DoesNotExist(r)) => "Resource does not exist: "@ + r,
            ErrorView::Validation(_) => "Invalid input"@,
            _ => "Internal server error"@,
        }
    }

    /// The violations of a validation failure, and nothing for any other.
    pub open spec fn validation_errors(self) -> Option<Seq<ValidationErrorView>> {
        match self {
            ErrorView::Validation(v) => Some(v),
            _ => None,
        }
    }
}

impl From<AuthenticationError> for Error {
    fn from(e: AuthenticationError) -> (r: Error)
        ensures
            r@ == ErrorView::Authentication(e),
    {
        Error::Authentication(e)
    }
}

impl vstd::std_specs::convert::FromSpecImpl<AuthenticationError> for Error {
    open spec fn obeys_from_spec() -> bool {
        true
    }

    open spec fn from_spec(e: AuthenticationError) -> Error {
        Error::Authentication(e)
    }
}

impl From<AdapterError> for Error {
    fn from(e: AdapterError) -> (r: Error)
        ensures
            r@ == ErrorView::Adapter(e@),
    {
        Error::Adapter(e)
    }
}

impl vstd::std_specs::convert::FromSpecImpl<AdapterError> for Error {
    open spec fn obeys_from_spec() -> bool {
        true
    }

    open spec fn from_spec(e: AdapterError) -> Error {
        Error::Adapter(e)
    }
}

impl Error {
    /// Makes an error of anything that converts into one: a refusal, a
    /// failure of the store, a validation report. The error is what `from`
    /// makes of it, which keeps what it is given as it is.
    pub fn new<E>(e: E) -> (r: Error) where Error: From<E>
        ensures
            call_ensures(<Error as From<E>>::from, (e,), r),
    {
        Error::from(e)
    }

    /// A copy of the error.
    pub fn duplicate(&self) -> (r: Error)
        ensures
            r@ == self@,
    {
        match self {
            Error::Authentication(e) => Error::Authentication(*e),
            Error::ClientError(t) => Error::ClientError(t.clone()),
            Error::Cache(t) => Error::Cache(t.clone()),
            Error::Adapter(AdapterError::DoesNotExist(t)) => Error::Adapter(
                AdapterError::DoesNotExist(t.clone()),
            ),
            Error::Adapter(AdapterError::Failure(t)) => Error::Adapter(
                AdapterError::Failure(t.clone()),
            ),
            Error::Redis(t) => Error::Redis(t.clone()),
            Error::Crypto(t) => Error::Crypto(t.clone()),
            Error::Serde(t) => Error::Serde(t.clone()),
            Error::HeaderValue(t) => Error::HeaderValue(t.clone()),
            Error::ToStr(t) => Error::ToStr(t.clone()),
            Error::Validation(v) => Error::Validation(copy_violations(v)),
            Error::Http(t) => Error::Http(t.clone()),
            Error::Empty => Error::Empty,
        }
    }

    /// Whether the failure says that a record is not in the store.
    pub fn is_absent(&self) -> (r: bool)
        ensures
            r == self@.is_absent(),
    {
        match self {
            Error::Adapter(AdapterError::DoesNotExist(_)) => true,
            _ => false,
        }
    }

    /// The message and the description shown for the failure. Anything that
    /// is not a refusal, a missing record or invalid input is shown as an
    /// internal error, whatever the collaborator reported.
    pub fn message_and_description(&self) -> (r: (&'static str, String))
        ensures
            r.0@ == self@.message(),
            r.1@ == self@.description(),
    {
        match self {
            Error::Authentication(e) => {
                let (m, d) = e.message_and_description();
                (m, String::from_str(d))
            },
            Error::Adapter(AdapterError::DoesNotExist(r)) => {
                let d = String::from_str("Resource does not exist: ").concat(r.as_str());
                ("NOT_FOUND", d)
            },
            Error::Validation(_) => ("VALIDATION", String::from_str("Invalid input")),
            _ => ("INTERNAL_SERVER_ERROR", String::from_str("Internal server error")),
        }
    }

    /// The violations of a validation failure, and nothing for any other.
    pub fn check_validation_errors(&self) -> (r: Option<Vec<ValidationError>>)
        ensures
            match r {
                Some(v) => self@.validation_errors() == Some(violations(v@)),
                None => self@.validation_errors() is None,
            },
    {
        match self {
            Error::Validation(errors) => Some(copy_violations(errors)),
            _ => None,
        }
    }

    /// The HTTP status the failure is answered with.
    pub fn status_code(&self) -> (r: u16)
        ensures
            r == self@.status_code(),
    {
        match self {
            Error::Authentication(e) => e.status_code(),
            Error::Adapter(AdapterError::DoesNotExist(_)) => 404,
            Error::Validation(_) => 400,
            _ => 500,
        }
    }

    /// The envelope the failure is rendered as.
    pub fn error_response(&self) -> (r: ErrorResponse)
        ensures
            r.code == self@.status_code(),
            r.message@ == self@.message(),
            r.description@ == self@.description(),
            match r.validation_errors {
                Some(v) => self@.validation_errors() == Some(violations(v@)),
                None => self@.validation_errors() is None,
            },
    {
        let status = self.status_code();
        let (message, description) = self.message_and_description();
        let validation_errors = self.check_validation_errors();
        ErrorResponse::new(status, message, description.as_str(), validation_errors)
    }
}

/// The one shape in which every failure leaves the service.
#[derive(Debug, PartialEq, Eq)]
pub struct ErrorResponse {
    pub code: u16,
    pub message: String,
    pub description: String,
    pub validation_errors: Option<Vec<ValidationError>>,
}

impl ErrorResponse {
    /// The envelope with the given content.
    pub fn new(
        code: u16,
        message: &str,
        description: &str,
        validation_errors: Option<Vec<ValidationError>>,
    ) -> (r: ErrorResponse)
        ensures
            r.code == code,
            r.message@ == message@,
            r.description@ == description@,
            r.validation_errors == validation_errors,
    {
        ErrorResponse {
            code,
            message: String::from_str(message),
            description: String::from_str(description),
            validation_errors,
        }
    }

    /// The envelope on one line, as it is logged.
    pub fn to_string(&self) -> (r: String)
        ensures
            r@ == "Message: "@ + self.message@ + ", Description: "@ + self.description@,
    {
        let s = String::from_str("Message: ");
        let s = s.concat(self.message.as_str());
        let s = s.concat(", Description: ");
        s.concat(self.description.as_str())
    }
}

} // verus!
