use vstd::prelude::*;
use vstd::std_specs::convert::FromSpecImpl;
use vstd::string::StringExecFns;

use crate::models::error_response::ErrorResponse;

verus! {

/// Why a caller was not authenticated or not let through.
#[derive(Debug, Clone, Copy, PartialEq, Eq, Structural)]
pub enum AuthError {
    /// Unknown username, wrong password, or a token that is missing,
    /// malformed or not signed with the shared secret. The cases are not told
    /// apart, so that a caller learns nothing from which one it was.
    InvalidCredentials,
    /// The token is well signed but its expiry has passed.
    ExpiredCredentials,
    /// The token is valid but does not carry the required permission.
    Forbidden,
}

/// Every failure a request can end in.
#[derive(Debug)]
pub enum AppError {
    /// The request body could not be decoded.
    JsonError,
    /// A failure of the backend itself, with a message for operators.
    UnexpectedError(String),
    /// An authentication or authorization failure.
    Auth(AuthError),
}

/// Mathematical model of an [`AppError`].
pub enum AppErrorView {
    JsonError,
    UnexpectedError(Seq<char>),
    Auth(AuthError),
}

impl View for AppError {
    type V = AppErrorView;

    open spec fn view(&self) -> AppErrorView {
        match self {
            AppError::JsonError => AppErrorView::JsonError,
            AppError::UnexpectedError(message) => AppErrorView::UnexpectedError(message@),
            AppError::Auth(e) => AppErrorView::Auth(*e),
        }
    }
}

/// The HTTP status an error is reported with.
pub open spec fn status_of(error: AppErrorView) -> u16 {
    match error {
        AppErrorView::JsonError => 400,
        AppErrorView::UnexpectedError(_) => 500,
        AppErrorView::Auth(AuthError::InvalidCredentials) => 401,
        AppErrorView::Auth(AuthError::ExpiredCredentials) => 401,
        AppErrorView::Auth(AuthError::Forbidden) => 403,
    }
}

/// The message an error is reported with. Authentication failures have fixed
/// messages, which carry nothing of their cause.
pub open spec fn message_of(error: AppErrorView) -> Seq<char> {
    match error {
        AppErrorView::JsonError => "json decode failed"@,
        AppErrorView::UnexpectedError(message) => message,
        AppErrorView::Auth(AuthError::InvalidCredentials) => "Invalid credentials"@,
        AppErrorView::Auth(AuthError::ExpiredCredentials) => "expired credentials"@,
        AppErrorView::Auth(AuthError::Forbidden) => "forbidden"@,
    }
}

impl AuthError {
    /// The fixed message of this failure.
    pub fn message(&self) -> (text: &'static str)
        ensures
            text@ == message_of(AppErrorView::Auth(*self)),
    {
        match self {
            AuthError::InvalidCredentials => "Invalid credentials",
            AuthError::ExpiredCredentials => "expired credentials",
            AuthError::Forbidden => "forbidden",
        }
    }
}

impl AppError {
    /// The HTTP status this error is reported with.
    pub fn status_code(&self) -> (status: u16)
        ensures
            status == status_of(self@),
    {
        match self {
            AppError::JsonError => 400,
            AppError::UnexpectedError(_) => 500,
            AppError::Auth(AuthError::Forbidden) => 403,
            AppError::Auth(_) => 401,
        }
    }

    /// The message this error is reported with.
    pub fn error_message(&self) -> (text: String)
        ensures
            text@ == message_of(self@),
    {
        match self {
            AppError::JsonError => String::from_str("json decode failed"),
            AppError::UnexpectedError(message) => message.clone(),
            AppError::Auth(e) => String::from_str(e.message()),
        }
    }

    /// Turns the error into the body and status of the response that reports it.
    pub fn into_response(self) -> (response: ErrorResponse)
        ensures
            response.status_code == status_of(self@),
            response.error_message@ == message_of(self@),
    {
        let status_code = self.status_code();
        let error_message = self.error_message();
        ErrorResponse { status_code, error_message }
    }
}

impl From<AuthError> for AppError {
    fn from(error: AuthError) -> (e: AppError) {
        AppError::Auth(error)
    }
}

impl FromSpecImpl<AuthError> for AppError {
    open spec fn obeys_from_spec() -> bool {
        true
    }

    open spec fn from_spec(error: AuthError) -> AppError {
        AppError::Auth(error)
    }
}

} // verus!
