//! Error codes, the library's error value, and the slot that keeps the last error.

use vstd::prelude::*;
use crate::text::owned;

verus! {

/// Error codes, one per kind of failure the library reports.
#[derive(Debug, Clone, Copy, PartialEq, Eq, Structural)]
pub enum ErrorCode {
    /// Operation succeeded
    Success,
    /// Generic/unknown error
    Unknown,
    /// Invalid argument provided
    InvalidArgument,
    /// Null pointer was passed
    NullPointer,
    /// Memory allocation failed
    OutOfMemory,
    /// Invalid UTF-8 string
    InvalidUtf8,
    /// Network error
    NetworkError,
    /// Authentication failed
    AuthenticationFailed,
    /// Resource not found
    NotFound,
    /// Permission denied
    PermissionDenied,
    /// Timeout occurred
    Timeout,
    /// Invalid state for operation
    InvalidState,
    /// Feature not supported by this platform
    Unsupported,
    /// Rate limit exceeded
    RateLimited,
}

/// The human-readable description of each error code.
pub open spec fn error_code_text(code: ErrorCode) -> Seq<char> {
    match code {
        ErrorCode::Success => "Success"@,
        ErrorCode::Unknown => "Unknown error"@,
        ErrorCode::InvalidArgument => "Invalid argument"@,
        ErrorCode::NullPointer => "Null pointer"@,
        ErrorCode::OutOfMemory => "Out of memory"@,
        ErrorCode::InvalidUtf8 => "Invalid UTF-8 string"@,
        ErrorCode::NetworkError => "Network error"@,
        ErrorCode::AuthenticationFailed => "Authentication failed"@,
        ErrorCode::NotFound => "Not found"@,
        ErrorCode::PermissionDenied => "Permission denied"@,
        ErrorCode::Timeout => "Timeout"@,
        ErrorCode::InvalidState => "Invalid state"@,
        ErrorCode::Unsupported => "Feature not supported"@,
        ErrorCode::RateLimited => "Rate limit exceeded"@,
    }
}

impl ErrorCode {
    /// The human-readable description of this code.
    pub fn as_str(&self) -> (s: &'static str)
        ensures
            s@ == error_code_text(*self),
    {
        match self {
            ErrorCode::Success => "Success",
            ErrorCode::Unknown => "Unknown error",
            ErrorCode::InvalidArgument => "Invalid argument",
            ErrorCode::NullPointer => "Null pointer",
            ErrorCode::OutOfMemory => "Out of memory",
            ErrorCode::InvalidUtf8 => "Invalid UTF-8 string",
            ErrorCode::NetworkError => "Network error",
            ErrorCode::AuthenticationFailed => "Authentication failed",
            ErrorCode::NotFound => "Not found",
            ErrorCode::PermissionDenied => "Permission denied",
            ErrorCode::Timeout => "Timeout",
            ErrorCode::InvalidState => "Invalid state",
            ErrorCode::Unsupported => "Feature not supported",
            ErrorCode::RateLimited => "Rate limit exceeded",
        }
    }
}

/// What an [`Error`] holds.
pub struct ErrorView {
    pub code: ErrorCode,
    pub message: Seq<char>,
    pub mattermost_error_id: Option<Seq<char>>,
    pub request_id: Option<Seq<char>>,
    pub http_status: Option<u16>,
}

/// The library's error value.
#[derive(Debug, Clone)]
pub struct Error {
    pub code: ErrorCode,
    pub message: String,
    /// Platform-specific error ID (e.g., a Mattermost error ID like "api.user.login.invalid_credentials")
    pub mattermost_error_id: Option<String>,
    /// Request ID from server headers for debugging
    pub request_id: Option<String>,
    /// HTTP status code if this error came from an HTTP response
    pub http_status: Option<u16>,
}

/// The view of an optional string.
pub open spec fn opt_view(o: Option<String>) -> Option<Seq<char>> {
    match o {
        Some(s) => Some(s@),
        None => None,
    }
}

/// A copy of an optional string.
pub fn copy_opt(o: &Option<String>) -> (r: Option<String>)
    ensures
        opt_view(r) == opt_view(*o),
{
    match o {
        Some(s) => Some(s.clone()),
        None => None,
    }
}

impl View for Error {
    type V = ErrorView;

    open spec fn view(&self) -> ErrorView {
        ErrorView {
            code: self.code,
            message: self.message@,
            mattermost_error_id: opt_view(self.mattermost_error_id),
            request_id: opt_view(self.request_id),
            http_status: self.http_status,
        }
    }
}

impl Error {
    /// A new error with the given code and message and no further details.
    pub fn new(code: ErrorCode, message: String) -> (e: Error)
        ensures
            e@ == (ErrorView {
                code,
                message: message@,
                mattermost_error_id: None,
                request_id: None,
                http_status: None,
            }),
    {
        Error { code, message, mattermost_error_id: None, request_id: None, http_status: None }
    }

    /// The error for a null pointer argument.
    pub fn null_pointer() -> (e: Error)
        ensures
            e@ == (ErrorView {
                code: ErrorCode::NullPointer,
                message: "Null pointer provided"@,
                mattermost_error_id: None,
                request_id: None,
                http_status: None,
            }),
    {
        Error::new(ErrorCode::NullPointer, owned("Null pointer provided"))
    }

    /// The error for a string that is not valid UTF-8.
    pub fn invalid_utf8() -> (e: Error)
        ensures
            e@ == (ErrorView {
                code: ErrorCode::InvalidUtf8,
                message: "Invalid UTF-8 string"@,
                mattermost_error_id: None,
                request_id: None,
                http_status: None,
            }),
    {
        Error::new(ErrorCode::InvalidUtf8, owned("Invalid UTF-8 string"))
    }

    /// An invalid-argument error with the given message.
    pub fn invalid_argument(msg: String) -> (e: Error)
        ensures
            e@ == (ErrorView {
                code: ErrorCode::InvalidArgument,
                message: msg@,
                mattermost_error_id: None,
                request_id: None,
                http_status: None,
            }),
    {
        Error::new(ErrorCode::InvalidArgument, msg)
    }

    /// An unsupported-feature error with the given message.
    pub fn unsupported(msg: String) -> (e: Error)
        ensures
            e@ == (ErrorView {
                code: ErrorCode::Unsupported,
                message: msg@,
                mattermost_error_id: None,
                request_id: None,
                http_status: None,
            }),
    {
        Error::new(ErrorCode::Unsupported, msg)
    }

    /// The same error with the given Mattermost error ID.
    pub fn with_mattermost_error_id(self, id: String) -> (e: Error)
        ensures
            e@ == (ErrorView { mattermost_error_id: Some(id@), ..self@ }),
    {
        let mut s = self;
        s.mattermost_error_id = Some(id);
        s
    }

    /// The same error with the given request ID.
    pub fn with_request_id(self, id: String) -> (e: Error)
        ensures
            e@ == (ErrorView { request_id: Some(id@), ..self@ }),
    {
        let mut s = self;
        s.request_id = Some(id);
        s
    }

    /// The same error with the given HTTP status code.
    pub fn with_http_status(self, status: u16) -> (e: Error)
        ensures
            e@ == (ErrorView { http_status: Some(status), ..self@ }),
    {
        let mut s = self;
        s.http_status = Some(status);
        s
    }

    /// The Mattermost error ID, if any.
    pub fn mattermost_error_id(&self) -> (r: Option<&str>)
        ensures
            match r {
                Some(s) => self@.mattermost_error_id == Some(s@),
                None => self@.mattermost_error_id is None,
            },
    {
        match &self.mattermost_error_id {
            Some(s) => Some(s.as_str()),
            None => None,
        }
    }

    /// The request ID, if any.
    pub fn request_id(&self) -> (r: Option<&str>)
        ensures
            match r {
                Some(s) => self@.request_id == Some(s@),
                None => self@.request_id is None,
            },
    {
        match &self.request_id {
            Some(s) => Some(s.as_str()),
            None => None,
        }
    }

    /// The HTTP status code, if any.
    pub fn http_status(&self) -> (r: Option<u16>)
        ensures
            r == self@.http_status,
    {
        self.http_status
    }

    /// A copy of this error.
    pub fn duplicate(&self) -> (e: Error)
        ensures
            e@ == self@,
            e.code == self.code,
    {
        Error {
            code: self.code,
            message: self.message.clone(),
            mattermost_error_id: copy_opt(&self.mattermost_error_id),
            request_id: copy_opt(&self.request_id),
            http_status: self.http_status,
        }
    }

    /// The error's text as the library displays it: the code's description,
    /// a colon and a space, then the message.
    pub fn to_display_string(&self) -> (s: String)
        ensures
            s@ == error_code_text(self@.code) + ": "@ + self@.message,
    {
        let mut s = owned(self.code.as_str());
        s.append(": ");
        s.append(self.message.as_str());
        proof {
            reveal_strlit(": ");
        }
        s
    }
}

/// The slot that remembers the last error reported to a caller.
pub struct LastError {
    slot: Option<Error>,
}

impl View for LastError {
    type V = Option<ErrorView>;

    closed spec fn view(&self) -> Option<ErrorView> {
        match self.slot {
            Some(e) => Some(e@),
            None => None,
        }
    }
}

impl LastError {
    /// An empty slot.
    pub fn new() -> (r: LastError)
        ensures
            r@ is None,
    {
        LastError { slot: None }
    }

    /// Remember `error` as the last error.
    pub fn set_last_error(&mut self, error: Error)
        ensures
            final(self)@ == Some(error@),
    {
        self.slot = Some(error);
    }

    /// Forget the last error.
    pub fn clear_last_error(&mut self)
        ensures
            final(self)@ is None,
    {
        self.slot = None;
    }

    /// A copy of the last error, if one is remembered.
    pub fn get_last_error(&self) -> (r: Option<Error>)
        ensures
            match r {
                Some(e) => self@ == Some(e@),
                None => self@ is None,
            },
    {
        match &self.slot {
            Some(e) => Some(e.duplicate()),
            None => None,
        }
    }

    /// The code of the last error, or `Success` when none is remembered.
    pub fn last_error_code(&self) -> (c: ErrorCode)
        ensures
            c == match self@ {
                Some(e) => e.code,
                None => ErrorCode::Success,
            },
    {
        match &self.slot {
            Some(e) => e.code,
            None => ErrorCode::Success,
        }
    }
}

} // verus!
