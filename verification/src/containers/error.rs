//! Errors of the OCI distribution API, with the codes of its specification.

use vstd::prelude::*;
use vstd::string::*;

verus! {

/// The error codes that the registry reports.
#[derive(Clone, Copy, Debug, PartialEq, Eq, Structural)]
pub enum ErrorCode {
    BlobUnknown,
    BlobUploadInvalid,
    BlobUploadUnknown,
    DigestInvalid,
    ManifestUnknown,
    NameInvalid,
    NameUnknown,
    Unsupported,
    NotFound,
}

/// The code as the distribution specification writes it.
pub open spec fn error_code_text(code: ErrorCode) -> Seq<char> {
    match code {
        ErrorCode::BlobUnknown => "BLOB_UNKNOWN"@,
        ErrorCode::BlobUploadInvalid => "BLOB_UPLOAD_INVALID"@,
        ErrorCode::BlobUploadUnknown => "BLOB_UPLOAD_UNKNOWN"@,
        ErrorCode::DigestInvalid => "DIGEST_INVALID"@,
        ErrorCode::ManifestUnknown => "MANIFEST_UNKNOWN"@,
        ErrorCode::NameInvalid => "NAME_INVALID"@,
        ErrorCode::NameUnknown => "NAME_UNKNOWN"@,
        ErrorCode::Unsupported => "UNSUPPORTED"@,
        ErrorCode::NotFound => "NOT_FOUND"@,
    }
}

/// The message reported with a code when no other is given.
pub open spec fn error_code_message(code: ErrorCode) -> Seq<char> {
    match code {
        ErrorCode::BlobUnknown => "blob unknown to registry"@,
        ErrorCode::BlobUploadInvalid => "blob upload invalid"@,
        ErrorCode::BlobUploadUnknown => "blob upload unknown to registry"@,
        ErrorCode::DigestInvalid => "provided digest did not match uploaded content"@,
        ErrorCode::ManifestUnknown => "manifest unknown"@,
        ErrorCode::NameInvalid => "invalid repository name"@,
        ErrorCode::NameUnknown => "repository name not known to registry"@,
        ErrorCode::Unsupported => "the operation is unsupported"@,
        ErrorCode::NotFound => "resource not found"@,
    }
}

/// The HTTP status that an error with the code is answered with.
pub open spec fn error_code_status(code: ErrorCode) -> u16 {
    match code {
        ErrorCode::BlobUnknown => 404,
        ErrorCode::BlobUploadInvalid => 404,
        ErrorCode::BlobUploadUnknown => 404,
        ErrorCode::DigestInvalid => 400,
        ErrorCode::ManifestUnknown => 404,
        ErrorCode::NameInvalid => 400,
        ErrorCode::NameUnknown => 404,
        ErrorCode::Unsupported => 405,
        ErrorCode::NotFound => 404,
    }
}

impl ErrorCode {
    /// The HTTP status that an error with the code is answered with.
    pub fn status_code(&self) -> (r: u16)
        ensures
            r == error_code_status(*self),
    {
        match self {
            ErrorCode::BlobUnknown => 404,
            ErrorCode::BlobUploadInvalid => 404,
            ErrorCode::BlobUploadUnknown => 404,
            ErrorCode::DigestInvalid => 400,
            ErrorCode::ManifestUnknown => 404,
            ErrorCode::NameInvalid => 400,
            ErrorCode::NameUnknown => 404,
            ErrorCode::Unsupported => 405,
            ErrorCode::NotFound => 404,
        }
    }

    /// The code as the distribution specification writes it.
    pub fn as_str(&self) -> (r: &'static str)
        ensures
            r@ == error_code_text(*self),
    {
        match self {
            ErrorCode::BlobUnknown => "BLOB_UNKNOWN",
            ErrorCode::BlobUploadInvalid => "BLOB_UPLOAD_INVALID",
            ErrorCode::BlobUploadUnknown => "BLOB_UPLOAD_UNKNOWN",
            ErrorCode::DigestInvalid => "DIGEST_INVALID",
            ErrorCode::ManifestUnknown => "MANIFEST_UNKNOWN",
            ErrorCode::NameInvalid => "NAME_INVALID",
            ErrorCode::NameUnknown => "NAME_UNKNOWN",
            ErrorCode::Unsupported => "UNSUPPORTED",
            ErrorCode::NotFound => "NOT_FOUND",
        }
    }

    /// The message reported with the code when no other is given.
    pub fn default_message(&self) -> (r: &'static str)
        ensures
            r@ == error_code_message(*self),
    {
        match self {
            ErrorCode::BlobUnknown => "blob unknown to registry",
            ErrorCode::BlobUploadInvalid => "blob upload invalid",
            ErrorCode::BlobUploadUnknown => "blob upload unknown to registry",
            ErrorCode::DigestInvalid => "provided digest did not match uploaded content",
            ErrorCode::ManifestUnknown => "manifest unknown",
            ErrorCode::NameInvalid => "invalid repository name",
            ErrorCode::NameUnknown => "repository name not known to registry",
            ErrorCode::Unsupported => "the operation is unsupported",
            ErrorCode::NotFound => "resource not found",
        }
    }
}

/// An error of the distribution API: a code and a message.
#[derive(Debug)]
pub struct Error {
    code: ErrorCode,
    message: String,
}

/// The abstract value of an [`Error`].
pub struct ErrorView {
    pub code: ErrorCode,
    pub message: Seq<char>,
}

impl View for Error {
    type V = ErrorView;

    closed spec fn view(&self) -> ErrorView {
        ErrorView { code: self.code, message: self.message@ }
    }
}

impl Error {
    /// An error with the given code and message.
    pub fn new(code: ErrorCode, message: &str) -> (r: Error)
        ensures
            r@.code == code,
            r@.message == message@,
    {
        Error { code, message: String::from_str(message) }
    }

    /// An error with the given code and its default message.
    pub fn from_code(code: ErrorCode) -> (r: Error)
        ensures
            r@.code == code,
            r@.message == error_code_message(code),
    {
        Error { code, message: String::from_str(code.default_message()) }
    }

    /// The code of the error.
    pub fn code(&self) -> (r: ErrorCode)
        ensures
            r == self@.code,
    {
        self.code
    }

    /// The message of the error.
    pub fn message(&self) -> (r: &str)
        ensures
            r@ == self@.message,
    {
        self.message.as_str()
    }
}

impl From<ErrorCode> for Error {
    fn from(code: ErrorCode) -> (r: Error)
        ensures
            r@.code == code,
            r@.message == error_code_message(code),
    {
        Error::from_code(code)
    }
}

impl vstd::std_specs::convert::FromSpecImpl<ErrorCode> for Error {
    open spec fn obeys_from_spec() -> bool {
        false
    }

    open spec fn from_spec(v: ErrorCode) -> Error {
        arbitrary()
    }
}

} // verus!
