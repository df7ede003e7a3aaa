//! Error taxonomy of the shell server's core.
//!
//! Every failure of the composition pipeline is one of these variants, each
//! carrying a human-readable message. `ErrorInfo` is the structured form a
//! response layer renders: an HTTP status code together with a title, a
//! message and a description.

use vstd::prelude::*;

verus! {

/// A failure of the page-composition core, tagged by kind.
#[derive(Debug)]
pub enum Error {
    AnyError(String),
    ConfigError(String),
    RootConfigError(String),
    ManifestError(String),
    ValidationError(String),
    BadRequest(String),
    Forbidden(String),
    JsonParseError(String),
    ServiceError(String),
}

/// The structured, render-ready form of an error.
#[derive(Debug, Clone)]
pub struct ErrorInfo {
    pub status_code: u16,
    pub title: String,
    pub message: String,
    pub description: String,
}

/// The message carried by an error, as a sequence of characters.
pub open spec fn error_message_view(e: Error) -> Seq<char> {
    match e {
        Error::AnyError(m) => m@,
        Error::ConfigError(m) => m@,
        Error::RootConfigError(m) => m@,
        Error::ManifestError(m) => m@,
        Error::ValidationError(m) => m@,
        Error::BadRequest(m) => m@,
        Error::Forbidden(m) => m@,
        Error::JsonParseError(m) => m@,
        Error::ServiceError(m) => m@,
    }
}

/// The HTTP status code a variant maps to: client-fault variants map to the
/// 4xx class, everything else is a server error.
pub open spec fn error_status_code(e: Error) -> u16 {
    match e {
        Error::ValidationError(_) => 400u16,
        Error::BadRequest(_) => 400u16,
        Error::Forbidden(_) => 403u16,
        _ => 500u16,
    }
}

/// The page title a variant maps to.
pub open spec fn error_title_view(e: Error) -> Seq<char> {
    match e {
        Error::AnyError(_) => "Internal Server Error"@,
        Error::ConfigError(_) => "Configuration Error"@,
        Error::RootConfigError(_) => "Root Configuration Error"@,
        Error::ManifestError(_) => "Manifest Error"@,
        Error::ValidationError(_) => "Validation Error"@,
        Error::BadRequest(_) => "Bad Request"@,
        Error::Forbidden(_) => "Forbidden"@,
        Error::JsonParseError(_) => "JSON Parse Error"@,
        Error::ServiceError(_) => "Service Error"@,
    }
}

impl Error {
    /// The message carried by this error.
    pub fn message(&self) -> (r: &String)
        ensures
            r@ == error_message_view(*self),
    {
        match self {
            Error::AnyError(m) => m,
            Error::ConfigError(m) => m,
            Error::RootConfigError(m) => m,
            Error::ManifestError(m) => m,
            Error::ValidationError(m) => m,
            Error::BadRequest(m) => m,
            Error::Forbidden(m) => m,
            Error::JsonParseError(m) => m,
            Error::ServiceError(m) => m,
        }
    }

    /// The HTTP status code this error's response carries.
    pub fn status_code(&self) -> (r: u16)
        ensures
            r == error_status_code(*self),
    {
        match self {
            Error::ValidationError(_) => 400,
            Error::BadRequest(_) => 400,
            Error::Forbidden(_) => 403,
            _ => 500,
        }
    }
}

impl ErrorInfo {
    /// A generic internal server error carrying `message` as both the
    /// message and the description.
    pub fn new(message: String) -> (r: ErrorInfo)
        ensures
            r.status_code == 500,
            r.title@ == "Internal Server Error"@,
            r.message@ == message@,
            r.description@ == message@,
    {
        let description = message.clone();
        ErrorInfo {
            status_code: 500,
            title: "Internal Server Error".to_owned(),
            message,
            description,
        }
    }

    /// The structured form of `e`: the status code and title determined by
    /// the variant, the carried message used as both message and description.
    pub fn of_error(e: Error) -> (r: ErrorInfo)
        ensures
            r.status_code == error_status_code(e),
            r.title@ == error_title_view(e),
            r.message@ == error_message_view(e),
            r.description@ == error_message_view(e),
    {
        let status_code = e.status_code();
        let title = match &e {
            Error::AnyError(_) => "Internal Server Error".to_owned(),
            Error::ConfigError(_) => "Configuration Error".to_owned(),
            Error::RootConfigError(_) => "Root Configuration Error".to_owned(),
            Error::ManifestError(_) => "Manifest Error".to_owned(),
            Error::ValidationError(_) => "Validation Error".to_owned(),
            Error::BadRequest(_) => "Bad Request".to_owned(),
            Error::Forbidden(_) => "Forbidden".to_owned(),
            Error::JsonParseError(_) => "JSON Parse Error".to_owned(),
            Error::ServiceError(_) => "Service Error".to_owned(),
        };
        let message = match e {
            Error::AnyError(m) => m,
            Error::ConfigError(m) => m,
            Error::RootConfigError(m) => m,
            Error::ManifestError(m) => m,
            Error::ValidationError(m) => m,
            Error::BadRequest(m) => m,
            Error::Forbidden(m) => m,
            Error::JsonParseError(m) => m,
            Error::ServiceError(m) => m,
        };
        let description = message.clone();
        ErrorInfo { status_code, title, message, description }
    }
}

} // verus!
