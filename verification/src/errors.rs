//! The errors of the library, and the bodies of the error responses.

use crate::text::{decimal, decimal_text};
use vstd::prelude::*;
use vstd::string::*;

verus! {

/// Why a token that decoded correctly is still refused.
#[derive(Debug, Clone, Copy, PartialEq, Eq, Structural)]
pub enum JWTCError {
    TokenExpired,
}

/// Every way in which an operation of the library fails.
#[derive(Debug, Clone, PartialEq, Eq)]
pub enum ErrorKind {
    /// The provider could not be reached, or its answer could not be read; with the cause.
    Transport(String),
    /// The provider answered outside the 2xx range; with the status and the body.
    RemoteRejected(u16, String),
    /// The record, block or user asked for does not exist.
    NotFound,
    /// The subdomain to create has a base record already.
    AlreadyExists,
    /// The marker of the block to change is not in the file, or no brace closes it.
    MarkerNotFound,
    /// The file has no closing brace to insert before.
    MalformedFile,
    /// The file system failed; with the cause.
    IOFailure(String),
    /// A token did not decode; with the cause.
    JWTError(String),
    /// A token decoded and was refused.
    JWTCreationError(JWTCError),
    InvalidValue,
    EmailAlreadyExists,
    UsernameAlreadyExists,
    /// The password is not the one of the account.
    WrongPassword,
    /// Any other failure, with its message.
    Error(String),
    /// The mail server refused or could not be reached; with the cause.
    LettreTransportError(String),
    /// The mail could not be built; with the cause.
    LettreError(String),
}

/// `ErrorKind` with its texts as sequences of characters.
pub enum ErrorKindView {
    Transport(Seq<char>),
    RemoteRejected(u16, Seq<char>),
    NotFound,
    AlreadyExists,
    MarkerNotFound,
    MalformedFile,
    IOFailure(Seq<char>),
    JWTError(Seq<char>),
    JWTCreationError(JWTCError),
    InvalidValue,
    EmailAlreadyExists,
    UsernameAlreadyExists,
    WrongPassword,
    Error(Seq<char>),
    LettreTransportError(Seq<char>),
    LettreError(Seq<char>),
}

impl View for ErrorKind {
    type V = ErrorKindView;

    open spec fn view(&self) -> ErrorKindView {
        match *self {
            ErrorKind::Transport(cause) => ErrorKindView::Transport(cause@),
            ErrorKind::RemoteRejected(status, body) => ErrorKindView::RemoteRejected(status, body@),
            ErrorKind::NotFound => ErrorKindView::NotFound,
            ErrorKind::AlreadyExists => ErrorKindView::AlreadyExists,
            ErrorKind::MarkerNotFound => ErrorKindView::MarkerNotFound,
            ErrorKind::MalformedFile => ErrorKindView::MalformedFile,
            ErrorKind::IOFailure(cause) => ErrorKindView::IOFailure(cause@),
            ErrorKind::JWTError(cause) => ErrorKindView::JWTError(cause@),
            ErrorKind::JWTCreationError(e) => ErrorKindView::JWTCreationError(e),
            ErrorKind::InvalidValue => ErrorKindView::InvalidValue,
            ErrorKind::EmailAlreadyExists => ErrorKindView::EmailAlreadyExists,
            ErrorKind::UsernameAlreadyExists => ErrorKindView::UsernameAlreadyExists,
            ErrorKind::WrongPassword => ErrorKindView::WrongPassword,
            ErrorKind::Error(message) => ErrorKindView::Error(message@),
            ErrorKind::LettreTransportError(cause) => ErrorKindView::LettreTransportError(cause@),
            ErrorKind::LettreError(cause) => ErrorKindView::LettreError(cause@),
        }
    }
}

impl ErrorKindView {
    /// The message that a caller is shown for this error.
    pub open spec fn message(self) -> Seq<char> {
        match self {
            ErrorKindView::Transport(cause) => cause,
            ErrorKindView::RemoteRejected(status, body) => "Remote rejected ("@ + decimal(
                status as nat,
            ) + "): "@ + body,
            ErrorKindView::NotFound => "Not found"@,
            ErrorKindView::AlreadyExists => "Subdomain already exists"@,
            ErrorKindView::MarkerNotFound => "Slug page tidak ditemukan"@,
            ErrorKindView::MalformedFile => "Format file konfigurasi tidak valid"@,
            ErrorKindView::IOFailure(cause) => cause,
            ErrorKindView::JWTError(cause) => cause,
            ErrorKindView::JWTCreationError(e) => "Token expired"@,
            ErrorKindView::InvalidValue => "Invalid value"@,
            ErrorKindView::EmailAlreadyExists => "Email already exists"@,
            ErrorKindView::UsernameAlreadyExists => "Username already exists"@,
            ErrorKindView::WrongPassword => "Wrong password"@,
            ErrorKindView::Error(message) => message,
            ErrorKindView::LettreTransportError(cause) => cause,
            ErrorKindView::LettreError(cause) => cause,
        }
    }
}

impl ErrorKind {
    /// The message that a caller is shown for this error.
    pub fn to_string(&self) -> (r: String)
        ensures
            r@ == self@.message(),
    {
        match self {
            ErrorKind::Transport(cause) => cause.clone(),
            ErrorKind::RemoteRejected(status, body) => {
                let mut r = String::from_str("Remote rejected (");
                let digits = decimal_text(*status as u32);
                r.append(digits.as_str());
                r.append("): ");
                r.append(body.as_str());
                r
            },
            ErrorKind::NotFound => String::from_str("Not found"),
            ErrorKind::AlreadyExists => String::from_str("Subdomain already exists"),
            ErrorKind::MarkerNotFound => String::from_str("Slug page tidak ditemukan"),
            ErrorKind::MalformedFile => String::from_str("Format file konfigurasi tidak valid"),
            ErrorKind::IOFailure(cause) => cause.clone(),
            ErrorKind::JWTError(cause) => cause.clone(),
            ErrorKind::JWTCreationError(e) => String::from_str("Token expired"),
            ErrorKind::InvalidValue => String::from_str("Invalid value"),
            ErrorKind::EmailAlreadyExists => String::from_str("Email already exists"),
            ErrorKind::UsernameAlreadyExists => String::from_str("Username already exists"),
            ErrorKind::WrongPassword => String::from_str("Wrong password"),
            ErrorKind::Error(message) => message.clone(),
            ErrorKind::LettreTransportError(cause) => cause.clone(),
            ErrorKind::LettreError(cause) => cause.clone(),
        }
    }
}

impl From<JWTCError> for ErrorKind {
    fn from(error: JWTCError) -> (r: ErrorKind) {
        ErrorKind::JWTCreationError(error)
    }
}

impl vstd::std_specs::convert::FromSpecImpl<JWTCError> for ErrorKind {
    open spec fn obeys_from_spec() -> bool {
        true
    }

    open spec fn from_spec(error: JWTCError) -> ErrorKind {
        ErrorKind::JWTCreationError(error)
    }
}

/// The body of an error response: the status and what it is called.
#[derive(Debug, Clone, PartialEq, Eq)]
pub struct Catcher {
    pub status: u16,
    pub message: String,
}

/// The name of an error status that the service answers with.
pub open spec fn status_name(status: u16) -> Seq<char> {
    if status == 400 {
        "Bad request"@
    } else if status == 401 {
        "Unauthorized"@
    } else if status == 404 {
        "Not found"@
    } else if status == 409 {
        "Conflict"@
    } else {
        "Internal server error"@
    }
}

/// The body that answers a request that could not be read.
pub fn bad_request() -> (c: Catcher)
    ensures
        c.status == 400,
        c.message@ == status_name(400),
{
    Catcher { status: 400, message: String::from_str("Bad request") }
}

/// The body that answers a request without a valid token.
pub fn unauthorized() -> (c: Catcher)
    ensures
        c.status == 401,
        c.message@ == status_name(401),
{
    Catcher { status: 401, message: String::from_str("Unauthorized") }
}

/// The body that answers a request for what does not exist.
pub fn not_found() -> (c: Catcher)
    ensures
        c.status == 404,
        c.message@ == status_name(404),
{
    Catcher { status: 404, message: String::from_str("Not found") }
}

/// The body that answers a request that collides with what exists.
pub fn conflict() -> (c: Catcher)
    ensures
        c.status == 409,
        c.message@ == status_name(409),
{
    Catcher { status: 409, message: String::from_str("Conflict") }
}

/// The body that answers a request on which the service itself failed.
pub fn internal_server_error() -> (c: Catcher)
    ensures
        c.status == 500,
        c.message@ == status_name(500),
{
    Catcher { status: 500, message: String::from_str("Internal server error") }
}

/// The status that a caller of the web layer sees for an error of the library:
/// what is missing is 404, what exists already is 409, what the caller sent wrong
/// is 400, a refused token is 401, and every failure of a collaborator is 500.
pub open spec fn status_of(e: ErrorKindView) -> u16 {
    match e {
        ErrorKindView::NotFound | ErrorKindView::MarkerNotFound => 404,
        ErrorKindView::AlreadyExists
        | ErrorKindView::EmailAlreadyExists
        | ErrorKindView::UsernameAlreadyExists => 409,
        ErrorKindView::InvalidValue => 400,
        ErrorKindView::JWTError(_)
        | ErrorKindView::JWTCreationError(_)
        | ErrorKindView::WrongPassword => 401,
        _ => 500,
    }
}

impl ErrorKind {
    /// The status that answers a request which failed with this error.
    pub fn status(&self) -> (s: u16)
        ensures
            s == status_of(self@),
    {
        match self {
            ErrorKind::NotFound | ErrorKind::MarkerNotFound => 404,
            ErrorKind::AlreadyExists
            | ErrorKind::EmailAlreadyExists
            | ErrorKind::UsernameAlreadyExists => 409,
            ErrorKind::InvalidValue => 400,
            ErrorKind::JWTError(_) | ErrorKind::JWTCreationError(_) | ErrorKind::WrongPassword => 401,
            _ => 500,
        }
    }
}

} // verus!
