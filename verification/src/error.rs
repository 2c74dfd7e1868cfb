//! The errors that an operation hands back to its caller.
use crate::data_model::data_points::InvalidPoint;
use vstd::prelude::*;
use reqwest::Error as TransportError;
use vstd::std_specs::convert::FromSpecImpl;

verus! {

/// `std::io::Error`, carried through as an opaque value.
#[verifier::external_type_specification]
#[verifier::external_body]
pub struct ExIoError(std::io::Error);

/// `reqwest::Error`, carried through as an opaque value.
#[verifier::external_type_specification]
#[verifier::external_body]
pub struct ExTransportError(TransportError);

/// What went wrong, without the message.
#[derive(Clone, Copy, Debug, PartialEq, Eq, Structural)]
pub enum Category {
    /// The server could not read the request.
    SyntaxError,
    /// The server refused the credentials.
    InvalidCredentials,
    /// The database that the request names does not exist.
    DataBaseDoesNotExist,
    /// The retention policy that the request names does not exist.
    RetentionPolicyDoesNotExist,
    /// The request did not reach the server, or its answer did not arrive.
    Communication,
    /// Anything else.
    Unknown,
}

/// The error of the client: one category, with a message for a human reader.
#[derive(Debug, PartialEq, Eq)]
pub enum ErrorKind {
    /// Syntax error
    SyntaxError(String),
    /// Invalid credentials
    InvalidCredentials(String),
    /// The specified database does not exist
    DataBaseDoesNotExist(String),
    /// The specified retention policy does not exist
    RetentionPolicyDoesNotExist(String),
    /// Some error on build url or io.
    Communication(String),
    /// Some other error
    Unknown(String),
}

/// An error as the caller sees it.
#[derive(Debug, PartialEq, Eq)]
pub struct Error {
    /// Holds the inner error kind
    pub inner: ErrorKind,
}

/// The mathematical content of an [`Error`]: its category and its message.
pub struct ErrorView {
    pub category: Category,
    pub message: Seq<char>,
}

impl ErrorKind {
    /// The category of this error.
    pub open spec fn category(&self) -> Category {
        match self {
            ErrorKind::SyntaxError(_) => Category::SyntaxError,
            ErrorKind::InvalidCredentials(_) => Category::InvalidCredentials,
            ErrorKind::DataBaseDoesNotExist(_) => Category::DataBaseDoesNotExist,
            ErrorKind::RetentionPolicyDoesNotExist(_) => Category::RetentionPolicyDoesNotExist,
            ErrorKind::Communication(_) => Category::Communication,
            ErrorKind::Unknown(_) => Category::Unknown,
        }
    }

    /// The message of this error.
    pub open spec fn message(&self) -> Seq<char> {
        match self {
            ErrorKind::SyntaxError(t) => t@,
            ErrorKind::InvalidCredentials(t) => t@,
            ErrorKind::DataBaseDoesNotExist(t) => t@,
            ErrorKind::RetentionPolicyDoesNotExist(t) => t@,
            ErrorKind::Communication(t) => t@,
            ErrorKind::Unknown(t) => t@,
        }
    }

    /// An error of the given category with the given message.
    pub fn new(category: Category, message: String) -> (kind: ErrorKind)
        ensures
            kind.category() == category,
            kind.message() == message@,
    {
        match category {
            Category::SyntaxError => ErrorKind::SyntaxError(message),
            Category::InvalidCredentials => ErrorKind::InvalidCredentials(message),
            Category::DataBaseDoesNotExist => ErrorKind::DataBaseDoesNotExist(message),
            Category::RetentionPolicyDoesNotExist => ErrorKind::RetentionPolicyDoesNotExist(
                message,
            ),
            Category::Communication => ErrorKind::Communication(message),
            Category::Unknown => ErrorKind::Unknown(message),
        }
    }

    /// The category of this error.
    pub fn kind(&self) -> (category: Category)
        ensures
            category == self.category(),
    {
        match self {
            ErrorKind::SyntaxError(_) => Category::SyntaxError,
            ErrorKind::InvalidCredentials(_) => Category::InvalidCredentials,
            ErrorKind::DataBaseDoesNotExist(_) => Category::DataBaseDoesNotExist,
            ErrorKind::RetentionPolicyDoesNotExist(_) => Category::RetentionPolicyDoesNotExist,
            ErrorKind::Communication(_) => Category::Communication,
            ErrorKind::Unknown(_) => Category::Unknown,
        }
    }

    /// The message alone, as the error is displayed.
    pub fn to_string(&self) -> (text: String)
        ensures
            text@ == self.message(),
    {
        match self {
            ErrorKind::SyntaxError(t) => t.clone(),
            ErrorKind::InvalidCredentials(t) => t.clone(),
            ErrorKind::DataBaseDoesNotExist(t) => t.clone(),
            ErrorKind::RetentionPolicyDoesNotExist(t) => t.clone(),
            ErrorKind::Communication(t) => t.clone(),
            ErrorKind::Unknown(t) => t.clone(),
        }
    }
}

impl View for Error {
    type V = ErrorView;

    open spec fn view(&self) -> ErrorView {
        ErrorView { category: self.inner.category(), message: self.inner.message() }
    }
}

impl Error {
    /// An error of the given category with the given message.
    pub fn new(category: Category, message: String) -> (error: Error)
        ensures
            error@ == (ErrorView { category, message: message@ }),
    {
        Error { inner: ErrorKind::new(category, message) }
    }

    /// The error of a request that did not reach the server, or whose answer did
    /// not arrive, with the transport's own description as its message.
    pub fn communication(message: String) -> (error: Error)
        ensures
            error@ == (ErrorView { category: Category::Communication, message: message@ }),
    {
        Error { inner: ErrorKind::Communication(message) }
    }

    /// The error of a batch that is refused before anything is sent: a syntax
    /// error, as the server answers lines that it cannot read, that names the
    /// first point that cannot be written and its fault.
    pub fn refused(invalid: &InvalidPoint) -> (error: Error)
        ensures
            error@ == (ErrorView { category: Category::SyntaxError, message: invalid.text() }),
    {
        Error { inner: ErrorKind::SyntaxError(invalid.to_string()) }
    }

    /// The message alone, as the error is displayed.
    pub fn to_string(&self) -> (text: String)
        ensures
            text@ == self@.message,
    {
        self.inner.to_string()
    }
}

/// The text that `std::io::Error` displays. It depends on the error alone,
/// which is opaque here, so nothing is claimed of it.
#[verifier::external_body]
fn io_error_text(err: &std::io::Error) -> String {
    format!("{}", err)
}

/// The text that `reqwest::Error` displays. It depends on the error alone,
/// which is opaque here, so nothing is claimed of it.
#[verifier::external_body]
fn transport_error_text(err: &TransportError) -> String {
    format!("{}", err)
}

impl From<std::io::Error> for Error {
    /// An input or output failure is a communication error.
    fn from(err: std::io::Error) -> (error: Error)
        ensures
            error@.category == Category::Communication,
    {
        Error::communication(io_error_text(&err))
    }
}

impl FromSpecImpl<std::io::Error> for Error {
    open spec fn obeys_from_spec() -> bool {
        false
    }

    open spec fn from_spec(v: std::io::Error) -> Error {
        arbitrary()
    }
}

impl From<TransportError> for Error {
    /// A failure of the transport is a communication error.
    fn from(err: TransportError) -> (error: Error)
        ensures
            error@.category == Category::Communication,
    {
        Error::communication(transport_error_text(&err))
    }
}

impl FromSpecImpl<TransportError> for Error {
    open spec fn obeys_from_spec() -> bool {
        false
    }

    open spec fn from_spec(v: TransportError) -> Error {
        arbitrary()
    }
}

} // verus!
