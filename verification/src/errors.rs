//! The failures of the service, by who caused them, and the HTTP status that
//! answers each.

use vstd::prelude::*;

verus! {

/// Status of a successful answer.
pub const STATUS_OK: u16 = 200;

/// Status of an answer to a request that created a resource.
pub const STATUS_CREATED: u16 = 201;

/// Status of an answer to malformed input.
pub const STATUS_BAD_REQUEST: u16 = 400;

/// Status of an answer to a request for a card or deck that does not exist.
pub const STATUS_NOT_FOUND: u16 = 404;

/// Status of an answer to a request that failed inside the service.
pub const STATUS_INTERNAL_ERROR: u16 = 500;

/// A failure that the caller's input caused.
#[derive(Debug, PartialEq, Eq)]
pub enum ClientError {
    /// The card or deck asked for does not exist.
    ResourceNotFound,
    /// The input is malformed; the text says how.
    InvalidInput(String),
}

/// A failure of the service's own resources.
#[derive(Debug, PartialEq, Eq)]
pub enum ServerError {
    /// The database could not be reached or locked.
    DatabaseConnectionError,
    /// The database refused a request; the text says why.
    DatabaseError(String),
    /// A file could not be read or written; the text says which and why.
    FileIOError(String),
}

/// A failure to fill a template.
#[derive(Debug, PartialEq, Eq)]
pub enum TemplateError {
    /// The named field of the card holds bytes that are no text.
    Unrepresentable(String),
}

/// A failure to turn a document into an image.
#[derive(Debug, PartialEq, Eq)]
pub enum RenderError {
    /// The converter exited with a failure; the text is what it wrote to its
    /// error stream.
    ProcessFailed(String),
    /// The converter exited with a failure and its error stream is not UTF-8.
    DiagnosticsNotUtf8,
    /// The sheet has more cards than a canvas can be sized for.
    SheetTooLarge,
}

/// A failure to bring the artwork of a card into place.
#[derive(Debug, PartialEq, Eq)]
pub enum RetrievalError {
    /// The artwork's address is no URL.
    MalformedUrl,
    /// The local file that the address names could not be read.
    NotFound,
    /// The artwork could not be fetched or could not be stored.
    TransferFailed,
}

/// Any failure of the service.
#[derive(Debug, PartialEq, Eq)]
pub enum AppError {
    Client(ClientError),
    Server(ServerError),
    Template(TemplateError),
    Render(RenderError),
    Retrieval(RetrievalError),
}

/// The status that answers a failure: not found and bad request for the two
/// failures of the caller, internal error for every other one.
pub open spec fn status_of(error: AppError) -> u16 {
    match error {
        AppError::Client(ClientError::ResourceNotFound) => STATUS_NOT_FOUND,
        AppError::Client(ClientError::InvalidInput(_)) => STATUS_BAD_REQUEST,
        _ => STATUS_INTERNAL_ERROR,
    }
}

impl AppError {
    /// The HTTP status that answers this failure.
    pub fn status_code(&self) -> (status: u16)
        ensures
            status == status_of(*self),
    {
        match self {
            AppError::Client(ClientError::ResourceNotFound) => STATUS_NOT_FOUND,
            AppError::Client(ClientError::InvalidInput(_)) => STATUS_BAD_REQUEST,
            _ => STATUS_INTERNAL_ERROR,
        }
    }
}

} // verus!
