//! The error every operation of the crate reports.

use vstd::prelude::*;

verus! {

/// The class of an [`ApplicationError`], without its detail text.
#[derive(Clone, Copy, Debug, PartialEq, Eq, Structural)]
pub enum ErrorKind {
    Unknown,
    EmptyResult,
    OpenAPI,
    DB,
    DBEntity,
    Parse,
    Validation,
    NotFound,
    Conflict,
}

/// What went wrong, with the detail needed to tell the user.
#[derive(Debug, PartialEq)]
pub enum ApplicationError {
    /// A fault that fits no other class, such as a reply that does not
    /// answer the statement that was issued.
    UnknownError(String),
    /// An answer was expected and none came.
    EmptyResult,
    /// The chat service failed.
    OpenAPIError(String),
    /// The storage engine failed: a broken constraint or a lost connection.
    DBError(String),
    /// A stored record could not be used.
    DBEntityError(String),
    /// A stored enum name matches no variant.
    ParseError(String),
    /// The input is malformed.
    ValidationError(String),
    /// The manager, setting or run does not exist, or is logically deleted.
    NotFoundError,
    /// An action extension is attached where one exists already.
    ConflictError(String),
}

/// The mathematical value of an [`ApplicationError`].
pub enum ApplicationErrorView {
    UnknownError(Seq<char>),
    EmptyResult,
    OpenAPIError(Seq<char>),
    DBError(Seq<char>),
    DBEntityError(Seq<char>),
    ParseError(Seq<char>),
    ValidationError(Seq<char>),
    NotFoundError,
    ConflictError(Seq<char>),
}

impl ApplicationErrorView {
    /// The class of the error.
    pub open spec fn kind(self) -> ErrorKind {
        match self {
            ApplicationErrorView::UnknownError(_) => ErrorKind::Unknown,
            ApplicationErrorView::EmptyResult => ErrorKind::EmptyResult,
            ApplicationErrorView::OpenAPIError(_) => ErrorKind::OpenAPI,
            ApplicationErrorView::DBError(_) => ErrorKind::DB,
            ApplicationErrorView::DBEntityError(_) => ErrorKind::DBEntity,
            ApplicationErrorView::ParseError(_) => ErrorKind::Parse,
            ApplicationErrorView::ValidationError(_) => ErrorKind::Validation,
            ApplicationErrorView::NotFoundError => ErrorKind::NotFound,
            ApplicationErrorView::ConflictError(_) => ErrorKind::Conflict,
        }
    }

    /// The text shown to the user.
    pub open spec fn message(self) -> Seq<char> {
        match self {
            ApplicationErrorView::UnknownError(d) => "unknown error. detail: "@ + d,
            ApplicationErrorView::EmptyResult => "result is empty"@,
            ApplicationErrorView::OpenAPIError(d) => "openai api error: "@ + d,
            ApplicationErrorView::DBError(d) => "db error: "@ + d,
            ApplicationErrorView::DBEntityError(d) => "entity error: "@ + d,
            ApplicationErrorView::ParseError(d) => "parse error: "@ + d,
            ApplicationErrorView::ValidationError(d) => "validation error: "@ + d,
            ApplicationErrorView::NotFoundError => "not found"@,
            ApplicationErrorView::ConflictError(d) => "conflict: "@ + d,
        }
    }
}

impl View for ApplicationError {
    type V = ApplicationErrorView;

    open spec fn view(&self) -> ApplicationErrorView {
        match *self {
            ApplicationError::UnknownError(d) => ApplicationErrorView::UnknownError(d@),
            ApplicationError::EmptyResult => ApplicationErrorView::EmptyResult,
            ApplicationError::OpenAPIError(d) => ApplicationErrorView::OpenAPIError(d@),
            ApplicationError::DBError(d) => ApplicationErrorView::DBError(d@),
            ApplicationError::DBEntityError(d) => ApplicationErrorView::DBEntityError(d@),
            ApplicationError::ParseError(d) => ApplicationErrorView::ParseError(d@),
            ApplicationError::ValidationError(d) => ApplicationErrorView::ValidationError(d@),
            ApplicationError::NotFoundError => ApplicationErrorView::NotFoundError,
            ApplicationError::ConflictError(d) => ApplicationErrorView::ConflictError(d@),
        }
    }
}

impl Clone for ApplicationError {
    fn clone(&self) -> (r: Self)
        ensures
            r == *self,
    {
        match self {
            ApplicationError::UnknownError(d) => ApplicationError::UnknownError(d.clone()),
            ApplicationError::EmptyResult => ApplicationError::EmptyResult,
            ApplicationError::OpenAPIError(d) => ApplicationError::OpenAPIError(d.clone()),
            ApplicationError::DBError(d) => ApplicationError::DBError(d.clone()),
            ApplicationError::DBEntityError(d) => ApplicationError::DBEntityError(d.clone()),
            ApplicationError::ParseError(d) => ApplicationError::ParseError(d.clone()),
            ApplicationError::ValidationError(d) => ApplicationError::ValidationError(d.clone()),
            ApplicationError::NotFoundError => ApplicationError::NotFoundError,
            ApplicationError::ConflictError(d) => ApplicationError::ConflictError(d.clone()),
        }
    }
}

/// `prefix` followed by `detail`.
fn prefixed(prefix: &str, detail: &String) -> (r: String)
    ensures
        r@ == prefix@ + detail@,
{
    prefix.to_string().concat(detail.as_str())
}

impl ApplicationError {
    /// The class of the error.
    pub fn kind(&self) -> (k: ErrorKind)
        ensures
            k == self@.kind(),
    {
        match self {
            ApplicationError::UnknownError(_) => ErrorKind::Unknown,
            ApplicationError::EmptyResult => ErrorKind::EmptyResult,
            ApplicationError::OpenAPIError(_) => ErrorKind::OpenAPI,
            ApplicationError::DBError(_) => ErrorKind::DB,
            ApplicationError::DBEntityError(_) => ErrorKind::DBEntity,
            ApplicationError::ParseError(_) => ErrorKind::Parse,
            ApplicationError::ValidationError(_) => ErrorKind::Validation,
            ApplicationError::NotFoundError => ErrorKind::NotFound,
            ApplicationError::ConflictError(_) => ErrorKind::Conflict,
        }
    }

    /// The text shown to the user: a fixed phrase for the class, followed by
    /// the detail where the error carries one.
    pub fn to_string(&self) -> (r: String)
        ensures
            r@ == self@.message(),
    {
        match self {
            ApplicationError::UnknownError(d) => prefixed("unknown error. detail: ", d),
            ApplicationError::EmptyResult => "result is empty".to_string(),
            ApplicationError::OpenAPIError(d) => prefixed("openai api error: ", d),
            ApplicationError::DBError(d) => prefixed("db error: ", d),
            ApplicationError::DBEntityError(d) => prefixed("entity error: ", d),
            ApplicationError::ParseError(d) => prefixed("parse error: ", d),
            ApplicationError::ValidationError(d) => prefixed("validation error: ", d),
            ApplicationError::NotFoundError => "not found".to_string(),
            ApplicationError::ConflictError(d) => prefixed("conflict: ", d),
        }
    }
}

} // verus!
