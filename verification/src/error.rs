//! The domain's failure kinds, each matching one of gitweb's `die_error`
//! statuses.

use vstd::prelude::*;

verus! {

/// A domain failure. The variant decides the HTTP status the boundary answers
/// with; the message is gitweb's `die_error` text.
#[derive(Debug, Clone, PartialEq, Eq)]
pub enum DomainError {
    /// A malformed request (gitweb's 400).
    Invalid(String),
    /// A missing object, project or file (gitweb's 404).
    NotFound(String),
    /// A disabled feature or refused request (gitweb's 403).
    Forbidden(String),
    /// A failure of the repository backend (gitweb's 500).
    Backend(String),
}

/// A [`DomainError`] seen as its kind and message text.
pub enum ErrorView {
    /// gitweb's 400 with its message.
    Invalid(Seq<char>),
    /// gitweb's 404 with its message.
    NotFound(Seq<char>),
    /// gitweb's 403 with its message.
    Forbidden(Seq<char>),
    /// gitweb's 500 with its message.
    Backend(Seq<char>),
}

impl View for DomainError {
    type V = ErrorView;

    open spec fn view(&self) -> ErrorView {
        match self {
            DomainError::Invalid(m) => ErrorView::Invalid(m@),
            DomainError::NotFound(m) => ErrorView::NotFound(m@),
            DomainError::Forbidden(m) => ErrorView::Forbidden(m@),
            DomainError::Backend(m) => ErrorView::Backend(m@),
        }
    }
}

/// Builds the `Invalid` error for `msg`.
pub fn invalid(msg: &str) -> (e: DomainError)
    ensures
        e@ == ErrorView::Invalid(msg@),
{
    DomainError::Invalid(msg.to_owned())
}

/// Builds the `NotFound` error for `msg`.
pub fn not_found(msg: &str) -> (e: DomainError)
    ensures
        e@ == ErrorView::NotFound(msg@),
{
    DomainError::NotFound(msg.to_owned())
}

/// Builds the `Forbidden` error for `msg`.
pub fn forbidden(msg: &str) -> (e: DomainError)
    ensures
        e@ == ErrorView::Forbidden(msg@),
{
    DomainError::Forbidden(msg.to_owned())
}

/// Builds the `Backend` error for `msg`.
pub fn backend(msg: &str) -> (e: DomainError)
    ensures
        e@ == ErrorView::Backend(msg@),
{
    DomainError::Backend(msg.to_owned())
}

/// The optional text seen as an optional character sequence.
pub open spec fn opt_view(o: Option<String>) -> Option<Seq<char>> {
    match o {
        Some(s) => Some(s@),
        None => None,
    }
}

/// The optional borrowed text seen as an optional character sequence.
pub open spec fn opt_str_view(o: Option<&str>) -> Option<Seq<char>> {
    match o {
        Some(s) => Some(s@),
        None => None,
    }
}

} // verus!
