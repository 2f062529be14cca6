//! The error type of the library.

use vstd::prelude::*;

verus! {

/// What went wrong.
#[derive(Debug)]
pub enum OpenFangError {
    /// A user may not do what was asked for.
    AuthDenied(String),
    /// A memory store refused a request.
    Memory(String),
    /// A request that cannot be served.
    Internal(String),
}

/// What an error holds.
pub enum ErrorView {
    AuthDenied(Seq<char>),
    Memory(Seq<char>),
    Internal(Seq<char>),
}

impl View for OpenFangError {
    type V = ErrorView;

    open spec fn view(&self) -> ErrorView {
        match *self {
            OpenFangError::AuthDenied(text) => ErrorView::AuthDenied(text@),
            OpenFangError::Memory(text) => ErrorView::Memory(text@),
            OpenFangError::Internal(text) => ErrorView::Internal(text@),
        }
    }
}

/// The result of an operation that can fail.
pub type OpenFangResult<T> = Result<T, OpenFangError>;

/// What the result of an operation without a value holds.
pub open spec fn unit_view(result: OpenFangResult<()>) -> Result<(), ErrorView> {
    match result {
        Ok(()) => Ok(()),
        Err(e) => Err(e@),
    }
}

} // verus!
