use vstd::prelude::*;

verus! {

/// Why a request to the registry is refused.
#[derive(Debug)]
pub enum AppError {
    /// The request itself is malformed; the text says how.
    BadRequest(String),
    /// What the request names does not exist.
    NotFound,
    /// The request collides with what is already stored.
    Conflict(String),
    /// The registry met stored or produced data that it cannot handle.
    Internal(String),
}

/// The mathematical counterpart of [`AppError`].
pub enum Fault {
    BadRequest(Seq<char>),
    NotFound,
    Conflict(Seq<char>),
    Internal(Seq<char>),
}

impl View for AppError {
    type V = Fault;

    open spec fn view(&self) -> Fault {
        match self {
            AppError::BadRequest(text) => Fault::BadRequest(text@),
            AppError::NotFound => Fault::NotFound,
            AppError::Conflict(text) => Fault::Conflict(text@),
            AppError::Internal(text) => Fault::Internal(text@),
        }
    }
}

/// A bad request with the given explanation.
pub fn bad_request(text: &str) -> (error: AppError)
    ensures
        error@ == Fault::BadRequest(text@),
{
    AppError::BadRequest(text.to_owned())
}

/// An internal error with the given explanation.
pub fn internal(text: &str) -> (error: AppError)
    ensures
        error@ == Fault::Internal(text@),
{
    AppError::Internal(text.to_owned())
}

} // verus!
