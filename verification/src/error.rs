//! The ways in which a request can fail.

use vstd::prelude::*;

verus! {

/// Why a request gave no result. Every failure is handed to the caller as it
/// is: nothing is retried and nothing is replaced by a default.
#[derive(Debug, Clone, PartialEq, Eq)]
pub enum ApiError {
    /// The request did not get through, or no response came back. Holds the
    /// transport's description of the cause.
    Transport(String),
    /// The server answered with a status outside 200 to 299.
    HttpStatus(u16),
    /// The body of the response is not a JSON document.
    Parse,
    /// The body is a JSON document of another shape than the data model:
    /// a required value is missing or a value is of the wrong kind. Holds
    /// the path of that value, made of the model's field names and list
    /// positions joined by dots.
    SchemaMismatch(String),
    /// A request named a section of extra data that does not exist. Holds
    /// that name. No request is sent.
    InvalidSelector(String),
}

/// The mathematical value of an [`ApiError`].
pub enum ApiErrorView {
    Transport(Seq<char>),
    HttpStatus(u16),
    Parse,
    SchemaMismatch(Seq<char>),
    InvalidSelector(Seq<char>),
}

impl DeepView for ApiError {
    type V = ApiErrorView;

    open spec fn deep_view(&self) -> ApiErrorView {
        match self {
            ApiError::Transport(cause) => ApiErrorView::Transport(cause@),
            ApiError::HttpStatus(code) => ApiErrorView::HttpStatus(*code),
            ApiError::Parse => ApiErrorView::Parse,
            ApiError::SchemaMismatch(path) => ApiErrorView::SchemaMismatch(path@),
            ApiError::InvalidSelector(name) => ApiErrorView::InvalidSelector(name@),
        }
    }
}

} // verus!
