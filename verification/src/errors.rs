//! The error taxonomy of the viewer. Every failure in fetching, downloading
//! or spinner loading is fatal to the program; only a type-filter rejection
//! is retried, and that is not an error.

use vstd::prelude::*;

verus! {

/// Everything that can go wrong in one pass of the interaction loop.
#[derive(Debug, Clone, Copy, PartialEq, Eq, Structural)]
pub enum AppError {
    /// Transport or deserialization failure while talking to the network.
    Network,
    /// A definition document that is not well-formed.
    Parse,
    /// The catalog answered with zero posts.
    EmptyResult,
    /// A credential that cannot be turned into a request header.
    AuthEncoding,
    /// A scratch-file or cache-file write failure.
    Io,
    /// No spinner animation available to choose from.
    EmptyDefinitionSet,
}

impl AppError {
    /// A short description, for the process's final message.
    pub fn message(&self) -> (r: &'static str)
        ensures
            *self is Network ==> r@ == "network request failed"@,
            *self is Parse ==> r@ == "malformed definition document"@,
            *self is EmptyResult ==> r@ == "no posts returned"@,
            *self is AuthEncoding ==> r@ == "credential cannot be encoded into a header"@,
            *self is Io ==> r@ == "file write failed"@,
            *self is EmptyDefinitionSet ==> r@ == "no spinner animations available"@,
    {
        match self {
            AppError::Network => "network request failed",
            AppError::Parse => "malformed definition document",
            AppError::EmptyResult => "no posts returned",
            AppError::AuthEncoding => "credential cannot be encoded into a header",
            AppError::Io => "file write failed",
            AppError::EmptyDefinitionSet => "no spinner animations available",
        }
    }
}

} // verus!
