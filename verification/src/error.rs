//! The ways in which a step of the pipeline fails.

use vstd::prelude::*;
use vstd::string::StringExecFns;

verus! {

/// The kind of a failure.
#[derive(Debug, Clone, Copy, PartialEq, Eq, Structural)]
pub enum ErrorKind {
    /// The network exchange did not take place or did not succeed.
    Transport,
    /// The prediction service answered with a status outside 2xx.
    Api,
    /// The service's answer did not have the shape of a prediction.
    ResponseParse,
    /// A directory could not be created or a file could not be written.
    Io,
    /// A record could not be encoded as JSON.
    Serialization,
}

/// A failure: its kind, and the text that is shown for it.
#[derive(Debug, Clone, PartialEq, Eq)]
pub struct PipelineError {
    pub kind: ErrorKind,
    pub message: String,
}

/// What a [`PipelineError`] holds, as mathematical values.
pub struct ErrorModel {
    pub kind: ErrorKind,
    pub message: Seq<char>,
}

impl View for PipelineError {
    type V = ErrorModel;

    open spec fn view(&self) -> ErrorModel {
        ErrorModel { kind: self.kind, message: self.message@ }
    }
}

/// The failure of kind `kind` whose text is `context` followed by `cause`.
pub open spec fn failure(kind: ErrorKind, context: Seq<char>, cause: Seq<char>) -> ErrorModel {
    ErrorModel { kind, message: context + cause }
}

impl PipelineError {
    /// A failure of kind `kind`, described by `context` followed by `cause`.
    pub fn new(kind: ErrorKind, context: &str, cause: &str) -> (e: PipelineError)
        ensures
            e@ == failure(kind, context@, cause@),
    {
        let mut message = String::from_str(context);
        message.append(cause);
        PipelineError { kind, message }
    }
}

} // verus!
