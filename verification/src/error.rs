//! The failures of the pipeline, and the response each one becomes.

use vstd::prelude::*;

use crate::response::{Response, ResponseView, Status};

verus! {

/// Body of the response to a request without its credential key.
pub const PARAMETER_MISSING: &'static str = "parameters is not applied";

/// Body of the response when the credential key names nothing in storage.
pub const KEY_NOT_FOUND: &'static str = "no suck s3_key";

/// Why an invocation ended without a token.
///
/// The variants that stand for a fault behind the broker carry the diagnostic
/// text that is shown to the caller.
#[derive(Clone, Debug, PartialEq, Eq)]
pub enum PipelineError {
    /// The request does not carry the credential key.
    ClientInput,
    /// Storage holds nothing under the credential key.
    ResourceNotFound,
    /// Storage failed in any other way.
    UpstreamStorage(String),
    /// The stored bytes are not JSON, or not a service-account document.
    CredentialFormat(String),
    /// The identity provider refused the exchange or could not be reached.
    TokenExchange(String),
    /// The process lacks configuration that it cannot serve without.
    Configuration(String),
}

/// A pipeline error with its diagnostic text as a sequence of characters.
pub enum PipelineErrorView {
    ClientInput,
    ResourceNotFound,
    UpstreamStorage(Seq<char>),
    CredentialFormat(Seq<char>),
    TokenExchange(Seq<char>),
    Configuration(Seq<char>),
}

impl View for PipelineError {
    type V = PipelineErrorView;

    open spec fn view(&self) -> PipelineErrorView {
        match self {
            PipelineError::ClientInput => PipelineErrorView::ClientInput,
            PipelineError::ResourceNotFound => PipelineErrorView::ResourceNotFound,
            PipelineError::UpstreamStorage(text) => PipelineErrorView::UpstreamStorage(text@),
            PipelineError::CredentialFormat(text) => PipelineErrorView::CredentialFormat(text@),
            PipelineError::TokenExchange(text) => PipelineErrorView::TokenExchange(text@),
            PipelineError::Configuration(text) => PipelineErrorView::Configuration(text@),
        }
    }
}

impl PipelineErrorView {
    /// The status under which the error reaches the caller.
    pub open spec fn status(self) -> Status {
        match self {
            PipelineErrorView::ClientInput => Status::BadRequest,
            PipelineErrorView::ResourceNotFound => Status::NotFound,
            _ => Status::InternalServerError,
        }
    }

    /// The text that tells the caller what went wrong.
    pub open spec fn diagnostic(self) -> Seq<char> {
        match self {
            PipelineErrorView::ClientInput => PARAMETER_MISSING@,
            PipelineErrorView::ResourceNotFound => KEY_NOT_FOUND@,
            PipelineErrorView::UpstreamStorage(text) => text,
            PipelineErrorView::CredentialFormat(text) => text,
            PipelineErrorView::TokenExchange(text) => text,
            PipelineErrorView::Configuration(text) => text,
        }
    }

    /// The response that the error becomes at the pipeline's boundary.
    pub open spec fn response(self) -> ResponseView {
        ResponseView { status: self.status(), body: self.diagnostic() }
    }
}

impl PipelineError {
    /// The status under which the error reaches the caller.
    pub fn status(&self) -> (status: Status)
        ensures
            status == self@.status(),
    {
        match self {
            PipelineError::ClientInput => Status::BadRequest,
            PipelineError::ResourceNotFound => Status::NotFound,
            _ => Status::InternalServerError,
        }
    }

    /// Turns the error into the response that the caller receives.
    pub fn into_response(self) -> (response: Response)
        ensures
            response@ == self@.response(),
    {
        let status = self.status();
        let body = match self {
            PipelineError::ClientInput => PARAMETER_MISSING.to_owned(),
            PipelineError::ResourceNotFound => KEY_NOT_FOUND.to_owned(),
            PipelineError::UpstreamStorage(text) => text,
            PipelineError::CredentialFormat(text) => text,
            PipelineError::TokenExchange(text) => text,
            PipelineError::Configuration(text) => text,
        };
        Response { status, body }
    }
}

/// An outcome that is text either way, by the view of whichever it holds.
pub open spec fn either_text(outcome: Result<String, String>) -> Result<Seq<char>, Seq<char>> {
    match outcome {
        Ok(text) => Ok(text@),
        Err(detail) => Err(detail@),
    }
}

/// A text or the error in its place, each by its view.
pub open spec fn text_or_error(outcome: Result<String, PipelineError>) -> Result<
    Seq<char>,
    PipelineErrorView,
> {
    match outcome {
        Ok(text) => Ok(text@),
        Err(error) => Err(error@),
    }
}

} // verus!
