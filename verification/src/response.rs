//! The outcome of one invocation: a status and a body.

use vstd::prelude::*;

verus! {

/// The status classes the broker answers with.
#[derive(Clone, Copy, Debug, PartialEq, Eq, Structural)]
pub enum Status {
    /// The token was obtained.
    Success,
    /// The request lacks its required parameter.
    BadRequest,
    /// The credential key names nothing in storage.
    NotFound,
    /// Storage, the credential or the identity provider failed.
    InternalServerError,
}

impl Status {
    /// The number that HTTP gives this status.
    pub open spec fn spec_code(self) -> u16 {
        match self {
            Status::Success => 200,
            Status::BadRequest => 400,
            Status::NotFound => 404,
            Status::InternalServerError => 500,
        }
    }

    /// The number that HTTP gives this status.
    #[verifier::when_used_as_spec(spec_code)]
    pub fn code(self) -> (code: u16)
        ensures
            code == self.spec_code(),
    {
        match self {
            Status::Success => 200,
            Status::BadRequest => 400,
            Status::NotFound => 404,
            Status::InternalServerError => 500,
        }
    }
}

/// What the caller receives: exactly one per invocation.
#[derive(Clone, Debug, PartialEq, Eq)]
pub struct Response {
    pub status: Status,
    pub body: String,
}

/// A response with its body as a sequence of characters.
pub struct ResponseView {
    pub status: Status,
    pub body: Seq<char>,
}

impl View for Response {
    type V = ResponseView;

    open spec fn view(&self) -> ResponseView {
        ResponseView { status: self.status, body: self.body@ }
    }
}

} // verus!
