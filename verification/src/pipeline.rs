//! The credential-exchange pipeline.
//!
//! An invocation is a short chain: the request names a credential key, the
//! credential is fetched from storage, read, and exchanged for a token. The
//! broker decides; it does not wait. Each decision is a [`Step`]: fetch this,
//! exchange that, or respond. Whoever drives the pipeline carries out the step
//! and reports what came of it as the next [`Event`], until the step is a
//! response. The first failure ends the invocation; nothing is tried twice.

use vstd::prelude::*;

use crate::credential::{credential_of, ServiceCredential};
use crate::error::{either_text, text_or_error, PipelineError, PipelineErrorView};
use crate::response::{Response, ResponseView, Status};
use crate::storage::{GetObjectFailure, GetObjectFailureView};

verus! {

/// The query parameter that carries the credential key.
pub const KEY_PARAMETER: &'static str = "s3_key";

/// The environment variable that names the storage bucket.
pub const BUCKET_VARIABLE: &'static str = "S3_BUCKET";

/// The one scope that tokens are requested for.
pub const TOKEN_SCOPE: &'static str = "https://www.googleapis.com/auth/cloud-platform";

/// Diagnostic of a process that was started without its bucket.
pub const BUCKET_MISSING: &'static str = "environment variable not found: S3_BUCKET";

/// What precedes the description of a failed token exchange.
pub const EXCHANGE_ERROR_PREFIX: &'static str = "got gcp auth error:";

/// What the process is configured with, once, before it serves.
#[derive(Clone, Debug, PartialEq, Eq)]
pub struct Config {
    bucket: String,
}

impl View for Config {
    type V = Seq<char>;

    /// The name of the bucket.
    closed spec fn view(&self) -> Seq<char> {
        self.bucket@
    }
}

/// The configuration that a bucket setting gives, if it is there at all.
pub open spec fn resolved(bucket: Option<Seq<char>>) -> Result<Seq<char>, PipelineErrorView> {
    match bucket {
        Some(name) => Ok(name),
        None => Err(PipelineErrorView::Configuration(BUCKET_MISSING@)),
    }
}

/// A configuration or the error in its place, each by its view.
pub open spec fn config_or_error(outcome: Result<Config, PipelineError>) -> Result<
    Seq<char>,
    PipelineErrorView,
> {
    match outcome {
        Ok(config) => Ok(config@),
        Err(error) => Err(error@),
    }
}

impl Config {
    /// A configuration with the given bucket.
    pub fn new(bucket: String) -> (config: Config)
        ensures
            config@ == bucket@,
    {
        Config { bucket }
    }

    /// The configuration for the bucket setting as the environment has it.
    /// Without the setting no request can be served.
    pub fn resolve(bucket: Option<String>) -> (outcome: Result<Config, PipelineError>)
        ensures
            config_or_error(outcome) == resolved(bucket.deep_view()),
    {
        match bucket {
            Some(name) => Ok(Config { bucket: name }),
            None => Err(PipelineError::Configuration(BUCKET_MISSING.to_owned())),
        }
    }

    /// The name of the bucket.
    pub fn bucket(&self) -> (name: &str)
        ensures
            name@ == self@,
    {
        self.bucket.as_str()
    }
}

/// An inbound request, reduced to the one parameter that matters.
#[derive(Clone, Debug, PartialEq, Eq)]
pub struct Request {
    /// The key under which the credential lies in storage, if the request
    /// carries one.
    pub credential_key: Option<String>,
}

impl View for Request {
    type V = Option<Seq<char>>;

    open spec fn view(&self) -> Option<Seq<char>> {
        self.credential_key.deep_view()
    }
}

/// What the driver reports to the pipeline.
#[derive(Debug, PartialEq, Eq)]
pub enum Event {
    /// A request has come in.
    Request(Request),
    /// Storage has answered: the object's bytes, or why there are none.
    Fetched(Result<Vec<u8>, GetObjectFailure>),
    /// The identity provider has answered: the token, or the description of
    /// its error.
    Exchanged(Result<String, String>),
}

/// An event by the views of what it carries.
pub enum EventView {
    Request(Option<Seq<char>>),
    Fetched(Result<Seq<u8>, GetObjectFailureView>),
    Exchanged(Result<Seq<char>, Seq<char>>),
}

/// The answer of storage, by the views of what it carries.
pub open spec fn fetched_view(outcome: Result<Vec<u8>, GetObjectFailure>) -> Result<
    Seq<u8>,
    GetObjectFailureView,
> {
    match outcome {
        Ok(bytes) => Ok(bytes@),
        Err(failure) => Err(failure@),
    }
}

impl View for Event {
    type V = EventView;

    open spec fn view(&self) -> EventView {
        match self {
            Event::Request(request) => EventView::Request(request@),
            Event::Fetched(outcome) => EventView::Fetched(fetched_view(*outcome)),
            Event::Exchanged(outcome) => EventView::Exchanged(either_text(*outcome)),
        }
    }
}

/// What the pipeline asks of its driver.
#[derive(Debug)]
pub enum Step {
    /// Fetch the object under `key` in `bucket`, and report `Event::Fetched`.
    Fetch { bucket: String, key: String },
    /// Exchange the credential for a token with the given scopes, and report
    /// `Event::Exchanged`.
    Exchange { credential: ServiceCredential, scopes: Vec<String> },
    /// Answer the caller. The invocation is over.
    Respond(Response),
}

/// A step by the views of what it carries.
pub enum StepView {
    Fetch { bucket: Seq<char>, key: Seq<char> },
    Exchange { credential: Seq<char>, scopes: Seq<Seq<char>> },
    Respond(ResponseView),
}

impl View for Step {
    type V = StepView;

    open spec fn view(&self) -> StepView {
        match self {
            Step::Fetch { bucket, key } => StepView::Fetch { bucket: bucket@, key: key@ },
            Step::Exchange { credential, scopes } => StepView::Exchange {
                credential: credential@,
                scopes: scopes.deep_view(),
            },
            Step::Respond(response) => StepView::Respond(response@),
        }
    }
}

/// The scopes of every exchange.
pub open spec fn token_scopes() -> Seq<Seq<char>> {
    seq![TOKEN_SCOPE@]
}

/// The step that an error ends the invocation with.
pub open spec fn failed(error: PipelineErrorView) -> StepView {
    StepView::Respond(error.response())
}

/// The step after a request: fetch what it names, or turn it away if it names
/// nothing.
pub open spec fn request_step(bucket: Seq<char>, request: Option<Seq<char>>) -> StepView {
    match request {
        Some(key) => StepView::Fetch { bucket, key },
        None => failed(PipelineErrorView::ClientInput),
    }
}

/// The credential that an answer of storage holds.
pub open spec fn fetched_credential(outcome: Result<Seq<u8>, GetObjectFailureView>) -> Result<
    Seq<char>,
    PipelineErrorView,
> {
    match outcome {
        Ok(bytes) => credential_of(bytes),
        Err(failure) => Err(failure.error()),
    }
}

/// The step after storage has answered: exchange the credential that the
/// object holds, or report why there is none.
pub open spec fn fetch_step(outcome: Result<Seq<u8>, GetObjectFailureView>) -> StepView {
    match fetched_credential(outcome) {
        Ok(credential) => StepView::Exchange { credential, scopes: token_scopes() },
        Err(error) => failed(error),
    }
}

/// The token that an answer of the identity provider holds.
pub open spec fn exchanged_token(outcome: Result<Seq<char>, Seq<char>>) -> Result<
    Seq<char>,
    PipelineErrorView,
> {
    match outcome {
        Ok(token) => Ok(token),
        Err(detail) => Err(PipelineErrorView::TokenExchange(EXCHANGE_ERROR_PREFIX@ + detail)),
    }
}

/// The response to a finished invocation: the bare token, or the error's
/// status and diagnostic.
pub open spec fn final_response(outcome: Result<Seq<char>, PipelineErrorView>) -> ResponseView {
    match outcome {
        Ok(token) => ResponseView { status: Status::Success, body: token },
        Err(error) => error.response(),
    }
}

/// The response after the identity provider has answered.
pub open spec fn exchange_response(outcome: Result<Seq<char>, Seq<char>>) -> ResponseView {
    final_response(exchanged_token(outcome))
}

/// The step that follows an event.
pub open spec fn transition(bucket: Seq<char>, event: EventView) -> StepView {
    match event {
        EventView::Request(request) => request_step(bucket, request),
        EventView::Fetched(outcome) => fetch_step(outcome),
        EventView::Exchanged(outcome) => StepView::Respond(exchange_response(outcome)),
    }
}

/// The response of a whole invocation in which storage and the identity
/// provider answer as given. An answer that the invocation does not get to ask
/// for plays no part.
pub open spec fn outcome(
    bucket: Seq<char>,
    request: Option<Seq<char>>,
    fetched: Result<Seq<u8>, GetObjectFailureView>,
    exchanged: Result<Seq<char>, Seq<char>>,
) -> ResponseView {
    match transition(bucket, EventView::Request(request)) {
        StepView::Respond(response) => response,
        _ => match transition(bucket, EventView::Fetched(fetched)) {
            StepView::Respond(response) => response,
            _ => exchange_response(exchanged),
        },
    }
}

/// Takes the credential key out of a request.
pub fn extract_key(request: Request) -> (key: Result<String, PipelineError>)
    ensures
        text_or_error(key) == match request@ {
            Some(name) => Ok::<Seq<char>, PipelineErrorView>(name),
            None => Err(PipelineErrorView::ClientInput),
        },
{
    match request.credential_key {
        Some(name) => Ok(name),
        None => Err(PipelineError::ClientInput),
    }
}

/// The scopes of every exchange.
pub fn scopes() -> (scopes: Vec<String>)
    ensures
        scopes.deep_view() == token_scopes(),
{
    let mut scopes: Vec<String> = Vec::new();
    scopes.push(TOKEN_SCOPE.to_owned());
    assert(scopes.deep_view() =~= token_scopes());
    scopes
}

/// Maps the end of an invocation to its response.
pub fn respond(outcome: Result<String, PipelineError>) -> (response: Response)
    ensures
        response@ == final_response(text_or_error(outcome)),
{
    match outcome {
        Ok(token) => Response { status: Status::Success, body: token },
        Err(error) => error.into_response(),
    }
}

/// Decides what follows a request.
pub fn on_request(config: &Config, request: Request) -> (step: Step)
    ensures
        step@ == request_step(config@, request@),
{
    match extract_key(request) {
        Ok(key) => Step::Fetch { bucket: config.bucket.clone(), key },
        Err(error) => Step::Respond(error.into_response()),
    }
}

/// Decides what follows the answer of storage.
pub fn on_fetched(outcome: Result<Vec<u8>, GetObjectFailure>) -> (step: Step)
    ensures
        step@ == fetch_step(fetched_view(outcome)),
{
    let credential = match outcome {
        Ok(bytes) => ServiceCredential::from_bytes(bytes.as_slice()),
        Err(failure) => Err(failure.into_error()),
    };
    match credential {
        Ok(credential) => Step::Exchange { credential, scopes: scopes() },
        Err(error) => Step::Respond(error.into_response()),
    }
}

/// Decides the response that follows the answer of the identity provider.
pub fn on_exchanged(outcome: Result<String, String>) -> (response: Response)
    ensures
        response@ == exchange_response(either_text(outcome)),
{
    let token = match outcome {
        Ok(token) => Ok(token),
        Err(detail) => Err(
            PipelineError::TokenExchange(
                EXCHANGE_ERROR_PREFIX.to_owned().concat(detail.as_str()),
            ),
        ),
    };
    respond(token)
}

/// Decides the step that follows an event.
pub fn advance(config: &Config, event: Event) -> (step: Step)
    ensures
        step@ == transition(config@, event@),
{
    match event {
        Event::Request(request) => on_request(config, request),
        Event::Fetched(outcome) => on_fetched(outcome),
        Event::Exchanged(outcome) => Step::Respond(on_exchanged(outcome)),
    }
}

/// Runs a whole invocation against answers that are known beforehand, as a
/// driver with a stand-in for storage and for the identity provider would.
pub fn replay(
    config: &Config,
    request: Request,
    fetched: Result<Vec<u8>, GetObjectFailure>,
    exchanged: Result<String, String>,
) -> (response: Response)
    ensures
        response@ == outcome(config@, request@, fetched_view(fetched), either_text(exchanged)),
{
    match advance(config, Event::Request(request)) {
        Step::Respond(response) => response,
        _ => match advance(config, Event::Fetched(fetched)) {
            Step::Respond(response) => response,
            _ => on_exchanged(exchanged),
        },
    }
}

} // verus!
