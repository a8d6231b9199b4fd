//! What holds of every invocation.
//!
//! The statements are about [`outcome`] and [`transition`], the functions by
//! which the pipeline's steps are specified, so each of them holds of whatever
//! the executable pipeline does.

use vstd::prelude::*;

use crate::credential::{
    credential_of, rejected, service_account_rejection, CONSTRUCT_ERROR_PREFIX,
};
use crate::error::{KEY_NOT_FOUND, PARAMETER_MISSING};
use crate::json::{json_normal_form, JSON_ERROR_PREFIX};
use crate::pipeline::{
    outcome, token_scopes, transition, EventView, StepView, EXCHANGE_ERROR_PREFIX,
};
use crate::response::{ResponseView, Status};
use crate::storage::{
    GetObjectFailureView, READ_ERROR_PREFIX, SDK_ERROR_PREFIX, SERVICE_ERROR_PREFIX,
};

verus! {

/// Whether `part` occurs in `text` as a run of consecutive characters.
pub open spec fn contains(text: Seq<char>, part: Seq<char>) -> bool {
    exists|start: int|
        0 <= start <= text.len() - part.len() && #[trigger] text.subrange(
            start,
            start + part.len(),
        ) == part
}

/// A text that ends in `part` contains it.
pub proof fn lemma_contains_suffix(head: Seq<char>, part: Seq<char>)
    ensures
        contains(head + part, part),
{
    let text = head + part;
    let start = head.len() as int;
    assert(text.subrange(start, start + part.len()) =~= part);
}

/// The stages follow each other in one order. A request leads to a fetch or to
/// a response, the answer of storage to an exchange or to a response, and the
/// answer of the identity provider to a response: every step either moves one
/// stage on or ends the invocation, and none goes back.
pub proof fn stages_follow_in_order(bucket: Seq<char>, event: EventView)
    ensures
        event is Request ==> transition(bucket, event) is Fetch || transition(
            bucket,
            event,
        ) is Respond,
        event is Fetched ==> transition(bucket, event) is Exchange || transition(
            bucket,
            event,
        ) is Respond,
        event is Exchanged ==> transition(bucket, event) is Respond,
{
}

/// A request without a credential key is answered with status 400 and the
/// fixed message, and the step that follows it is that response: nothing is
/// asked of storage or of the identity provider, whatever they would answer.
pub proof fn missing_key_is_refused_at_once(
    bucket: Seq<char>,
    fetched: Result<Seq<u8>, GetObjectFailureView>,
    exchanged: Result<Seq<char>, Seq<char>>,
)
    ensures
        transition(bucket, EventView::Request(None)) == StepView::Respond(
            ResponseView { status: Status::BadRequest, body: PARAMETER_MISSING@ },
        ),
        outcome(bucket, None, fetched, exchanged) == (ResponseView {
            status: Status::BadRequest,
            body: PARAMETER_MISSING@,
        }),
        outcome(bucket, None, fetched, exchanged).status.spec_code() == 400,
{
}

/// A request with a credential key leads to one fetch, of that key in the
/// configured bucket.
pub proof fn present_key_is_fetched(bucket: Seq<char>, key: Seq<char>)
    ensures
        transition(bucket, EventView::Request(Some(key))) == (StepView::Fetch { bucket, key }),
{
}

/// A credential key that storage does not know is answered with status 404
/// and the fixed message, whatever the key is.
pub proof fn unknown_key_is_not_found(
    bucket: Seq<char>,
    key: Seq<char>,
    failure: GetObjectFailureView,
    exchanged: Result<Seq<char>, Seq<char>>,
)
    requires
        failure.is_no_such_key(),
    ensures
        transition(bucket, EventView::Fetched(Err(failure))) == StepView::Respond(
            ResponseView { status: Status::NotFound, body: KEY_NOT_FOUND@ },
        ),
        outcome(bucket, Some(key), Err(failure), exchanged) == (ResponseView {
            status: Status::NotFound,
            body: KEY_NOT_FOUND@,
        }),
        outcome(bucket, Some(key), Err(failure), exchanged).status.spec_code() == 404,
{
}

/// A fetch that fails in any way but for an unknown key is answered with
/// status 500, and the body contains the description of the failure.
pub proof fn storage_fault_is_reported(
    bucket: Seq<char>,
    key: Seq<char>,
    failure: GetObjectFailureView,
    exchanged: Result<Seq<char>, Seq<char>>,
)
    requires
        !failure.is_no_such_key(),
    ensures
        transition(bucket, EventView::Fetched(Err(failure))) is Respond,
        outcome(bucket, Some(key), Err(failure), exchanged).status == Status::InternalServerError,
        outcome(bucket, Some(key), Err(failure), exchanged).status.spec_code() == 500,
        outcome(bucket, Some(key), Err(failure), exchanged).body == failure.error().diagnostic(),
        contains(outcome(bucket, Some(key), Err(failure), exchanged).body, failure.description()),
{
    match failure {
        GetObjectFailureView::Service { description, .. } => {
            lemma_contains_suffix(SERVICE_ERROR_PREFIX@, description);
        },
        GetObjectFailureView::Sdk { description } => {
            lemma_contains_suffix(SDK_ERROR_PREFIX@, description);
        },
        GetObjectFailureView::Read { description } => {
            lemma_contains_suffix(READ_ERROR_PREFIX@, description);
        },
    }
}

/// Bytes that are not JSON, or whose JSON is not a service-account document,
/// are answered with status 500 and a body that contains the description of
/// what is wrong with them. The step that follows the fetch is that response:
/// the identity provider is not called.
pub proof fn unusable_credential_is_reported(
    bucket: Seq<char>,
    key: Seq<char>,
    bytes: Seq<u8>,
    exchanged: Result<Seq<char>, Seq<char>>,
)
    requires
        json_normal_form(bytes) is Err || (json_normal_form(bytes) matches Ok(document)
            && service_account_rejection(document) is Some),
    ensures
        transition(bucket, EventView::Fetched(Ok(bytes))) is Respond,
        outcome(bucket, Some(key), Ok(bytes), exchanged).status == Status::InternalServerError,
        outcome(bucket, Some(key), Ok(bytes), exchanged).status.spec_code() == 500,
        json_normal_form(bytes) matches Err(detail) ==> outcome(
            bucket,
            Some(key),
            Ok(bytes),
            exchanged,
        ).body == JSON_ERROR_PREFIX@ + detail && contains(
            outcome(bucket, Some(key), Ok(bytes), exchanged).body,
            detail,
        ),
        json_normal_form(bytes) matches Ok(document) ==> outcome(
            bucket,
            Some(key),
            Ok(bytes),
            exchanged,
        ).body == rejected(service_account_rejection(document)->0).diagnostic() && contains(
            outcome(bucket, Some(key), Ok(bytes), exchanged).body,
            service_account_rejection(document)->0,
        ),
{
    match json_normal_form(bytes) {
        Err(detail) => {
            lemma_contains_suffix(JSON_ERROR_PREFIX@, detail);
        },
        Ok(document) => {
            lemma_contains_suffix(CONSTRUCT_ERROR_PREFIX@, service_account_rejection(document)->0);
        },
    }
}

/// Bytes that hold a credential lead to one exchange, of the credential in
/// its normal form and with the fixed scopes.
pub proof fn usable_credential_is_exchanged(bucket: Seq<char>, bytes: Seq<u8>)
    requires
        json_normal_form(bytes) matches Ok(document) && service_account_rejection(document) is None,
    ensures
        transition(bucket, EventView::Fetched(Ok(bytes))) == (StepView::Exchange {
            credential: json_normal_form(bytes)->Ok_0,
            scopes: token_scopes(),
        }),
{
}

/// Where the fetch, the reading of the credential and the exchange all
/// succeed, the answer has status 200 and its body is the token as the
/// identity provider gave it, with nothing before or after it.
pub proof fn token_is_returned_bare(
    bucket: Seq<char>,
    key: Seq<char>,
    bytes: Seq<u8>,
    token: Seq<char>,
)
    requires
        json_normal_form(bytes) matches Ok(document) && service_account_rejection(document) is None,
    ensures
        transition(bucket, EventView::Exchanged(Ok(token))) == StepView::Respond(
            ResponseView { status: Status::Success, body: token },
        ),
        outcome(bucket, Some(key), Ok(bytes), Ok(token)) == (ResponseView {
            status: Status::Success,
            body: token,
        }),
        outcome(bucket, Some(key), Ok(bytes), Ok(token)).status.spec_code() == 200,
{
}

/// An exchange that fails is answered with status 500, and the body contains
/// the description of the provider's error.
pub proof fn exchange_fault_is_reported(
    bucket: Seq<char>,
    key: Seq<char>,
    bytes: Seq<u8>,
    detail: Seq<char>,
)
    requires
        json_normal_form(bytes) matches Ok(document) && service_account_rejection(document) is None,
    ensures
        outcome(bucket, Some(key), Ok(bytes), Err(detail)) == (ResponseView {
            status: Status::InternalServerError,
            body: EXCHANGE_ERROR_PREFIX@ + detail,
        }),
        contains(outcome(bucket, Some(key), Ok(bytes), Err(detail)).body, detail),
{
    lemma_contains_suffix(EXCHANGE_ERROR_PREFIX@, detail);
}

/// An invocation succeeds exactly where every stage does: the request names a
/// key, storage holds a credential under it, and the identity provider grants
/// the token. In every other case the status is one of 400, 404 and 500.
pub proof fn success_needs_every_stage(
    bucket: Seq<char>,
    request: Option<Seq<char>>,
    fetched: Result<Seq<u8>, GetObjectFailureView>,
    exchanged: Result<Seq<char>, Seq<char>>,
)
    ensures
        outcome(bucket, request, fetched, exchanged).status == Status::Success <==> request is Some
            && fetched is Ok && credential_of(fetched->Ok_0) is Ok && exchanged is Ok,
{
}

/// Two invocations with the same configuration and the same request, in which
/// storage and the identity provider answer the same, end in the same status
/// and the same body: an invocation leaves nothing behind that a later one
/// could meet.
pub proof fn same_answers_same_response(
    first: ResponseView,
    second: ResponseView,
    bucket: Seq<char>,
    request: Option<Seq<char>>,
    fetched: Result<Seq<u8>, GetObjectFailureView>,
    exchanged: Result<Seq<char>, Seq<char>>,
)
    requires
        first == outcome(bucket, request, fetched, exchanged),
        second == outcome(bucket, request, fetched, exchanged),
    ensures
        first.status == second.status,
        first.body == second.body,
{
}

} // verus!
