//! Step two of reading a credential: the JSON must be a service-account
//! document that the identity provider's client accepts.

use vstd::prelude::*;

use gcp_auth::CustomServiceAccount;

use crate::error::{PipelineError, PipelineErrorView};
use crate::json::{document_of, json_normal_form, normalize};

verus! {

/// What precedes the description of a document that is not a credential.
pub const CONSTRUCT_ERROR_PREFIX: &'static str = "got  construct service account error:";

/// The service account of `gcp_auth`, carried through as it was built.
#[verifier::external_type_specification]
#[verifier::external_body]
pub struct ExCustomServiceAccount(gcp_auth::CustomServiceAccount);

/// Why `gcp_auth` turns a document down: `None` where it builds a service
/// account from the text, else its error written out.
pub uninterp spec fn service_account_rejection(document: Seq<char>) -> Option<Seq<char>>;

/// The complaint in the outcome of building a service account, if there is one.
pub open spec fn rejection_in(built: Result<CustomServiceAccount, String>) -> Option<Seq<char>> {
    match built {
        Ok(_) => None,
        Err(detail) => Some(detail@),
    }
}

/// Calls `gcp_auth::CustomServiceAccount::from_json`, which reads the document
/// against the service-account schema and sets up a signer from its private
/// key. An error is handed back as its `Debug` impl writes it.
///
/// Trusted: whether the document is accepted, and with which error it is
/// turned down, depends on the text alone. Nothing is claimed about the
/// account that is built.
#[verifier::external_body]
pub(crate) fn build_account(document: &str) -> (built: Result<CustomServiceAccount, String>)
    ensures
        rejection_in(built) == service_account_rejection(document@),
{
    match CustomServiceAccount::from_json(document) {
        Ok(account) => Ok(account),
        Err(error) => Err(format!("{error:?}")),
    }
}

/// A service-account credential: the JSON document together with the account
/// that the identity provider's client built from it.
#[derive(Debug)]
pub struct ServiceCredential {
    document: String,
    account: CustomServiceAccount,
}

impl View for ServiceCredential {
    type V = Seq<char>;

    closed spec fn view(&self) -> Seq<char> {
        self.document@
    }
}

/// The error for a document that was turned down with the given complaint.
pub open spec fn rejected(detail: Seq<char>) -> PipelineErrorView {
    PipelineErrorView::CredentialFormat(CONSTRUCT_ERROR_PREFIX@ + detail)
}

/// What becomes of a document, given the complaint against it: the document
/// stands where there is none.
pub open spec fn accepted(document: Seq<char>, rejection: Option<Seq<char>>) -> Result<
    Seq<char>,
    PipelineErrorView,
> {
    match rejection {
        None => Ok(document),
        Some(detail) => Err(rejected(detail)),
    }
}

/// What becomes of stored bytes: they must decode as JSON, and the decoded
/// document must be accepted as a service account.
pub open spec fn credential_of(bytes: Seq<u8>) -> Result<Seq<char>, PipelineErrorView> {
    match document_of(json_normal_form(bytes)) {
        Ok(document) => accepted(document, service_account_rejection(document)),
        Err(error) => Err(error),
    }
}

/// A credential or the error in its place, each by its view.
pub open spec fn credential_or_error(outcome: Result<ServiceCredential, PipelineError>) -> Result<
    Seq<char>,
    PipelineErrorView,
> {
    match outcome {
        Ok(credential) => Ok(credential@),
        Err(error) => Err(error@),
    }
}

/// Builds the error for a document that was turned down with `detail`.
pub fn reject(detail: String) -> (error: PipelineError)
    ensures
        error@ == rejected(detail@),
{
    PipelineError::CredentialFormat(CONSTRUCT_ERROR_PREFIX.to_owned().concat(detail.as_str()))
}

impl ServiceCredential {
    #[verifier::type_invariant]
    spec fn is_accepted(self) -> bool {
        service_account_rejection(self.document@) is None
    }

    /// Builds the credential from a JSON document.
    pub fn from_json(document: String) -> (outcome: Result<ServiceCredential, PipelineError>)
        ensures
            credential_or_error(outcome) == accepted(
                document@,
                service_account_rejection(document@),
            ),
    {
        match build_account(document.as_str()) {
            Ok(account) => Ok(ServiceCredential { document, account }),
            Err(detail) => Err(reject(detail)),
        }
    }

    /// Builds the credential from bytes as they lie in storage.
    pub fn from_bytes(bytes: &[u8]) -> (outcome: Result<ServiceCredential, PipelineError>)
        ensures
            credential_or_error(outcome) == credential_of(bytes@),
    {
        match normalize(bytes) {
            Ok(document) => ServiceCredential::from_json(document),
            Err(error) => Err(error),
        }
    }

    /// The JSON document of the credential, which the provider's client accepts.
    pub fn document(&self) -> (text: &str)
        ensures
            text@ == self@,
            service_account_rejection(self@) is None,
    {
        proof {
            use_type_invariant(self);
        }
        self.document.as_str()
    }

    /// The account that the credential holds: the one that the provider's
    /// client built when the credential was made.
    pub closed spec fn account(&self) -> CustomServiceAccount {
        self.account
    }

    /// Gives up the account for the exchange with the identity provider. It
    /// is the account that the credential held, and its document is one that
    /// the provider's client accepts.
    pub fn into_account(self) -> (account: CustomServiceAccount)
        ensures
            account == self.account(),
            service_account_rejection(self@) is None,
    {
        proof {
            use_type_invariant(&self);
        }
        self.account
    }
}

} // verus!
