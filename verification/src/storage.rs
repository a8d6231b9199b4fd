//! How a failed fetch from object storage is reported to the caller.

use vstd::prelude::*;

use crate::error::{PipelineError, PipelineErrorView};
use crate::response::Status;

verus! {

/// What precedes the description of an error that the storage service returned.
pub const SERVICE_ERROR_PREFIX: &'static str = "got get object error:";

/// What precedes the description of a failure on the way to or from the service.
pub const SDK_ERROR_PREFIX: &'static str = "got sdk error:";

/// What precedes the description of a failure to read the object's bytes.
pub const READ_ERROR_PREFIX: &'static str = "got read object error:";

/// A failed fetch of an object, as far as the broker reads it.
#[derive(Clone, Debug, PartialEq, Eq)]
pub enum GetObjectFailure {
    /// The storage service answered with an error of its own.
    Service {
        /// Whether the service says that the key does not exist.
        no_such_key: bool,
        /// The service error, written out for diagnosis.
        description: String,
    },
    /// The request was not built, not sent or not answered in a readable way.
    Sdk {
        /// The failure, written out for diagnosis.
        description: String,
    },
    /// The service answered, but the object's bytes could not be read to
    /// their end.
    Read {
        /// The failure, written out for diagnosis.
        description: String,
    },
}

/// A failed fetch with its description as a sequence of characters.
pub enum GetObjectFailureView {
    Service { no_such_key: bool, description: Seq<char> },
    Sdk { description: Seq<char> },
    Read { description: Seq<char> },
}

impl View for GetObjectFailure {
    type V = GetObjectFailureView;

    open spec fn view(&self) -> GetObjectFailureView {
        match self {
            GetObjectFailure::Service { no_such_key, description } => GetObjectFailureView::Service {
                no_such_key: *no_such_key,
                description: description@,
            },
            GetObjectFailure::Sdk { description } => GetObjectFailureView::Sdk {
                description: description@,
            },
            GetObjectFailure::Read { description } => GetObjectFailureView::Read {
                description: description@,
            },
        }
    }
}

impl GetObjectFailureView {
    /// The failure as it was written out.
    pub open spec fn description(self) -> Seq<char> {
        match self {
            GetObjectFailureView::Service { description, .. } => description,
            GetObjectFailureView::Sdk { description } => description,
            GetObjectFailureView::Read { description } => description,
        }
    }

    /// Whether the failure is the service's word that the key does not exist.
    pub open spec fn is_no_such_key(self) -> bool {
        self matches GetObjectFailureView::Service { no_such_key, .. } && no_such_key
    }

    /// The pipeline error that the failure stands for: a missing key is the
    /// caller's to mend, anything else is a fault of storage and keeps its
    /// description.
    pub open spec fn error(self) -> PipelineErrorView {
        match self {
            GetObjectFailureView::Service { no_such_key, description } => if no_such_key {
                PipelineErrorView::ResourceNotFound
            } else {
                PipelineErrorView::UpstreamStorage(SERVICE_ERROR_PREFIX@ + description)
            },
            GetObjectFailureView::Sdk { description } => PipelineErrorView::UpstreamStorage(
                SDK_ERROR_PREFIX@ + description,
            ),
            GetObjectFailureView::Read { description } => PipelineErrorView::UpstreamStorage(
                READ_ERROR_PREFIX@ + description,
            ),
        }
    }
}

impl GetObjectFailure {
    /// Sorts the failure into the pipeline's errors.
    pub fn into_error(self) -> (error: PipelineError)
        ensures
            error@ == self@.error(),
    {
        match self {
            GetObjectFailure::Service { no_such_key, description } => {
                if no_such_key {
                    PipelineError::ResourceNotFound
                } else {
                    PipelineError::UpstreamStorage(
                        SERVICE_ERROR_PREFIX.to_owned().concat(description.as_str()),
                    )
                }
            },
            GetObjectFailure::Sdk { description } => PipelineError::UpstreamStorage(
                SDK_ERROR_PREFIX.to_owned().concat(description.as_str()),
            ),
            GetObjectFailure::Read { description } => PipelineError::UpstreamStorage(
                READ_ERROR_PREFIX.to_owned().concat(description.as_str()),
            ),
        }
    }
}

/// Status and body of the response to a failed fetch.
pub fn handle_get_object_error(error: GetObjectFailure) -> (outcome: (Status, String))
    ensures
        outcome.0 == error@.error().status(),
        outcome.1@ == error@.error().diagnostic(),
{
    let response = error.into_error().into_response();
    (response.status, response.body)
}

} // verus!
