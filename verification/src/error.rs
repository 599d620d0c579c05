//! The error taxonomy of the provisioning service.
//!
//! Every failure a caller can see is one of these variants, and each
//! variant tells the caller what to do next: fix the input, retry the
//! whole request, or give up because the underlying provider failed.

use vstd::prelude::*;

verus! {

/// A provisioning failure.
#[derive(Clone, Debug, PartialEq, Eq)]
pub enum Error {
    /// The project name failed sanitization; fatal, never retried.
    InvalidProjectName,
    /// Creating the shared role failed; carries the executor's detail.
    CreateRoleFailed(String),
    /// Rotating the shared role's password failed; carries the detail.
    UpdateRoleFailed(String),
    /// Creating the shared database failed; carries the detail.
    CreateDatabaseFailed(String),
    /// Two concurrent creators raced for the same new project; retryable.
    DuplicateResourceConflict,
    /// The cloud provider returned an unexpected error; fatal.
    UnexpectedProviderError(String),
    /// Polling the managed instance exceeded its bounded deadline.
    ProvisioningTimedOut,
    /// A successful provider response was missing a required field; fatal.
    MalformedProviderResponse,
}

/// The mathematical image of an [`Error`]: details as character sequences.
pub enum AbsError {
    InvalidProjectName,
    CreateRoleFailed(Seq<char>),
    UpdateRoleFailed(Seq<char>),
    CreateDatabaseFailed(Seq<char>),
    DuplicateResourceConflict,
    UnexpectedProviderError(Seq<char>),
    ProvisioningTimedOut,
    MalformedProviderResponse,
}

impl View for Error {
    type V = AbsError;

    open spec fn view(&self) -> AbsError {
        match self {
            Error::InvalidProjectName => AbsError::InvalidProjectName,
            Error::CreateRoleFailed(d) => AbsError::CreateRoleFailed(d@),
            Error::UpdateRoleFailed(d) => AbsError::UpdateRoleFailed(d@),
            Error::CreateDatabaseFailed(d) => AbsError::CreateDatabaseFailed(d@),
            Error::DuplicateResourceConflict => AbsError::DuplicateResourceConflict,
            Error::UnexpectedProviderError(d) => AbsError::UnexpectedProviderError(d@),
            Error::ProvisioningTimedOut => AbsError::ProvisioningTimedOut,
            Error::MalformedProviderResponse => AbsError::MalformedProviderResponse,
        }
    }
}

/// Which failures the caller may answer by retrying the whole request:
/// the shared-provisioning SQL failures (provisioning converges when run
/// again) and the duplicate-creation conflict. Invalid input, provider
/// errors, timeouts and malformed responses are not retried.
pub open spec fn spec_retryable(e: AbsError) -> bool {
    match e {
        AbsError::CreateRoleFailed(_) => true,
        AbsError::UpdateRoleFailed(_) => true,
        AbsError::CreateDatabaseFailed(_) => true,
        AbsError::DuplicateResourceConflict => true,
        AbsError::InvalidProjectName => false,
        AbsError::UnexpectedProviderError(_) => false,
        AbsError::ProvisioningTimedOut => false,
        AbsError::MalformedProviderResponse => false,
    }
}

impl Error {
    /// Whether the caller may retry the whole request after this error.
    pub fn retryable(&self) -> (r: bool)
        ensures
            r == spec_retryable(self@),
    {
        match self {
            Error::CreateRoleFailed(_) => true,
            Error::UpdateRoleFailed(_) => true,
            Error::CreateDatabaseFailed(_) => true,
            Error::DuplicateResourceConflict => true,
            Error::InvalidProjectName => false,
            Error::UnexpectedProviderError(_) => false,
            Error::ProvisioningTimedOut => false,
            Error::MalformedProviderResponse => false,
        }
    }

    /// A short diagnostic text naming the failure, with the underlying
    /// detail attached where one was captured.
    pub fn message(&self) -> (r: String)
        ensures
            self@ matches AbsError::InvalidProjectName ==> r@ == "invalid project name"@,
            self@ matches AbsError::DuplicateResourceConflict ==> r@
                == "duplicate resource created concurrently; retry the request"@,
            self@ matches AbsError::ProvisioningTimedOut ==> r@
                == "timed out waiting for the instance to become ready"@,
            self@ matches AbsError::MalformedProviderResponse ==> r@
                == "provider response was missing a required field"@,
            self@ matches AbsError::CreateRoleFailed(d) ==> r@ == "failed to create role: "@ + d,
            self@ matches AbsError::UpdateRoleFailed(d) ==> r@ == "failed to update role: "@ + d,
            self@ matches AbsError::CreateDatabaseFailed(d) ==> r@
                == "failed to create database: "@ + d,
            self@ matches AbsError::UnexpectedProviderError(d) ==> r@
                == "unexpected provider error: "@ + d,
    {
        match self {
            Error::InvalidProjectName => "invalid project name".to_owned(),
            Error::CreateRoleFailed(d) => {
                let p: String = "failed to create role: ".to_owned();
                p.concat(d.as_str())
            },
            Error::UpdateRoleFailed(d) => {
                let p: String = "failed to update role: ".to_owned();
                p.concat(d.as_str())
            },
            Error::CreateDatabaseFailed(d) => {
                let p: String = "failed to create database: ".to_owned();
                p.concat(d.as_str())
            },
            Error::DuplicateResourceConflict => {
                "duplicate resource created concurrently; retry the request".to_owned()
            },
            Error::UnexpectedProviderError(d) => {
                let p: String = "unexpected provider error: ".to_owned();
                p.concat(d.as_str())
            },
            Error::ProvisioningTimedOut => {
                "timed out waiting for the instance to become ready".to_owned()
            },
            Error::MalformedProviderResponse => {
                "provider response was missing a required field".to_owned()
            },
        }
    }
}

} // verus!
