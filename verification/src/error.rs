//! The unified failure type and the adapters from each subsystem's own failure.

use vstd::prelude::*;
use vstd::std_specs::convert::{FromSpec, FromSpecImpl};
use crate::kind::ErrorKind;

verus! {

/// `reqwest::Error`, the failure of an outbound HTTP call. Nothing is known of
/// its inside; it is carried as it came.
#[verifier::external_type_specification]
#[verifier::external_body]
pub struct ExClientError(reqwest::Error);

/// `git2::Error`, the failure of a repository operation. Nothing is known of
/// its inside; it is carried as it came.
#[verifier::external_type_specification]
#[verifier::external_body]
pub struct ExGitError(git2::Error);

/// `std::io::Error`, the failure of a file access. Nothing is known of its
/// inside; it is carried as it came.
#[verifier::external_type_specification]
#[verifier::external_body]
pub struct ExIoError(std::io::Error);

/// `std::num::ParseIntError`, the failure to read a number. Nothing is known of
/// its inside; it is carried as it came.
#[verifier::external_type_specification]
#[verifier::external_body]
pub struct ExParseIntError(std::num::ParseIntError);

/// `serde_json::Error`, the failure to encode or decode JSON. Nothing is known
/// of its inside; it is carried as it came.
#[verifier::external_type_specification]
#[verifier::external_body]
pub struct ExJsonError(serde_json::Error);

/// One failure of one request. A value holds exactly one condition, and where
/// that condition came from another subsystem, that subsystem's own failure
/// whole.
#[derive(Debug)]
pub enum ServiceError {
    /// The badge logic turned its input down; the payload says why.
    Badge(String),
    /// An outbound HTTP call failed.
    Client(reqwest::Error),
    /// Opening, reading or walking a repository failed.
    Git(git2::Error),
    /// Something went wrong inside that has no better description.
    Internal,
    /// A file access failed.
    Io(std::io::Error),
    /// A string was no number.
    Parse(std::num::ParseIntError),
    /// Encoding or decoding JSON failed.
    Serial(serde_json::Error),
    /// The repository that was asked about has no master branch.
    BranchNotFound,
}

/// What every fallible operation of the service returns.
pub type Result<T> = std::result::Result<T, ServiceError>;

impl ServiceError {
    pub open spec fn spec_kind(&self) -> ErrorKind {
        match self {
            ServiceError::Badge(_) => ErrorKind::Badge,
            ServiceError::Client(_) => ErrorKind::Client,
            ServiceError::Git(_) => ErrorKind::Git,
            ServiceError::Internal => ErrorKind::Internal,
            ServiceError::Io(_) => ErrorKind::Io,
            ServiceError::Parse(_) => ErrorKind::Parse,
            ServiceError::Serial(_) => ErrorKind::Serial,
            ServiceError::BranchNotFound => ErrorKind::BranchNotFound,
        }
    }

    /// The condition the error stands for.
    #[verifier::when_used_as_spec(spec_kind)]
    pub fn kind(&self) -> (k: ErrorKind)
        ensures
            k == self.spec_kind(),
    {
        match self {
            ServiceError::Badge(_) => ErrorKind::Badge,
            ServiceError::Client(_) => ErrorKind::Client,
            ServiceError::Git(_) => ErrorKind::Git,
            ServiceError::Internal => ErrorKind::Internal,
            ServiceError::Io(_) => ErrorKind::Io,
            ServiceError::Parse(_) => ErrorKind::Parse,
            ServiceError::Serial(_) => ErrorKind::Serial,
            ServiceError::BranchNotFound => ErrorKind::BranchNotFound,
        }
    }
}

impl From<String> for ServiceError {
    fn from(s: String) -> (e: Self) {
        ServiceError::Badge(s)
    }
}

impl FromSpecImpl<String> for ServiceError {
    open spec fn obeys_from_spec() -> bool {
        true
    }

    open spec fn from_spec(s: String) -> Self {
        ServiceError::Badge(s)
    }
}

impl From<git2::Error> for ServiceError {
    fn from(err: git2::Error) -> (e: Self) {
        ServiceError::Git(err)
    }
}

impl FromSpecImpl<git2::Error> for ServiceError {
    open spec fn obeys_from_spec() -> bool {
        true
    }

    open spec fn from_spec(err: git2::Error) -> Self {
        ServiceError::Git(err)
    }
}

impl From<std::io::Error> for ServiceError {
    fn from(err: std::io::Error) -> (e: Self) {
        ServiceError::Io(err)
    }
}

impl FromSpecImpl<std::io::Error> for ServiceError {
    open spec fn obeys_from_spec() -> bool {
        true
    }

    open spec fn from_spec(err: std::io::Error) -> Self {
        ServiceError::Io(err)
    }
}

impl From<serde_json::Error> for ServiceError {
    fn from(err: serde_json::Error) -> (e: Self) {
        ServiceError::Serial(err)
    }
}

impl FromSpecImpl<serde_json::Error> for ServiceError {
    open spec fn obeys_from_spec() -> bool {
        true
    }

    open spec fn from_spec(err: serde_json::Error) -> Self {
        ServiceError::Serial(err)
    }
}

impl From<reqwest::Error> for ServiceError {
    fn from(err: reqwest::Error) -> (e: Self) {
        ServiceError::Client(err)
    }
}

impl FromSpecImpl<reqwest::Error> for ServiceError {
    open spec fn obeys_from_spec() -> bool {
        true
    }

    open spec fn from_spec(err: reqwest::Error) -> Self {
        ServiceError::Client(err)
    }
}

impl From<std::num::ParseIntError> for ServiceError {
    fn from(err: std::num::ParseIntError) -> (e: Self) {
        ServiceError::Parse(err)
    }
}

impl FromSpecImpl<std::num::ParseIntError> for ServiceError {
    open spec fn obeys_from_spec() -> bool {
        true
    }

    open spec fn from_spec(err: std::num::ParseIntError) -> Self {
        ServiceError::Parse(err)
    }
}

/// An adapter keeps what it is given: the error that comes out holds it whole,
/// a reason under `Badge` and a failure under the variant of the subsystem it
/// came from.
pub proof fn lemma_adapters_keep_the_failure(
    reason: String,
    client: reqwest::Error,
    git: git2::Error,
    io: std::io::Error,
    parse: std::num::ParseIntError,
    serial: serde_json::Error,
)
    ensures
        <ServiceError as FromSpec<String>>::from_spec(reason) == ServiceError::Badge(reason),
        <ServiceError as FromSpec<reqwest::Error>>::from_spec(client) == ServiceError::Client(
            client,
        ),
        <ServiceError as FromSpec<git2::Error>>::from_spec(git) == ServiceError::Git(git),
        <ServiceError as FromSpec<std::io::Error>>::from_spec(io) == ServiceError::Io(io),
        <ServiceError as FromSpec<std::num::ParseIntError>>::from_spec(parse)
            == ServiceError::Parse(parse),
        <ServiceError as FromSpec<serde_json::Error>>::from_spec(serial) == ServiceError::Serial(
            serial,
        ),
{
}

} // verus!
