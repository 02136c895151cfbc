//! Errors reported by the node manager.

use vstd::prelude::*;
use vstd::string::StringExecFns;

verus! {

/// The part of the system in which an error arose.
#[derive(Clone, Copy, Debug, PartialEq, Eq, Structural)]
pub enum Origin {
    Core,
    Application,
    Api,
    Ockam,
}

/// What went wrong.
#[derive(Clone, Copy, Debug, PartialEq, Eq, Structural)]
pub enum Kind {
    /// Malformed or inconsistent input or configuration.
    Invalid,
    /// A missing alias, resource or identity.
    NotFound,
    /// A collaborator failed.
    Internal,
    /// The resource to create is already there.
    Conflict,
}

#[derive(Clone, Debug, PartialEq, Eq)]
pub struct ApiError {
    pub origin: Origin,
    pub kind: Kind,
    pub message: String,
}

/// An error as a mathematical value.
pub struct ErrorView {
    pub origin: Origin,
    pub kind: Kind,
    pub message: Seq<char>,
}

impl View for ApiError {
    type V = ErrorView;

    open spec fn view(&self) -> ErrorView {
        ErrorView { origin: self.origin, kind: self.kind, message: self.message@ }
    }
}

pub open spec fn invalid_multiaddr() -> ErrorView {
    ErrorView { origin: Origin::Core, kind: Kind::Invalid, message: "Invalid multiaddr"@ }
}

impl ApiError {
    pub fn new(origin: Origin, kind: Kind, message: &str) -> (e: ApiError)
        ensures
            e@ == (ErrorView { origin, kind, message: message@ }),
    {
        ApiError { origin, kind, message: String::from_str(message) }
    }

    /// A resource that a request relies on is absent.
    pub fn not_found(message: &str) -> (e: ApiError)
        ensures
            e@ == (ErrorView { origin: Origin::Api, kind: Kind::NotFound, message: message@ }),
    {
        ApiError::new(Origin::Api, Kind::NotFound, message)
    }

    /// An explicit creation found the resource in place.
    pub fn conflict(message: &str) -> (e: ApiError)
        ensures
            e@ == (ErrorView { origin: Origin::Api, kind: Kind::Conflict, message: message@ }),
    {
        ApiError::new(Origin::Api, Kind::Conflict, message)
    }

    /// A failure of storage or of another collaborator, with its description.
    pub fn internal(message: String) -> (e: ApiError)
        ensures
            e@ == (ErrorView {
                origin: Origin::Application,
                kind: Kind::Internal,
                message: message@,
            }),
    {
        ApiError { origin: Origin::Application, kind: Kind::Internal, message }
    }

    pub fn duplicate(&self) -> (e: ApiError)
        ensures
            e@ == self@,
    {
        ApiError { origin: self.origin, kind: self.kind, message: self.message.clone() }
    }

    /// The text that a response carries for this error.
    pub fn description(&self) -> (s: &str)
        ensures
            s@ == self@.message,
    {
        self.message.as_str()
    }
}

/// The outside type [`ockam_multiaddr::Error`], carried as an opaque value.
#[verifier::external_type_specification]
#[verifier::external_body]
pub struct ExMultiAddrError(ockam_multiaddr::Error);

pub fn invalid_multiaddr_error() -> (e: ApiError)
    ensures
        e@ == invalid_multiaddr(),
{
    ApiError::new(Origin::Core, Kind::Invalid, "Invalid multiaddr")
}

/// Every failure to read a multiaddr is reported the same way.
pub fn map_multiaddr_err(_err: ockam_multiaddr::Error) -> (e: ApiError)
    ensures
        e@ == invalid_multiaddr(),
{
    invalid_multiaddr_error()
}

} // verus!
