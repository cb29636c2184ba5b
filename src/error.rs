//! The failure kinds of the webhook handlers and how they are reported.
use vstd::prelude::*;

verus! {

/// The kinds of failure a webhook handler can surface.
#[derive(Clone, Copy, Debug, PartialEq, Eq, Structural)]
pub enum Error {
    /// No series is bound to the server named in the event.
    UnknownServer,
    /// The map is not part of the series.
    UnknownMap,
    /// Team ownership of the in-game slots could not be determined.
    AttributionFailed,
    /// A call to the game-server host failed.
    UpstreamHostError,
    /// A call to the identity provider failed.
    IdentityProviderError,
    /// The recording could not be written to the archive.
    ArchiveUploadFailed,
    /// A query or update against the relational store failed.
    StoreError,
    /// The event lacks a field the handler needs, or carries one out of range.
    InvalidEvent,
}

impl Error {
    pub open spec fn spec_status_code(self) -> u16 {
        match self {
            Error::UnknownServer => 404,
            Error::UnknownMap => 404,
            Error::AttributionFailed => 422,
            Error::UpstreamHostError => 502,
            Error::IdentityProviderError => 502,
            Error::ArchiveUploadFailed => 500,
            Error::StoreError => 500,
            Error::InvalidEvent => 400,
        }
    }

    /// The HTTP status under which the error is reported.
    pub fn status_code(&self) -> (r: u16)
        ensures
            r == self.spec_status_code(),
            400 <= r < 600,
    {
        match self {
            Error::UnknownServer => 404,
            Error::UnknownMap => 404,
            Error::AttributionFailed => 422,
            Error::UpstreamHostError => 502,
            Error::IdentityProviderError => 502,
            Error::ArchiveUploadFailed => 500,
            Error::StoreError => 500,
            Error::InvalidEvent => 400,
        }
    }

    /// True for the kinds a redelivery of the same event may cure.
    pub fn is_retryable(&self) -> (r: bool)
        ensures
            r == (*self == Error::UpstreamHostError || *self == Error::IdentityProviderError
                || *self == Error::StoreError),
    {
        match self {
            Error::UpstreamHostError | Error::IdentityProviderError | Error::StoreError => true,
            _ => false,
        }
    }

    pub open spec fn spec_message(self) -> Seq<char> {
        match self {
            Error::UnknownServer => "no series is bound to this server"@,
            Error::UnknownMap => "map not found in series"@,
            Error::AttributionFailed => "could not determine team ownership"@,
            Error::UpstreamHostError => "game-server host request failed"@,
            Error::IdentityProviderError => "identity provider request failed"@,
            Error::ArchiveUploadFailed => "failed to upload demo to archive"@,
            Error::StoreError => "store query failed"@,
            Error::InvalidEvent => "malformed event"@,
        }
    }

    /// The human-readable message reported with the error.
    pub fn message(&self) -> (r: String)
        ensures
            r@ == self.spec_message(),
    {
        match self {
            Error::UnknownServer => String::from_str("no series is bound to this server"),
            Error::UnknownMap => String::from_str("map not found in series"),
            Error::AttributionFailed => String::from_str("could not determine team ownership"),
            Error::UpstreamHostError => String::from_str("game-server host request failed"),
            Error::IdentityProviderError => String::from_str("identity provider request failed"),
            Error::ArchiveUploadFailed => String::from_str("failed to upload demo to archive"),
            Error::StoreError => String::from_str("store query failed"),
            Error::InvalidEvent => String::from_str("malformed event"),
        }
    }
}

} // verus!
