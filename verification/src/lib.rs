//! A small API gateway library in front of a document store and named
//! backend services: a service registry, a header filter for the proxy
//! trust boundary, request planning and upstream-outcome classification
//! for the reverse proxy, and the embed-then-search pipeline that turns
//! free text into a nearest-neighbor lookup.

pub mod headers;
pub mod embed;
pub mod envelope;
pub mod front_door;
pub mod proxy;
pub mod records;
pub mod registry;
pub mod routes;
pub mod search;
pub mod text;

use vstd::prelude::*;

verus! {

/// The gateway's error kinds. Every lower-layer failure is caught at the
/// handler boundary and converted to one of these; no raw transport or
/// driver error reaches the caller.
#[derive(Clone, Copy, Debug, PartialEq, Eq, Structural)]
pub enum GatewayError {
    /// The `service` query parameter names no registered service.
    UnknownService,
    /// The embed request body is blank after trimming.
    EmptyInput,
    /// The proxied call timed out or the connection failed.
    UpstreamUnavailable,
    /// The upstream answered, but its body was not parseable.
    UpstreamBadResponse,
    /// The embedding provider call failed.
    EmbeddingUnavailable,
    /// A document store operation failed.
    StoreError,
    /// A valid query matched zero records.
    NotFound,
}

impl GatewayError {
    /// The fixed external HTTP status code for each error kind.
    pub open spec fn spec_status_code(self) -> u16 {
        match self {
            GatewayError::UnknownService => 400,
            GatewayError::EmptyInput => 400,
            GatewayError::UpstreamUnavailable => 503,
            GatewayError::UpstreamBadResponse => 502,
            GatewayError::EmbeddingUnavailable => 500,
            GatewayError::StoreError => 500,
            GatewayError::NotFound => 404,
        }
    }

    /// The fixed message reported for each error kind.
    pub open spec fn spec_message(self) -> Seq<char> {
        match self {
            GatewayError::UnknownService => "unknown service"@,
            GatewayError::EmptyInput => "empty input"@,
            GatewayError::UpstreamUnavailable => "upstream unavailable"@,
            GatewayError::UpstreamBadResponse => "upstream bad response"@,
            GatewayError::EmbeddingUnavailable => "embedding unavailable"@,
            GatewayError::StoreError => "store error"@,
            GatewayError::NotFound => "not found"@,
        }
    }

    /// The message reported to the caller for this error kind.
    pub fn message(&self) -> (m: String)
        ensures
            m@ == self.spec_message(),
            m@.len() > 0,
    {
        proof {
            reveal_strlit("unknown service");
            reveal_strlit("empty input");
            reveal_strlit("upstream unavailable");
            reveal_strlit("upstream bad response");
            reveal_strlit("embedding unavailable");
            reveal_strlit("store error");
            reveal_strlit("not found");
        }
        match self {
            GatewayError::UnknownService => String::from_str("unknown service"),
            GatewayError::EmptyInput => String::from_str("empty input"),
            GatewayError::UpstreamUnavailable => String::from_str("upstream unavailable"),
            GatewayError::UpstreamBadResponse => String::from_str("upstream bad response"),
            GatewayError::EmbeddingUnavailable => String::from_str("embedding unavailable"),
            GatewayError::StoreError => String::from_str("store error"),
            GatewayError::NotFound => String::from_str("not found"),
        }
    }

    /// Map this error kind to its external HTTP status code.
    pub fn status_code(&self) -> (code: u16)
        ensures
            code == self.spec_status_code(),
    {
        match self {
            GatewayError::UnknownService => 400,
            GatewayError::EmptyInput => 400,
            GatewayError::UpstreamUnavailable => 503,
            GatewayError::UpstreamBadResponse => 502,
            GatewayError::EmbeddingUnavailable => 500,
            GatewayError::StoreError => 500,
            GatewayError::NotFound => 404,
        }
    }
}

} // verus!
