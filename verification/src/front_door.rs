//! The gateway front door: it assigns every inbound request a fresh
//! correlation id and wraps every handler's result — success or failure
//! — in the one envelope shape, mapping each internal error kind to its
//! fixed external status code.

use vstd::prelude::*;

use crate::GatewayError;
use crate::envelope::GatewayResponse;
use crate::records::{ProjectedRecord, StoredRecord};

verus! {

/// The payload of the health route.
#[derive(Debug, Clone)]
pub struct HealthCheck {
    pub status: String,
    pub timestamp: String,
    pub version: String,
}

/// Relies on chrono: `Utc::now().to_rfc3339()` renders the current time
/// as a non-empty RFC 3339 date-time string.
#[verifier::external_body]
fn now_rfc3339() -> (r: String)
    ensures
        r@.len() > 0,
{
    chrono::Utc::now().to_rfc3339()
}

/// Answer the health route: status `healthy`, the current timestamp,
/// and the serving version, wrapped in the envelope.
pub fn health_check(version: String, request_id: String) -> (r: GatewayResponse<HealthCheck>)
    requires
        request_id@.len() > 0,
    ensures
        r.wf(),
        r.success,
        r.data matches Some(h) && h.status@ == "healthy"@ && h.version == version
            && h.timestamp@.len() > 0,
        r.request_id == request_id,
{
    let health = HealthCheck {
        status: String::from_str("healthy"),
        timestamp: now_rfc3339(),
        version,
    };
    GatewayResponse::success(Some(health), None, request_id)
}

/// What a single-document point lookup observed: the record, no match,
/// or a store failure.
#[derive(Debug)]
pub enum LookupOutcome {
    Found(StoredRecord),
    Missing,
    Failed,
}

/// The fixed listing name the direct-fetch route looks up.
pub fn data_query_name() -> (s: String)
    ensures
        s@ == "Private Room in Bushwick"@,
{
    String::from_str("Private Room in Bushwick")
}

/// The fixed listing identifier the id-fetch route looks up.
pub fn mock_query_id() -> (id: i64)
    ensures
        id == 10084023,
{
    10084023
}

/// Wrap a point lookup's outcome: a found record and "no match" are both
/// successes (the latter with an empty payload), served with status 200;
/// a store failure is reported as `StoreError`.
pub fn respond_lookup(outcome: LookupOutcome, request_id: String) -> (r: (
    GatewayResponse<StoredRecord>,
    u16,
))
    requires
        request_id@.len() > 0,
    ensures
        r.0.wf(),
        r.0.request_id == request_id,
        match outcome {
            LookupOutcome::Found(rec) => r.0.success && r.0.data == Some(rec) && r.1 == 200,
            LookupOutcome::Missing => r.0.success && r.0.data is None && r.1 == 200,
            LookupOutcome::Failed => !r.0.success && (r.0.error matches Some(m) && m@
                == GatewayError::StoreError.spec_message()) && r.1
                == GatewayError::StoreError.spec_status_code(),
        },
{
    match outcome {
        LookupOutcome::Found(rec) => (GatewayResponse::success(Some(rec), None, request_id), 200),
        LookupOutcome::Missing => (GatewayResponse::success(None, None, request_id), 200),
        LookupOutcome::Failed => {
            let kind = GatewayError::StoreError;
            let status = kind.status_code();
            (GatewayResponse::failure(kind, request_id), status)
        },
    }
}

/// Wrap the embed-then-search result: a projected match is a success; no
/// match is reported as `NotFound`; any error keeps its kind's fixed
/// status code.
pub fn respond_embed_search(
    result: Result<Option<ProjectedRecord>, GatewayError>,
    request_id: String,
) -> (r: (GatewayResponse<ProjectedRecord>, u16))
    requires
        request_id@.len() > 0,
    ensures
        r.0.wf(),
        r.0.request_id == request_id,
        match result {
            Ok(Some(p)) => r.0.success && r.0.data == Some(p) && r.1 == 200,
            Ok(None) => !r.0.success && (r.0.error matches Some(m) && m@
                == GatewayError::NotFound.spec_message()) && r.1
                == GatewayError::NotFound.spec_status_code(),
            Err(e) => !r.0.success && (r.0.error matches Some(m) && m@ == e.spec_message()) && r.1
                == e.spec_status_code(),
        },
{
    match result {
        Ok(Some(p)) => (GatewayResponse::success(Some(p), None, request_id), 200),
        Ok(None) => {
            let kind = GatewayError::NotFound;
            let status = kind.status_code();
            (GatewayResponse::failure(kind, request_id), status)
        },
        Err(e) => {
            let status = e.status_code();
            (GatewayResponse::failure(e, request_id), status)
        },
    }
}

/// Wrap the proxy result: an upstream JSON payload is relayed unaltered
/// with status 200; any error keeps its kind's fixed status code.
pub fn respond_proxy(result: Result<serde_json::Value, GatewayError>, request_id: String) -> (r: (
    GatewayResponse<serde_json::Value>,
    u16,
))
    requires
        request_id@.len() > 0,
    ensures
        r.0.wf(),
        r.0.request_id == request_id,
        match result {
            Ok(v) => r.0.success && r.0.data == Some(v) && r.1 == 200,
            Err(e) => !r.0.success && (r.0.error matches Some(m) && m@ == e.spec_message()) && r.1
                == e.spec_status_code(),
        },
{
    match result {
        Ok(v) => (GatewayResponse::success(Some(v), None, request_id), 200),
        Err(e) => {
            let status = e.status_code();
            (GatewayResponse::failure(e, request_id), status)
        },
    }
}

} // verus!
